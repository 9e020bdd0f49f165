//! TCP with a frame layer: every message is sent after its encoded size.
use vstd::prelude::*;
use vstd::slice::slice_subrange;
use crate::network::adapter::{IoErrorKind, SendStatus};

verus! {

/// Size of the internal reading buffer.
pub const INPUT_BUFFER_SIZE: usize = 65535;

/// The max packet value for tcp.
/// Although this size is very high, it is preferred send data in smaller chunks with a rate
/// to not saturate the receiver thread in the endpoint.
pub const MAX_TCP_PAYLOAD_LEN: usize = usize::MAX;

/// The adapter of framed TCP.
pub struct FramedTcpAdapter;

/// The bytes to write next of a frame made of `header` followed by `data`,
/// after `sent` bytes of it were written.
pub open spec fn frame_pending(header: Seq<u8>, data: Seq<u8>, sent: nat) -> Seq<u8> {
    if sent < header.len() {
        header.skip(sent as int)
    } else {
        data.skip(sent - header.len())
    }
}

/// The bytes to write next when sending a frame made of `header` followed by
/// `data`, after `sent` bytes of it were written: the rest of the header while
/// the header is not fully sent, else the rest of the data.
pub fn frame_pending_bytes<'a>(header: &'a [u8], data: &'a [u8], sent: usize) -> (pending: &'a [u8])
    requires
        sent <= header@.len() + data@.len(),
    ensures
        pending@ == frame_pending(header@, data@, sent as nat),
{
    if sent < header.len() {
        slice_subrange(header, sent, header.len())
    } else {
        slice_subrange(data, sent - header.len(), data.len())
    }
}

/// The bytes to write next start the rest of the frame, and are not empty
/// while the frame is not fully sent.
pub proof fn lemma_pending_bytes_prefix(header: Seq<u8>, data: Seq<u8>, sent: nat)
    requires
        sent < header.len() + data.len(),
    ensures
        ({
            let pending = frame_pending(header, data, sent);
            &&& pending.len() > 0
            &&& pending.len() <= header.len() + data.len() - sent
            &&& pending == (header + data).skip(sent as int).take(pending.len() as int)
        }),
{
    let pending = frame_pending(header, data, sent);
    assert(pending =~= (header + data).skip(sent as int).take(pending.len() as int));
}

/// A run of writes of a frame made of `header` followed by `data`, from `sent`
/// bytes on, each write being handed [`frame_pending`] and ending with the
/// next outcome: the bytes the writes took from what they were handed, in
/// order, and how the send ends (`None` while it goes on). A write that would
/// block is made again; any other error ends the send.
pub open spec fn frame_writes(
    header: Seq<u8>,
    data: Seq<u8>,
    sent: nat,
    writes: Seq<Result<usize, IoErrorKind>>,
) -> (Seq<u8>, Option<SendStatus>)
    decreases writes.len(),
{
    if writes.len() == 0 {
        (Seq::empty(), None)
    } else {
        match writes[0] {
            Ok(written) => {
                let taken = frame_pending(header, data, sent).take(written as int);
                if sent + written == header.len() + data.len() {
                    (taken, Some(SendStatus::Sent))
                } else {
                    let rest = frame_writes(header, data, (sent + written) as nat, writes.drop_first());
                    (taken + rest.0, rest.1)
                }
            },
            Err(IoErrorKind::WouldBlock) => frame_writes(header, data, sent, writes.drop_first()),
            Err(_) => (Seq::empty(), Some(SendStatus::ResourceNotFound)),
        }
    }
}

/// Every write of a run writes at most what it was handed.
pub open spec fn writes_fit(
    header: Seq<u8>,
    data: Seq<u8>,
    sent: nat,
    writes: Seq<Result<usize, IoErrorKind>>,
) -> bool
    decreases writes.len(),
{
    if writes.len() == 0 {
        true
    } else {
        match writes[0] {
            Ok(written) => {
                &&& written <= frame_pending(header, data, sent).len()
                &&& (sent + written != header.len() + data.len() ==> writes_fit(
                    header,
                    data,
                    (sent + written) as nat,
                    writes.drop_first(),
                ))
            },
            Err(IoErrorKind::WouldBlock) => writes_fit(header, data, sent, writes.drop_first()),
            Err(_) => true,
        }
    }
}

/// Across any run of partial writes that ends with `Sent`, the bytes written
/// are the whole frame, header then data, each byte once and in order.
pub proof fn lemma_frame_writes_whole(
    header: Seq<u8>,
    data: Seq<u8>,
    writes: Seq<Result<usize, IoErrorKind>>,
)
    requires
        header.len() > 0,
        writes_fit(header, data, 0, writes),
        frame_writes(header, data, 0, writes).1 == Some(SendStatus::Sent),
    ensures
        frame_writes(header, data, 0, writes).0 == header + data,
{
    lemma_frame_writes_rest(header, data, 0, writes);
    assert((header + data).skip(0) =~= header + data);
}

proof fn lemma_frame_writes_rest(
    header: Seq<u8>,
    data: Seq<u8>,
    sent: nat,
    writes: Seq<Result<usize, IoErrorKind>>,
)
    requires
        sent < header.len() + data.len(),
        writes_fit(header, data, sent, writes),
        frame_writes(header, data, sent, writes).1 == Some(SendStatus::Sent),
    ensures
        frame_writes(header, data, sent, writes).0 == (header + data).skip(sent as int),
    decreases writes.len(),
{
    let frame = header + data;
    let rest = writes.drop_first();
    match writes[0] {
        Ok(written) => {
            lemma_pending_bytes_prefix(header, data, sent);
            let pending = frame_pending(header, data, sent);
            let taken = pending.take(written as int);
            assert(taken =~= frame.skip(sent as int).take(written as int));
            if sent + written == frame.len() {
                assert(taken =~= frame.skip(sent as int));
            } else {
                lemma_frame_writes_rest(header, data, (sent + written) as nat, rest);
                assert(frame.skip(sent as int) =~= taken + frame.skip(sent + written));
            }
        },
        Err(IoErrorKind::WouldBlock) => {
            lemma_frame_writes_rest(header, data, sent, rest);
        },
        Err(_) => {},
    }
}

} // verus!
