//! The poll: tokens of registered resources, and the events it reports.
use vstd::prelude::*;
use crate::network::resource_id::ResourceId;

verus! {

/// Used for the adapter implementation.
/// Specify the kind of event that is available for a resource.
#[derive(Clone, Copy, Debug, PartialEq, Eq, Structural)]
pub enum Readiness {
    /// The resource is available to write
    Write,
    /// The resource is available to read (has any content to read).
    Read,
}

/// An event of the poll.
#[derive(Clone, Copy, Debug, PartialEq, Eq, Structural)]
pub enum PollEvent {
    Network(ResourceId, Readiness),
    Waker,
}

/// The capacity of the list of events of one poll.
pub const EVENTS_SIZE: usize = 1024;

/// The low bits of a token kept for the poll's own use.
pub const RESERVED_BITS: usize = 1;

/// The token of the waker.
pub const WAKER_TOKEN: usize = 0;

/// The token a resource is registered with: its raw id shifted past the
/// reserved bit, with the reserved bit set.
pub fn token_of_resource(id: ResourceId) -> (token: usize)
    ensures
        token == ((id@ as usize) << 1usize) | 1usize,
{
    (id.raw() << 1usize) | 1usize
}

/// The resource id a token stands for.
pub open spec fn spec_resource_of_token(token: usize) -> ResourceId {
    ResourceId::spec_from_raw((token >> 1usize) as u64)
}

/// The resource id a token stands for: the token without its reserved bit.
pub fn resource_of_token(token: usize) -> (id: ResourceId)
    ensures
        id == spec_resource_of_token(token),
{
    ResourceId::from_raw(token >> 1usize)
}

/// The token of a resource is never the waker's, and gives the resource back,
/// for ids that fit in a `usize` with the top bit clear, so that shifting
/// past the reserved bit loses nothing.
pub proof fn lemma_token_roundtrip(id: ResourceId)
    requires
        id@ <= usize::MAX,
        (id@ as usize) >> ((usize::BITS - 1) as usize) == 0usize,
    ensures
        ((id@ as usize) << 1usize) | 1usize != WAKER_TOKEN,
        spec_resource_of_token(((id@ as usize) << 1usize) | 1usize) == id,
{
    let raw = id@ as usize;
    assert((raw << 1usize) | 1usize != 0usize && ((raw << 1usize) | 1usize) >> 1usize == raw)
        by (bit_vector)
        requires
            raw >> ((usize::BITS - 1) as usize) == 0usize,
    ;
    crate::network::resource_id::lemma_spec_from_raw(raw as u64);
    crate::network::resource_id::lemma_view_determines(
        ResourceId::spec_from_raw(raw as u64),
        id,
    );
}

/// What the poll reported for one token.
#[derive(Clone, Copy, Debug, PartialEq, Eq, Structural)]
pub struct TokenEvent {
    pub token: usize,
    pub readable: bool,
    pub writable: bool,
}

/// The events of the poll for what was reported on one token: the waker, or
/// a read event then a write event of the resource, as far as reported.
pub open spec fn poll_events_of(event: TokenEvent) -> Seq<PollEvent> {
    if event.token == WAKER_TOKEN {
        seq![PollEvent::Waker]
    } else {
        let id = spec_resource_of_token(event.token);
        (if event.readable {
            seq![PollEvent::Network(id, Readiness::Read)]
        } else {
            Seq::empty()
        }) + (if event.writable {
            seq![PollEvent::Network(id, Readiness::Write)]
        } else {
            Seq::empty()
        })
    }
}

/// Only the waker's token gives a waker event, and it gives nothing else;
/// the report of the token of a resource (whose raw id fits in a `usize` with
/// the top bit clear) gives exactly a read event of that resource when it is
/// readable, then a write event when it is writable.
pub proof fn lemma_token_events(id: ResourceId, token: usize, readable: bool, writable: bool)
    requires
        id@ <= usize::MAX,
        (id@ as usize) >> ((usize::BITS - 1) as usize) == 0usize,
    ensures
        poll_events_of(TokenEvent { token: WAKER_TOKEN, readable, writable }) == seq![
            PollEvent::Waker,
        ],
        token != WAKER_TOKEN ==> forall|i: int|
            0 <= i < poll_events_of(TokenEvent { token, readable, writable }).len()
                ==> #[trigger] poll_events_of(TokenEvent { token, readable, writable })[i]
                != PollEvent::Waker,
        poll_events_of(
            TokenEvent { token: ((id@ as usize) << 1usize) | 1usize, readable, writable },
        ) == (if readable {
            seq![PollEvent::Network(id, Readiness::Read)]
        } else {
            Seq::empty()
        }) + (if writable {
            seq![PollEvent::Network(id, Readiness::Write)]
        } else {
            Seq::empty()
        }),
{
    lemma_token_roundtrip(id);
    let e = TokenEvent { token, readable, writable };
    if token != WAKER_TOKEN {
        let out = poll_events_of(e);
        let rid = spec_resource_of_token(token);
        assert forall|i: int| 0 <= i < out.len() implies #[trigger] out[i] != PollEvent::Waker by {
            assert(out[i] == PollEvent::Network(rid, Readiness::Read) || out[i]
                == PollEvent::Network(rid, Readiness::Write));
        }
    }
}

/// The events of the poll for a list of reports, in order.
pub open spec fn poll_events(events: Seq<TokenEvent>) -> Seq<PollEvent>
    decreases events.len(),
{
    if events.len() == 0 {
        Seq::empty()
    } else {
        poll_events(events.drop_last()) + poll_events_of(events.last())
    }
}

/// Turns the reports of one poll into events of the poll.
pub fn translate_events(events: &[TokenEvent]) -> (poll_events_out: Vec<PollEvent>)
    ensures
        poll_events_out@ == poll_events(events@),
{
    let mut out: Vec<PollEvent> = Vec::new();
    let mut i: usize = 0;
    while i < events.len()
        invariant
            i <= events@.len(),
            out@ == poll_events(events@.take(i as int)),
        decreases events@.len() - i,
    {
        let event = events[i];
        let ghost before = out@;
        if event.token == WAKER_TOKEN {
            out.push(PollEvent::Waker);
        } else {
            let id = resource_of_token(event.token);
            if event.readable {
                out.push(PollEvent::Network(id, Readiness::Read));
            }
            if event.writable {
                out.push(PollEvent::Network(id, Readiness::Write));
            }
        }
        proof {
            let taken = events@.take(i + 1);
            assert(taken.drop_last() =~= events@.take(i as int));
            assert(out@ =~= before + poll_events_of(event));
        }
        i += 1;
    }
    assert(events@.take(events@.len() as int) =~= events@);
    out
}

} // verus!
