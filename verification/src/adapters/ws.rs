//! WebSocket adapter: the handshake as a state machine, and what it does with
//! the outcome of each read and write.
use vstd::prelude::*;
use vstd::string::StrSliceExecFns;
use crate::network::adapter::{IoErrorKind, PendingStatus, ReadStatus, ReadStep, SendStatus};

verus! {

/// Max message size for default config (32 MiB).
pub const MAX_PAYLOAD_LEN: usize = 33554432;

/// The adapter of WebSocket.
pub struct WsAdapter;

/// The default port of a web socket URL of `scheme`: 80 for plain `ws`, 443
/// for `wss` over TLS, none for any other scheme.
pub open spec fn spec_default_port(scheme: Seq<char>) -> Option<u16> {
    if scheme == seq!['w', 's'] {
        Some(80u16)
    } else if scheme == seq!['w', 's', 's'] {
        Some(443u16)
    } else {
        None
    }
}

/// The default port of a web socket URL of `scheme`.
pub fn default_port(scheme: &str) -> (port: Option<u16>)
    ensures
        port == spec_default_port(scheme@),
{
    let n = scheme.unicode_len();
    if n == 2 && scheme.get_char(0) == 'w' && scheme.get_char(1) == 's' {
        assert(scheme@ =~= seq!['w', 's']);
        Some(80)
    } else if n == 3 && scheme.get_char(0) == 'w' && scheme.get_char(1) == 's' && scheme.get_char(
        2,
    ) == 's' {
        assert(scheme@ =~= seq!['w', 's', 's']);
        Some(443)
    } else {
        proof {
            if scheme@ == seq!['w', 's'] {
                assert(scheme@[0] == 'w' && scheme@[1] == 's');
            }
            if scheme@ == seq!['w', 's', 's'] {
                assert(scheme@[0] == 'w' && scheme@[1] == 's' && scheme@[2] == 's');
            }
        }
        None
    }
}

/// The host, the port and the scheme of the URL that `url` reads from the
/// text with these characters, or `None` when it refuses the text or the URL
/// has no host. The host is a domain name, or an IP address without brackets;
/// the port is the one the URL gives, else the default port `url` knows for
/// its scheme, else absent.
pub uninterp spec fn url_target(text: Seq<char>) -> Option<(Seq<char>, Option<u16>, Seq<char>)>;

/// Calls `url::Url::parse` on `text` and reads the host (`Url::host`, the
/// domain or the address written out), the port (`Url::port_or_known_default`)
/// and the scheme
/// (`Url::scheme`) of the URL; `None` when the text is refused or has no host.
/// What these give is a function of the text alone.
#[verifier::external_body]
fn parse_url(text: &str) -> (target: Option<(String, Option<u16>, String)>)
    ensures
        match (target, url_target(text@)) {
            (Some((host, port, scheme)), Some((h, p, sch))) => host@ == h && port == p && scheme@
                == sch,
            (None, None) => true,
            _ => false,
        },
{
    let url = url::Url::parse(text).ok()?;
    let host = match url.host()? {
        url::Host::Domain(domain) => domain.to_string(),
        url::Host::Ipv4(addr) => addr.to_string(),
        url::Host::Ipv6(addr) => addr.to_string(),
    };
    Some((host, url.port_or_known_default(), url.scheme().to_string()))
}

/// The host and port a web socket URL connects to: the port `url` reads or
/// knows for it, else the default port of a web socket scheme.
pub open spec fn spec_ws_target(text: Seq<char>) -> Option<(Seq<char>, u16)> {
    match url_target(text) {
        None => None,
        Some((host, Some(port), _)) => Some((host, port)),
        Some((host, None, scheme)) => match spec_default_port(scheme) {
            Some(port) => Some((host, port)),
            None => None,
        },
    }
}

/// The host and port that the web socket URL `text` connects to; `None` when
/// the text is no URL with a host, or when it gives no port and its scheme
/// has no default one.
pub fn ws_target(text: &str) -> (target: Option<(String, u16)>)
    ensures
        match target {
            Some((host, port)) => spec_ws_target(text@) == Some((host@, port)),
            None => spec_ws_target(text@) is None,
        },
{
    match parse_url(text) {
        None => None,
        Some((host, Some(port), _)) => Some((host, port)),
        Some((host, None, scheme)) => match default_port(scheme.as_str()) {
            Some(port) => Some((host, port)),
            None => None,
        },
    }
}

/// Where the handshake of a remote stands.
#[derive(Clone, Copy, PartialEq, Eq, Debug, Structural)]
pub enum HandshakePhase {
    /// The TCP connection of an explicit connection is being established.
    Connect,
    /// An accepted TCP stream waits for the server handshake to start.
    Accept,
    /// The client handshake was started and is not complete.
    Client,
    /// The server handshake was started and is not complete.
    Server,
}

/// The outcome of one handshake attempt of `tungstenite`.
#[derive(Clone, Copy, PartialEq, Eq, Debug, Structural)]
pub enum HandshakeOutcome {
    /// The handshake completed: the web socket is ready.
    Done,
    /// The handshake needs more data (`HandshakeError::Interrupted`).
    Interrupted,
    /// The handshake failed with an I/O error.
    IoFailure,
    /// The handshake failed with another error (logged).
    OtherFailure,
}

/// The state a remote moves to after a handshake attempt.
#[derive(Clone, Copy, PartialEq, Eq, Debug, Structural)]
pub enum HandshakeNext {
    /// The web socket is established.
    WebSocket,
    /// The handshake goes on in this phase.
    Pending(HandshakePhase),
    /// The handshake failed; the stream is kept only to be deregistered.
    Failed,
}

/// Before the client handshake of an explicit connection starts, the TCP
/// connection must be ready: while it is not, its status is reported and
/// the remote stays in the `Connect` phase.
pub fn connect_wait_status(tcp_status: PendingStatus) -> (status: Option<PendingStatus>)
    ensures
        status == (if tcp_status == PendingStatus::Ready {
            None
        } else {
            Some(tcp_status)
        }),
{
    match tcp_status {
        PendingStatus::Ready => None,
        other => Some(other),
    }
}

/// The phase a handshake that needs more data goes on in: a client handshake
/// for an explicit connection, a server handshake for an accepted stream.
pub open spec fn continued_phase(phase: HandshakePhase) -> HandshakePhase {
    match phase {
        HandshakePhase::Connect => HandshakePhase::Client,
        HandshakePhase::Client => HandshakePhase::Client,
        HandshakePhase::Accept => HandshakePhase::Server,
        HandshakePhase::Server => HandshakePhase::Server,
    }
}

/// The status reported, and the state reached, after a handshake attempt
/// made in `phase` ended with `outcome`: the web socket once the handshake
/// is done, the handshake going on when it needs more data, a failure on any
/// error.
pub open spec fn spec_handshake_step(phase: HandshakePhase, outcome: HandshakeOutcome) -> (
    PendingStatus,
    HandshakeNext,
) {
    match outcome {
        HandshakeOutcome::Done => (PendingStatus::Ready, HandshakeNext::WebSocket),
        HandshakeOutcome::Interrupted => (
            PendingStatus::Incomplete,
            HandshakeNext::Pending(continued_phase(phase)),
        ),
        _ => (PendingStatus::Disconnected, HandshakeNext::Failed),
    }
}

/// The status reported, and the state reached, after a handshake attempt
/// made in `phase` ended with `outcome`.
pub fn handshake_step(phase: HandshakePhase, outcome: HandshakeOutcome) -> (result: (
    PendingStatus,
    HandshakeNext,
))
    ensures
        result == spec_handshake_step(phase, outcome),
{
    match outcome {
        HandshakeOutcome::Done => (PendingStatus::Ready, HandshakeNext::WebSocket),
        HandshakeOutcome::Interrupted => {
            let next = match phase {
                HandshakePhase::Connect => HandshakePhase::Client,
                HandshakePhase::Client => HandshakePhase::Client,
                HandshakePhase::Accept => HandshakePhase::Server,
                HandshakePhase::Server => HandshakePhase::Server,
            };
            (PendingStatus::Incomplete, HandshakeNext::Pending(next))
        },
        HandshakeOutcome::IoFailure => (PendingStatus::Disconnected, HandshakeNext::Failed),
        HandshakeOutcome::OtherFailure => (PendingStatus::Disconnected, HandshakeNext::Failed),
    }
}

/// A handshake never goes back: once it is a client or a server handshake it
/// stays one, and a step reports `Ready` exactly when the web socket is
/// established.
pub proof fn lemma_handshake_progress(phase: HandshakePhase, outcome: HandshakeOutcome)
    ensures
        ({
            let (status, next) = spec_handshake_step(phase, outcome);
            &&& (status == PendingStatus::Ready <==> next == HandshakeNext::WebSocket)
            &&& (status == PendingStatus::Disconnected <==> next == HandshakeNext::Failed)
            &&& next matches HandshakeNext::Pending(p) ==> (p == HandshakePhase::Client || p
                == HandshakePhase::Server)
            &&& (phase == HandshakePhase::Client || phase == HandshakePhase::Connect) ==> next
                != HandshakeNext::Pending(HandshakePhase::Server)
            &&& (phase == HandshakePhase::Server || phase == HandshakePhase::Accept) ==> next
                != HandshakeNext::Pending(HandshakePhase::Client)
        }),
{
}

/// An interrupted handshake keeps its role: a handshake of an accepted
/// stream (`Accept`, `Server`) goes on as a server handshake, one of an
/// explicit connection (`Connect`, `Client`) as a client handshake, and the
/// status is `Incomplete`.
pub proof fn lemma_interrupted_keeps_role(phase: HandshakePhase)
    ensures
        spec_handshake_step(phase, HandshakeOutcome::Interrupted) == (
            PendingStatus::Incomplete,
            HandshakeNext::Pending(
                if phase == HandshakePhase::Accept || phase == HandshakePhase::Server {
                    HandshakePhase::Server
                } else {
                    HandshakePhase::Client
                },
            ),
        ),
{
}

/// Where a remote stands: its web socket is established, its handshake is
/// under way in a phase, or its handshake failed.
#[derive(Clone, Copy, PartialEq, Eq, Debug, Structural)]
pub enum RemoteStage {
    WebSocket,
    Handshake(HandshakePhase),
    Failed,
}

/// The stage a remote reaches after a handshake attempt.
pub open spec fn stage_of(next: HandshakeNext) -> RemoteStage {
    match next {
        HandshakeNext::WebSocket => RemoteStage::WebSocket,
        HandshakeNext::Pending(phase) => RemoteStage::Handshake(phase),
        HandshakeNext::Failed => RemoteStage::Failed,
    }
}

/// What asking a remote whether it is ready starts with.
#[derive(Clone, Copy, PartialEq, Eq, Debug, Structural)]
pub enum PendingStart {
    /// Answer this status at once, the remote staying as it is.
    Answer(PendingStatus),
    /// Attempt the handshake in this phase (in the `Connect` phase, once the
    /// TCP connection is ready, see [`connect_wait_status`]).
    Attempt(HandshakePhase),
}

/// What asking a remote in `stage` whether it is ready starts with: an
/// established web socket answers `Ready` without any handshake; a remote
/// whose handshake is under way goes on with it. A remote whose handshake
/// failed is never asked again.
pub fn pending_start(stage: RemoteStage) -> (start: PendingStart)
    requires
        stage != RemoteStage::Failed,
    ensures
        start == (match stage {
            RemoteStage::Handshake(phase) => PendingStart::Attempt(phase),
            _ => PendingStart::Answer(PendingStatus::Ready),
        }),
{
    match stage {
        RemoteStage::Handshake(phase) => PendingStart::Attempt(phase),
        _ => PendingStart::Answer(PendingStatus::Ready),
    }
}

/// One call asking a remote in `stage` whether it is ready, when the TCP
/// connection reports `tcp` (read in the `Connect` phase only) and a
/// handshake attempt would end with `outcome`: the status answered and the
/// stage reached.
pub open spec fn pending_call(
    stage: RemoteStage,
    tcp: PendingStatus,
    outcome: HandshakeOutcome,
) -> (PendingStatus, RemoteStage) {
    match stage {
        RemoteStage::WebSocket => (PendingStatus::Ready, RemoteStage::WebSocket),
        RemoteStage::Handshake(phase) => if phase == HandshakePhase::Connect && tcp
            != PendingStatus::Ready {
            (tcp, stage)
        } else {
            let (status, next) = spec_handshake_step(phase, outcome);
            (status, stage_of(next))
        },
        RemoteStage::Failed => (PendingStatus::Disconnected, RemoteStage::Failed),
    }
}

/// The statuses answered by successive calls asking a remote, starting in
/// `stage`, whether it is ready.
pub open spec fn pending_statuses(
    stage: RemoteStage,
    calls: Seq<(PendingStatus, HandshakeOutcome)>,
) -> Seq<PendingStatus>
    decreases calls.len(),
{
    if calls.len() == 0 {
        Seq::empty()
    } else {
        let (status, next) = pending_call(stage, calls[0].0, calls[0].1);
        seq![status] + pending_statuses(next, calls.drop_first())
    }
}

/// An established web socket answers `Ready` to every call.
proof fn lemma_web_socket_answers_ready(calls: Seq<(PendingStatus, HandshakeOutcome)>)
    ensures
        pending_statuses(RemoteStage::WebSocket, calls).len() == calls.len(),
        forall|i: int|
            0 <= i < calls.len() ==> #[trigger] pending_statuses(RemoteStage::WebSocket, calls)[i]
                == PendingStatus::Ready,
    decreases calls.len(),
{
    if calls.len() > 0 {
        lemma_web_socket_answers_ready(calls.drop_first());
        let out = pending_statuses(RemoteStage::WebSocket, calls);
        assert forall|i: int| 0 <= i < calls.len() implies #[trigger] out[i]
            == PendingStatus::Ready by {
            if i > 0 {
                assert(out[i] == pending_statuses(RemoteStage::WebSocket, calls.drop_first())[i
                    - 1]);
            }
        }
    }
}

/// Once a remote answered `Ready`, it answers `Ready` to every later call,
/// without any more handshake; and it answers `Ready` only once its web
/// socket is established.
pub proof fn lemma_ready_stays(stage: RemoteStage, calls: Seq<(PendingStatus, HandshakeOutcome)>)
    ensures
        pending_statuses(stage, calls).len() == calls.len(),
        forall|i: int, j: int|
            #![trigger pending_statuses(stage, calls)[i], pending_statuses(stage, calls)[j]]
            0 <= i < j < calls.len() && pending_statuses(stage, calls)[i] == PendingStatus::Ready
                ==> pending_statuses(stage, calls)[j] == PendingStatus::Ready,
        forall|tcp: PendingStatus, outcome: HandshakeOutcome|
            #[trigger] pending_call(stage, tcp, outcome).0 == PendingStatus::Ready
                ==> pending_call(stage, tcp, outcome).1 == RemoteStage::WebSocket,
    decreases calls.len(),
{
    if calls.len() > 0 {
        let (status, next) = pending_call(stage, calls[0].0, calls[0].1);
        let rest = calls.drop_first();
        lemma_ready_stays(next, rest);
        let out = pending_statuses(stage, calls);
        assert forall|i: int, j: int|
            #![trigger out[i], out[j]]
            0 <= i < j < calls.len() && out[i] == PendingStatus::Ready implies out[j]
            == PendingStatus::Ready by {
            assert(out[j] == pending_statuses(next, rest)[j - 1]);
            if i == 0 {
                assert(next == RemoteStage::WebSocket);
                lemma_web_socket_answers_ready(rest);
            } else {
                assert(out[i] == pending_statuses(next, rest)[i - 1]);
            }
        }
    }
}

/// The read status for an I/O error met while reading a web socket.
pub fn io_error_to_read_status(kind: IoErrorKind) -> (status: ReadStatus)
    ensures
        status == (if kind == IoErrorKind::WouldBlock {
            ReadStatus::WaitNextEvent
        } else {
            ReadStatus::Disconnected
        }),
{
    match kind {
        IoErrorKind::WouldBlock => ReadStatus::WaitNextEvent,
        _ => ReadStatus::Disconnected,
    }
}

/// The kind of a message read from a web socket.
#[derive(Clone, Copy, PartialEq, Eq, Debug, Structural)]
pub enum MessageKind {
    Binary,
    Close,
    /// Text, ping, pong and raw frames, which are skipped.
    Other,
}

/// What the read loop does with the outcome of one `read_message`: a binary
/// message of this many bytes is handed over, a close ends the connection,
/// other messages are skipped, an I/O error is mapped by
/// [`io_error_to_read_status`] and any other error disconnects.
pub fn read_message_step(outcome: Result<(MessageKind, usize), Option<IoErrorKind>>) -> (step: ReadStep)
    ensures
        step == (match outcome {
            Ok((MessageKind::Binary, size)) => ReadStep::Data(size),
            Ok((MessageKind::Close, _)) => ReadStep::Finish(ReadStatus::Disconnected),
            Ok((MessageKind::Other, _)) => ReadStep::Retry,
            Err(Some(IoErrorKind::WouldBlock)) => ReadStep::Finish(ReadStatus::WaitNextEvent),
            Err(_) => ReadStep::Finish(ReadStatus::Disconnected),
        }),
{
    match outcome {
        Ok((MessageKind::Binary, size)) => ReadStep::Data(size),
        Ok((MessageKind::Close, _)) => ReadStep::Finish(ReadStatus::Disconnected),
        Ok((MessageKind::Other, _)) => ReadStep::Retry,
        Err(Some(kind)) => ReadStep::Finish(io_error_to_read_status(kind)),
        Err(None) => ReadStep::Finish(ReadStatus::Disconnected),
    }
}

/// The outcome of writing a message to a web socket.
#[derive(Clone, Copy, PartialEq, Eq, Debug, Structural)]
pub enum WriteOutcome {
    Written,
    /// An I/O error of kind `WouldBlock`: the pending data must be written again.
    WouldBlock,
    /// The message is bigger than the web socket accepts.
    Capacity,
    /// Any other error (logged).
    OtherError,
}

/// What a send does with the outcome of one write: `None` when the pending
/// data must be written again.
pub fn send_step(outcome: WriteOutcome) -> (status: Option<SendStatus>)
    ensures
        status == (match outcome {
            WriteOutcome::Written => Some(SendStatus::Sent),
            WriteOutcome::WouldBlock => None,
            WriteOutcome::Capacity => Some(SendStatus::MaxPacketSizeExceeded),
            WriteOutcome::OtherError => Some(SendStatus::ResourceNotFound),
        }),
{
    match outcome {
        WriteOutcome::Written => Some(SendStatus::Sent),
        WriteOutcome::WouldBlock => None,
        WriteOutcome::Capacity => Some(SendStatus::MaxPacketSizeExceeded),
        WriteOutcome::OtherError => Some(SendStatus::ResourceNotFound),
    }
}

} // verus!
