//! The handshake state machine, its timeout and cancellation rules, and
//! the ledger of attempted peers.
//!
//! One handshake attempt is four steps in strict order: send the local
//! Version, await the remote Version, send the local acknowledgment, await
//! the remote acknowledgment. The whole attempt is bounded by a timeout
//! budget; when the budget elapses the attempt concludes `TimedOut` and the
//! connection is closed — the work never continues past the deadline.
//!
//! The machine itself performs no I/O. A caller opens the connection,
//! writes and reads, and feeds each observed event into [`step`]; the
//! returned action says what to do next. Everything the machine decides is
//! stated by [`spec_step`] and proved of every run.

use vstd::prelude::*;

use crate::network_messages::Message;
use crate::peer::PeerAddr;

verus! {

/// Top-level handshake error: an attempt concluded in something other than
/// success.
#[derive(Clone, Copy, Debug, PartialEq, Eq, Structural)]
pub struct HandshakeError;

/// Why a handshake attempt failed.
#[derive(Clone, Copy, Debug, PartialEq, Eq, Structural)]
pub enum FailureReason {
    /// The transport-level connection could not be opened.
    ConnectError,
    /// A write or read failed after the connection was up.
    IoError,
    /// An inbound envelope was malformed or truncated.
    DecodeError,
    /// A structurally valid envelope carried the wrong message for the
    /// current step.
    ProtocolViolation,
}

/// The definite outcome of one handshake attempt.
#[derive(Clone, Copy, Debug, PartialEq, Eq, Structural)]
pub enum HandshakeOutcome {
    Completed,
    TimedOut,
    Failed(FailureReason),
}

impl HandshakeOutcome {
    /// The outcome as the caller-facing result: `Ok(true)` for a completed
    /// handshake, the top-level handshake error otherwise.
    pub fn as_result(&self) -> (r: Result<bool, HandshakeError>)
        ensures
            self is Completed ==> r == Ok::<bool, HandshakeError>(true),
            !(self is Completed) ==> r == Err::<bool, HandshakeError>(HandshakeError),
    {
        match self {
            HandshakeOutcome::Completed => Ok(true),
            _ => Err(HandshakeError),
        }
    }
}

/// Which handshake message an inbound envelope carried.
#[derive(Clone, Copy, Debug, PartialEq, Eq, Structural)]
pub enum MessageKind {
    Version,
    Verack,
}

/// The kind of a decoded message, for feeding the state machine.
pub fn message_kind(m: &Message) -> (k: MessageKind)
    ensures
        k == MessageKind::Version <==> m@ is Version,
        k == MessageKind::Verack <==> m@ is Verack,
{
    match m {
        Message::Version(_) => MessageKind::Version,
        Message::Verack => MessageKind::Verack,
    }
}

/// One observation the caller feeds into the machine.
#[derive(Clone, Copy, Debug, PartialEq, Eq, Structural)]
pub enum DriverEvent {
    /// The attempt begins.
    Start,
    /// The connection is open.
    Connected,
    /// The connection could not be opened.
    ConnectFailed,
    /// The pending write was written in full.
    WriteCompleted,
    /// The pending write failed.
    WriteFailed,
    /// One envelope was read and decoded; its message kind.
    EnvelopeReceived(MessageKind),
    /// An envelope was read but did not decode (malformed or truncated).
    DecodeFailed,
    /// The read itself failed at the transport level.
    ReadFailed,
    /// The timeout budget elapsed.
    TimeoutFired,
}

/// What the caller must do after a transition.
#[derive(Clone, Copy, Debug, PartialEq, Eq, Structural)]
pub enum DriverAction {
    /// Open a byte-stream connection to the peer.
    OpenConnection,
    /// Build, serialise and write the local Version message.
    SendVersion,
    /// Block reading the next envelope.
    AwaitEnvelope,
    /// Build, serialise and write the local acknowledgment.
    SendAck,
    /// Close the connection; the attempt has concluded.
    CloseConnection,
    /// Nothing: the event had no effect in this state.
    NoAction,
}

/// The state of one handshake attempt.
#[derive(Clone, Copy, Debug, PartialEq, Eq, Structural)]
pub enum DriverState {
    /// Nothing has happened yet.
    Idle,
    /// The connection is being opened.
    Connecting,
    /// The local Version is being written.
    VersionSent,
    /// Awaiting the remote Version.
    AwaitingRemoteVersion,
    /// The local acknowledgment is being written.
    AckSent,
    /// Awaiting the remote acknowledgment.
    AwaitingRemoteAck,
    /// The attempt has concluded with this outcome.
    Concluded(HandshakeOutcome),
}

/// The transition table of the handshake state machine.
///
/// A concluded attempt absorbs every further event. The timeout concludes
/// every unconcluded state as `TimedOut` and closes the connection. An
/// event that cannot arise in the current state changes nothing.
pub open spec fn spec_step(s: DriverState, e: DriverEvent) -> (DriverState, DriverAction) {
    if s is Concluded {
        (s, DriverAction::NoAction)
    } else if e == DriverEvent::TimeoutFired {
        (DriverState::Concluded(HandshakeOutcome::TimedOut), DriverAction::CloseConnection)
    } else {
        match (s, e) {
            (DriverState::Idle, DriverEvent::Start) => (
                DriverState::Connecting,
                DriverAction::OpenConnection,
            ),
            (DriverState::Connecting, DriverEvent::Connected) => (
                DriverState::VersionSent,
                DriverAction::SendVersion,
            ),
            (DriverState::Connecting, DriverEvent::ConnectFailed) => (
                DriverState::Concluded(HandshakeOutcome::Failed(FailureReason::ConnectError)),
                DriverAction::CloseConnection,
            ),
            (DriverState::VersionSent, DriverEvent::WriteCompleted) => (
                DriverState::AwaitingRemoteVersion,
                DriverAction::AwaitEnvelope,
            ),
            (DriverState::VersionSent, DriverEvent::WriteFailed) => (
                DriverState::Concluded(HandshakeOutcome::Failed(FailureReason::IoError)),
                DriverAction::CloseConnection,
            ),
            (DriverState::AwaitingRemoteVersion, DriverEvent::EnvelopeReceived(k)) => if k
                == MessageKind::Version {
                (DriverState::AckSent, DriverAction::SendAck)
            } else {
                (
                    DriverState::Concluded(
                        HandshakeOutcome::Failed(FailureReason::ProtocolViolation),
                    ),
                    DriverAction::CloseConnection,
                )
            },
            (DriverState::AwaitingRemoteVersion, DriverEvent::DecodeFailed) => (
                DriverState::Concluded(HandshakeOutcome::Failed(FailureReason::DecodeError)),
                DriverAction::CloseConnection,
            ),
            (DriverState::AwaitingRemoteVersion, DriverEvent::ReadFailed) => (
                DriverState::Concluded(HandshakeOutcome::Failed(FailureReason::IoError)),
                DriverAction::CloseConnection,
            ),
            (DriverState::AckSent, DriverEvent::WriteCompleted) => (
                DriverState::AwaitingRemoteAck,
                DriverAction::AwaitEnvelope,
            ),
            (DriverState::AckSent, DriverEvent::WriteFailed) => (
                DriverState::Concluded(HandshakeOutcome::Failed(FailureReason::IoError)),
                DriverAction::CloseConnection,
            ),
            (DriverState::AwaitingRemoteAck, DriverEvent::EnvelopeReceived(k)) => if k
                == MessageKind::Verack {
                (DriverState::Concluded(HandshakeOutcome::Completed), DriverAction::CloseConnection)
            } else {
                (
                    DriverState::Concluded(
                        HandshakeOutcome::Failed(FailureReason::ProtocolViolation),
                    ),
                    DriverAction::CloseConnection,
                )
            },
            (DriverState::AwaitingRemoteAck, DriverEvent::DecodeFailed) => (
                DriverState::Concluded(HandshakeOutcome::Failed(FailureReason::DecodeError)),
                DriverAction::CloseConnection,
            ),
            (DriverState::AwaitingRemoteAck, DriverEvent::ReadFailed) => (
                DriverState::Concluded(HandshakeOutcome::Failed(FailureReason::IoError)),
                DriverAction::CloseConnection,
            ),
            _ => (s, DriverAction::NoAction),
        }
    }
}

/// Performs one transition of the handshake state machine.
pub fn step(s: DriverState, e: DriverEvent) -> (r: (DriverState, DriverAction))
    ensures
        r == spec_step(s, e),
{
    if let DriverState::Concluded(_) = s {
        return (s, DriverAction::NoAction);
    }
    if let DriverEvent::TimeoutFired = e {
        return (
            DriverState::Concluded(HandshakeOutcome::TimedOut),
            DriverAction::CloseConnection,
        );
    }
    match (s, e) {
        (DriverState::Idle, DriverEvent::Start) => (
            DriverState::Connecting,
            DriverAction::OpenConnection,
        ),
        (DriverState::Connecting, DriverEvent::Connected) => (
            DriverState::VersionSent,
            DriverAction::SendVersion,
        ),
        (DriverState::Connecting, DriverEvent::ConnectFailed) => (
            DriverState::Concluded(HandshakeOutcome::Failed(FailureReason::ConnectError)),
            DriverAction::CloseConnection,
        ),
        (DriverState::VersionSent, DriverEvent::WriteCompleted) => (
            DriverState::AwaitingRemoteVersion,
            DriverAction::AwaitEnvelope,
        ),
        (DriverState::VersionSent, DriverEvent::WriteFailed) => (
            DriverState::Concluded(HandshakeOutcome::Failed(FailureReason::IoError)),
            DriverAction::CloseConnection,
        ),
        (DriverState::AwaitingRemoteVersion, DriverEvent::EnvelopeReceived(k)) => if let MessageKind::Version = k {
            (DriverState::AckSent, DriverAction::SendAck)
        } else {
            (
                DriverState::Concluded(HandshakeOutcome::Failed(FailureReason::ProtocolViolation)),
                DriverAction::CloseConnection,
            )
        },
        (DriverState::AwaitingRemoteVersion, DriverEvent::DecodeFailed) => (
            DriverState::Concluded(HandshakeOutcome::Failed(FailureReason::DecodeError)),
            DriverAction::CloseConnection,
        ),
        (DriverState::AwaitingRemoteVersion, DriverEvent::ReadFailed) => (
            DriverState::Concluded(HandshakeOutcome::Failed(FailureReason::IoError)),
            DriverAction::CloseConnection,
        ),
        (DriverState::AckSent, DriverEvent::WriteCompleted) => (
            DriverState::AwaitingRemoteAck,
            DriverAction::AwaitEnvelope,
        ),
        (DriverState::AckSent, DriverEvent::WriteFailed) => (
            DriverState::Concluded(HandshakeOutcome::Failed(FailureReason::IoError)),
            DriverAction::CloseConnection,
        ),
        (DriverState::AwaitingRemoteAck, DriverEvent::EnvelopeReceived(k)) => if let MessageKind::Verack = k {
            (DriverState::Concluded(HandshakeOutcome::Completed), DriverAction::CloseConnection)
        } else {
            (
                DriverState::Concluded(HandshakeOutcome::Failed(FailureReason::ProtocolViolation)),
                DriverAction::CloseConnection,
            )
        },
        (DriverState::AwaitingRemoteAck, DriverEvent::DecodeFailed) => (
            DriverState::Concluded(HandshakeOutcome::Failed(FailureReason::DecodeError)),
            DriverAction::CloseConnection,
        ),
        (DriverState::AwaitingRemoteAck, DriverEvent::ReadFailed) => (
            DriverState::Concluded(HandshakeOutcome::Failed(FailureReason::IoError)),
            DriverAction::CloseConnection,
        ),
        _ => (s, DriverAction::NoAction),
    }
}

/// The state reached by running the machine from `s` through `events` in
/// order.
pub open spec fn spec_run_from(s: DriverState, events: Seq<DriverEvent>) -> DriverState
    decreases events.len(),
{
    if events.len() == 0 {
        s
    } else {
        spec_run_from(spec_step(s, events[0]).0, events.skip(1))
    }
}

/// The state reached from `Idle` through `events` in order.
pub open spec fn spec_run(events: Seq<DriverEvent>) -> DriverState {
    spec_run_from(DriverState::Idle, events)
}

/// Runs the machine from `Idle` through the given events in order.
pub fn run_events(events: &Vec<DriverEvent>) -> (r: DriverState)
    ensures
        r == spec_run(events@),
{
    let mut state = DriverState::Idle;
    let n = events.len();
    let mut i: usize = 0;
    assert(events@.skip(0) =~= events@);
    while i < n
        invariant
            n == events@.len(),
            i <= n,
            spec_run_from(state, events@.skip(i as int)) == spec_run(events@),
        decreases n - i,
    {
        let (next, _action) = step(state, events[i]);
        assert(events@.skip(i as int).skip(1) =~= events@.skip(i + 1));
        assert(events@.skip(i as int)[0] == events@[i as int]);
        state = next;
        i = i + 1;
    }
    assert(events@.skip(n as int) =~= Seq::<DriverEvent>::empty());
    state
}

/// The outcome, when the state is a concluded one.
pub fn outcome_of(s: &DriverState) -> (r: Option<HandshakeOutcome>)
    ensures
        match r {
            Some(o) => s == DriverState::Concluded(o),
            None => !(s is Concluded),
        },
{
    match s {
        DriverState::Concluded(o) => Some(*o),
        _ => None,
    }
}

// ---------------------------------------------------------------------------
// Laws of the machine
// ---------------------------------------------------------------------------

/// Only the remote acknowledgment, received while it is awaited, concludes
/// an attempt as Completed.
pub proof fn lemma_completion_requires_ack(s: DriverState, e: DriverEvent)
    ensures
        spec_step(s, e).0 == DriverState::Concluded(HandshakeOutcome::Completed) ==> (s
            == DriverState::AwaitingRemoteAck && e == DriverEvent::EnvelopeReceived(
            MessageKind::Verack,
        )) || s == DriverState::Concluded(HandshakeOutcome::Completed),
{
}

/// A run in which the remote acknowledgment never arrives never concludes
/// Completed — whatever else the peer sends or fails to send.
pub proof fn lemma_no_ack_no_completion(s: DriverState, events: Seq<DriverEvent>)
    requires
        s != DriverState::Concluded(HandshakeOutcome::Completed),
        forall|i: int|
            0 <= i < events.len() ==> events[i] != DriverEvent::EnvelopeReceived(
                MessageKind::Verack,
            ),
    ensures
        spec_run_from(s, events) != DriverState::Concluded(HandshakeOutcome::Completed),
    decreases events.len(),
{
    if events.len() > 0 {
        lemma_completion_requires_ack(s, events[0]);
        assert(forall|i: int|
            0 <= i < events.skip(1).len() ==> events.skip(1)[i] == events[i + 1]);
        lemma_no_ack_no_completion(spec_step(s, events[0]).0, events.skip(1));
    }
}

/// The timeout budget elapsing in any unconcluded state concludes the
/// attempt as TimedOut and closes the connection: a timeout is not merely
/// "stop waiting", it stops the work and frees the socket.
pub proof fn lemma_timeout_concludes(s: DriverState)
    requires
        !(s is Concluded),
    ensures
        spec_step(s, DriverEvent::TimeoutFired) == (
            DriverState::Concluded(HandshakeOutcome::TimedOut),
            DriverAction::CloseConnection,
        ),
{
}

/// Every transition that concludes an attempt closes the connection: no
/// connection outlives the outcome decision.
pub proof fn lemma_conclusion_closes(s: DriverState, e: DriverEvent)
    ensures
        spec_step(s, e).0 is Concluded && !(s is Concluded) ==> spec_step(s, e).1
            == DriverAction::CloseConnection,
{
}


/// A concluded attempt is terminal: no further event changes its outcome —
/// errors are never retried within one attempt.
pub proof fn lemma_conclusion_is_terminal(s: DriverState, e: DriverEvent)
    ensures
        s is Concluded ==> spec_step(s, e) == (s, DriverAction::NoAction),
{
}

/// An envelope of the wrong kind, where the remote Version or the remote
/// acknowledgment is expected, concludes the attempt as a protocol
/// violation.
pub proof fn lemma_wrong_message_is_violation(k: MessageKind)
    ensures
        k != MessageKind::Version ==> spec_step(
            DriverState::AwaitingRemoteVersion,
            DriverEvent::EnvelopeReceived(k),
        ) == (
            DriverState::Concluded(HandshakeOutcome::Failed(FailureReason::ProtocolViolation)),
            DriverAction::CloseConnection,
        ),
        k != MessageKind::Verack ==> spec_step(
            DriverState::AwaitingRemoteAck,
            DriverEvent::EnvelopeReceived(k),
        ) == (
            DriverState::Concluded(HandshakeOutcome::Failed(FailureReason::ProtocolViolation)),
            DriverAction::CloseConnection,
        ),
{
}

// ---------------------------------------------------------------------------
// The manager and its ledger
// ---------------------------------------------------------------------------

/// The ledger contents as a mapping: later entries overwrite earlier ones.
pub open spec fn statuses_map(s: Seq<(PeerAddr, bool)>) -> Map<PeerAddr, bool>
    decreases s.len(),
{
    if s.len() == 0 {
        Map::empty()
    } else {
        statuses_map(s.drop_last()).insert(s.last().0, s.last().1)
    }
}

/// Provides handshake bookkeeping: the timeout budget for one attempt, and
/// the ledger recording, for each attempted peer, whether its last attempt
/// succeeded. Its view is the ledger as a mapping from peer to status.
pub struct HandshakeManager {
    timeout_ms: u64,
    statuses: Vec<(PeerAddr, bool)>,
}

impl View for HandshakeManager {
    type V = Map<PeerAddr, bool>;

    closed spec fn view(&self) -> Map<PeerAddr, bool> {
        statuses_map(self.statuses@)
    }
}

impl Default for HandshakeManager {
    /// A manager with the default two-second timeout budget and an empty
    /// ledger.
    fn default() -> (r: Self)
        ensures
            r.wf(),
            r@ == Map::<PeerAddr, bool>::empty(),
            r.spec_timeout_ms() == 2000,
    {
        HandshakeManager { timeout_ms: 2000, statuses: Vec::new() }
    }
}

proof fn lemma_statuses_map_absent(s: Seq<(PeerAddr, bool)>, k: PeerAddr)
    requires
        forall|i: int| 0 <= i < s.len() ==> (#[trigger] s[i]).0 != k,
    ensures
        !statuses_map(s).dom().contains(k),
    decreases s.len(),
{
    if s.len() > 0 {
        assert(forall|i: int|
            0 <= i < s.drop_last().len() ==> (#[trigger] s.drop_last()[i]).0 != k);
        lemma_statuses_map_absent(s.drop_last(), k);
        assert(s[s.len() - 1] == s.last());
    }
}

proof fn lemma_statuses_map_found(s: Seq<(PeerAddr, bool)>, k: PeerAddr, i: int)
    requires
        0 <= i < s.len(),
        s[i].0 == k,
        forall|j: int| i < j < s.len() ==> (#[trigger] s[j]).0 != k,
    ensures
        statuses_map(s).dom().contains(k),
        statuses_map(s)[k] == s[i].1,
    decreases s.len(),
{
    if i == s.len() - 1 {
        assert(s.last() == s[i]);
    } else {
        assert(s.last() == s[s.len() - 1]);
        assert(forall|j: int|
            i < j < s.drop_last().len() ==> (#[trigger] s.drop_last()[j]).0 != k);
        lemma_statuses_map_found(s.drop_last(), k, i);
        assert(s.drop_last()[i] == s[i]);
    }
}

proof fn lemma_statuses_map_update(s: Seq<(PeerAddr, bool)>, k: PeerAddr, v: bool, i: int)
    requires
        0 <= i < s.len(),
        s[i].0 == k,
        forall|j: int| 0 <= j < s.len() && j != i ==> (#[trigger] s[j]).0 != k,
    ensures
        statuses_map(s.update(i, (k, v))) == statuses_map(s).insert(k, v),
    decreases s.len(),
{
    let t = s.update(i, (k, v));
    if i == s.len() - 1 {
        assert(t.drop_last() =~= s.drop_last());
        assert(t.last() == (k, v));
        assert(statuses_map(s.drop_last()).insert(k, v) =~= statuses_map(
            s.drop_last(),
        ).insert(s.last().0, s.last().1).insert(k, v));
    } else {
        assert(t.drop_last() =~= s.drop_last().update(i, (k, v)));
        assert(s.last() == s[s.len() - 1]);
        assert(forall|j: int|
            0 <= j < s.drop_last().len() && j != i ==> (#[trigger] s.drop_last()[j]).0 != k);
        assert(s.drop_last()[i] == s[i]);
        lemma_statuses_map_update(s.drop_last(), k, v, i);
        assert(t.last() == s.last());
        assert(statuses_map(s.drop_last()).insert(k, v).insert(s.last().0, s.last().1)
            =~= statuses_map(s.drop_last()).insert(s.last().0, s.last().1).insert(k, v));
    }
}

impl HandshakeManager {
    /// The timeout budget, in milliseconds, for one handshake attempt.
    pub closed spec fn spec_timeout_ms(self) -> u64 {
        self.timeout_ms
    }

    /// Well-formedness: the ledger holds at most one entry per peer.
    /// Constructors establish it and every method preserves it.
    pub closed spec fn wf(self) -> bool {
        forall|i: int, j: int|
            0 <= i < j < self.statuses@.len() ==> (#[trigger] self.statuses@[i]).0 != (
            #[trigger] self.statuses@[j]).0
    }

    /// The timeout budget, in milliseconds, for one handshake attempt.
    pub fn timeout_ms(&self) -> (r: u64)
        ensures
            r == self.spec_timeout_ms(),
    {
        self.timeout_ms
    }

    fn find_index(&self, remote: PeerAddr) -> (r: Option<usize>)
        ensures
            match r {
                Some(i) => i < self.statuses@.len() && self.statuses@[i as int].0 == remote,
                None => forall|j: int|
                    0 <= j < self.statuses@.len() ==> (#[trigger] self.statuses@[j]).0 != remote,
            },
    {
        let n = self.statuses.len();
        let mut i: usize = 0;
        while i < n
            invariant
                n == self.statuses@.len(),
                i <= n,
                forall|j: int| 0 <= j < i ==> (#[trigger] self.statuses@[j]).0 != remote,
            decreases n - i,
        {
            if self.statuses[i].0 == remote {
                return Some(i);
            }
            i = i + 1;
        }
        None
    }

    /// Records the outcome of a concluded attempt against `remote`: an
    /// unconditional upsert — a later attempt against the same address
    /// overwrites the previous entry, and no history is kept.
    pub fn record_handshake(&mut self, remote: PeerAddr, status: bool)
        requires
            old(self).wf(),
        ensures
            final(self).wf(),
            final(self)@ == old(self)@.insert(remote, status),
            final(self).spec_timeout_ms() == old(self).spec_timeout_ms(),
    {
        match self.find_index(remote) {
            Some(i) => {
                self.statuses.set(i, (remote, status));
                proof {
                    lemma_statuses_map_update(old(self).statuses@, remote, status, i as int);
                    assert(self.wf());
                }
            },
            None => {
                self.statuses.push((remote, status));
                proof {
                    assert(self.statuses@.drop_last() =~= old(self).statuses@);
                    assert(self.statuses@.last() == (remote, status));
                    assert(self.wf());
                }
            },
        }
    }

    /// The recorded status for `remote`: `Some` only after an attempt
    /// against it has concluded and been recorded.
    pub fn get_status(&self, remote: PeerAddr) -> (r: Option<bool>)
        requires
            self.wf(),
        ensures
            r == if self@.dom().contains(remote) {
                Some(self@[remote])
            } else {
                None::<bool>
            },
    {
        match self.find_index(remote) {
            Some(i) => {
                proof {
                    lemma_statuses_map_found(self.statuses@, remote, i as int);
                }
                Some(self.statuses[i].1)
            },
            None => {
                proof {
                    lemma_statuses_map_absent(self.statuses@, remote);
                }
                None
            },
        }
    }

    /// Every recorded entry, as (peer, status) pairs; iteration order is
    /// unspecified — the ledger is a mapping, not a log.
    pub fn all_statuses(&self) -> (r: &Vec<(PeerAddr, bool)>)
        ensures
            statuses_map(r@) == self@,
    {
        &self.statuses
    }
}

/// The ledger reports, for each peer, exactly the outcome recorded last:
/// recording makes the entry present, and a second record for the same
/// peer overwrites the first.
pub proof fn lemma_ledger_reports_last_outcome(
    m: Map<PeerAddr, bool>,
    peer: PeerAddr,
    first: bool,
    second: bool,
)
    ensures
        m.insert(peer, first).dom().contains(peer),
        m.insert(peer, first)[peer] == first,
        m.insert(peer, first).insert(peer, second)[peer] == second,
{
}



} // verus!
