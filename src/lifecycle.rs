//! Connection lifecycle of one side of the bridge, and how the outcomes of a
//! connection's tasks combine into the result of the connect call.
use vstd::prelude::*;
use vstd::string::StringExecFns;
use tokio_util::sync::CancellationToken;
use crate::error::{error_text, ConnError};

verus! {

/// tokio_util's CancellationToken, held as an opaque value: the cancellation
/// handle shared by every task of one connection attempt.
#[verifier::external_type_specification]
#[verifier::external_body]
pub struct ExCancellationToken(CancellationToken);

/// Relies on tokio_util's CancellationToken::new: a fresh token, not cancelled.
pub assume_specification[ CancellationToken::new ]() -> CancellationToken;

/// Relies on tokio_util's Clone for CancellationToken: the clone shares the
/// cancellation state of the original.
pub assume_specification[ <CancellationToken as Clone>::clone ](
    t: &CancellationToken,
) -> CancellationToken;

/// Relies on tokio_util's CancellationToken::cancel: signals every clone of the token.
pub assume_specification[ CancellationToken::cancel ](t: &CancellationToken);

/// Which transport a lifecycle governs.
#[derive(PartialEq, Eq, Structural, Debug, Clone, Copy)]
pub enum ConnectionSide {
    Game,
    Remote,
}

/// Where a side stands in its lifecycle.
#[derive(PartialEq, Eq, Structural, Debug, Clone, Copy)]
pub enum ConnPhase {
    Idle,
    Connecting,
    Connected,
}

/// Model of a side's state record: its phase, and the number of the latest
/// connection attempt.
pub struct ConnModel {
    pub side: ConnectionSide,
    pub phase: ConnPhase,
    pub attempt: u64,
}

/// Requests and notifications that move a side through its lifecycle.
pub enum ConnEvent {
    /// A connect call.
    Connect,
    /// The transport handshake of the attempt with this number succeeded.
    HandshakeDone(u64),
    /// The tasks of the attempt with this number have all ended.
    Finish(u64),
    /// A disconnect call.
    Disconnect,
}

/// Number of the attempt after `a`, wrapping around.
pub open spec fn next_attempt(a: u64) -> u64 {
    if a == u64::MAX {
        0
    } else {
        (a + 1) as u64
    }
}

/// The state after `e`, and whether `e` was accepted. A connect is accepted
/// only from Idle and starts a new attempt; a finished handshake counts only
/// for the current attempt while it is connecting; the end of the current
/// attempt, and any disconnect, return the side to Idle.
pub open spec fn conn_step(m: ConnModel, e: ConnEvent) -> (ConnModel, bool) {
    match e {
        ConnEvent::Connect => if m.phase == ConnPhase::Idle {
            (ConnModel { phase: ConnPhase::Connecting, attempt: next_attempt(m.attempt), ..m }, true)
        } else {
            (m, false)
        },
        ConnEvent::HandshakeDone(a) => if m.phase == ConnPhase::Connecting && a == m.attempt {
            (ConnModel { phase: ConnPhase::Connected, ..m }, true)
        } else {
            (m, false)
        },
        ConnEvent::Finish(a) => if m.phase != ConnPhase::Idle && a == m.attempt {
            (ConnModel { phase: ConnPhase::Idle, ..m }, true)
        } else {
            (m, false)
        },
        ConnEvent::Disconnect => (ConnModel { phase: ConnPhase::Idle, ..m }, true),
    }
}

/// The state after a sequence of events.
pub open spec fn conn_run(m: ConnModel, es: Seq<ConnEvent>) -> ConnModel
    decreases es.len(),
{
    if es.len() == 0 {
        m
    } else {
        conn_step(conn_run(m, es.drop_last()), es.last()).0
    }
}

/// `es` holds no disconnect and no end of an attempt.
pub open spec fn no_teardown(es: Seq<ConnEvent>) -> bool {
    forall|j: int| 0 <= j < es.len() ==> !(#[trigger] es[j] is Disconnect) && !(es[j] is Finish)
}

/// `es` holds no event of kind `Connect`.
pub open spec fn no_connect(es: Seq<ConnEvent>) -> bool {
    forall|j: int| 0 <= j < es.len() ==> !(#[trigger] es[j] is Connect)
}

/// Without a teardown, a side that started Idle stays Idle exactly as long
/// as no connect has come.
proof fn lemma_idle_until_connect(m: ConnModel, es: Seq<ConnEvent>)
    requires
        m.phase == ConnPhase::Idle,
        no_teardown(es),
    ensures
        (conn_run(m, es).phase == ConnPhase::Idle) <==> no_connect(es),
    decreases es.len(),
{
    if es.len() > 0 {
        let init = es.drop_last();
        assert(no_teardown(init)) by {
            assert forall|j: int| 0 <= j < init.len() implies !(#[trigger] init[j] is Disconnect)
                && !(init[j] is Finish) by {
                assert(init[j] == es[j]);
            }
        }
        lemma_idle_until_connect(m, init);
        assert(!(es[es.len() - 1] is Disconnect) && !(es[es.len() - 1] is Finish));
        if no_connect(es) {
            assert forall|j: int| 0 <= j < init.len() implies !(#[trigger] init[j] is Connect) by {
                assert(init[j] == es[j]);
            }
        }
        if no_connect(init) && !(es.last() is Connect) {
            assert forall|j: int| 0 <= j < es.len() implies !(#[trigger] es[j] is Connect) by {
                if j < init.len() {
                    assert(init[j] == es[j]);
                }
            }
        }
    }
}

/// Exclusive connect: on a side that starts Idle, along any run of events
/// without a disconnect or the end of an attempt, a connect succeeds exactly when it is the first
/// connect of the run; every later one fails.
pub proof fn lemma_only_first_connect_succeeds(m: ConnModel, es: Seq<ConnEvent>, i: int)
    requires
        m.phase == ConnPhase::Idle,
        no_teardown(es),
        0 <= i < es.len(),
        es[i] is Connect,
    ensures
        conn_step(conn_run(m, es.take(i)), ConnEvent::Connect).1 <==> no_connect(es.take(i)),
{
    let pre = es.take(i);
    assert(no_teardown(pre)) by {
        assert forall|j: int| 0 <= j < pre.len() implies !(#[trigger] pre[j] is Disconnect) && !(
        pre[j] is Finish) by {
            assert(pre[j] == es[j]);
        }
    }
    lemma_idle_until_connect(m, pre);
}

/// After a disconnect, from any state, the next connect succeeds.
pub proof fn lemma_disconnect_reopens(m: ConnModel)
    ensures
        conn_step(m, ConnEvent::Disconnect).0.phase == ConnPhase::Idle,
        conn_step(conn_step(m, ConnEvent::Disconnect).0, ConnEvent::Connect).1,
{
}

/// A cancelled attempt never becomes connected: once a disconnect has come,
/// no run of events without a new connect, finished handshakes of any
/// attempt included, leaves Idle.
pub proof fn lemma_cancelled_attempt_never_connects(m: ConnModel, es: Seq<ConnEvent>)
    requires
        no_connect(es),
    ensures
        conn_run(conn_step(m, ConnEvent::Disconnect).0, es).phase == ConnPhase::Idle,
    decreases es.len(),
{
    if es.len() > 0 {
        let init = es.drop_last();
        assert(no_connect(init)) by {
            assert forall|j: int| 0 <= j < init.len() implies !(#[trigger] init[j] is Connect) by {
                assert(init[j] == es[j]);
            }
        }
        lemma_cancelled_attempt_never_connects(m, init);
        assert(!(es[es.len() - 1] is Connect));
    }
}

/// The cleanup of an attempt that is no longer the current one changes
/// nothing: a later attempt, connecting or connected, is left alone.
pub proof fn lemma_stale_finish_is_harmless(m: ConnModel, a: u64)
    requires
        a != m.attempt,
    ensures
        conn_step(m, ConnEvent::Finish(a)) == (m, false),
{
}

/// State record of one side: its phase and the cancellation handle of the
/// current attempt. A handle exists exactly when the side is not Idle.
pub struct ConnState {
    side: ConnectionSide,
    phase: ConnPhase,
    attempt: u64,
    cancel: Option<CancellationToken>,
}

impl View for ConnState {
    type V = ConnModel;

    closed spec fn view(&self) -> ConnModel {
        ConnModel { side: self.side, phase: self.phase, attempt: self.attempt }
    }
}

impl ConnState {
    /// The cancellation handle is present exactly when the side is not Idle.
    pub closed spec fn wf(&self) -> bool {
        self.cancel is Some <==> self.phase != ConnPhase::Idle
    }

    /// Whether the record holds a cancellation handle.
    pub closed spec fn has_handle(&self) -> bool {
        self.cancel is Some
    }

    /// A well-formed record holds a cancellation handle exactly when its side
    /// is not Idle.
    pub proof fn lemma_handle_iff_active(st: &ConnState)
        requires
            st.wf(),
        ensures
            st.has_handle() <==> st@.phase != ConnPhase::Idle,
    {
    }

    /// An Idle record for `side`.
    pub fn new(side: ConnectionSide) -> (r: ConnState)
        ensures
            r@ == (ConnModel { side, phase: ConnPhase::Idle, attempt: 0 }),
            r.wf(),
            !r.has_handle(),
    {
        ConnState { side, phase: ConnPhase::Idle, attempt: 0, cancel: None }
    }

    pub fn side(&self) -> (r: ConnectionSide)
        ensures
            r == self@.side,
    {
        self.side
    }

    pub fn phase(&self) -> (r: ConnPhase)
        ensures
            r == self@.phase,
    {
        self.phase
    }

    /// Starts a connection attempt. From Idle, installs a fresh cancellation
    /// handle, moves to Connecting under a new attempt number and returns a
    /// clone of the handle for the attempt's tasks, with that number;
    /// otherwise fails with `AlreadyActive` and changes nothing.
    pub fn begin_connect(&mut self) -> (r: Result<(CancellationToken, u64), ConnError>)
        requires
            old(self).wf(),
        ensures
            final(self).wf(),
            (final(self)@, r is Ok) == conn_step(old(self)@, ConnEvent::Connect),
            r matches Ok((_, a)) ==> a == final(self)@.attempt,
            r is Err ==> r == Err::<(CancellationToken, u64), ConnError>(ConnError::AlreadyActive),
    {
        if self.phase != ConnPhase::Idle {
            return Err(ConnError::AlreadyActive);
        }
        let token = CancellationToken::new();
        let handed = token.clone();
        self.cancel = Some(token);
        self.phase = ConnPhase::Connecting;
        self.attempt = self.attempt.wrapping_add(1);
        Ok((handed, self.attempt))
    }

    /// Records that the transport handshake of attempt `attempt` succeeded.
    /// Moves that attempt from Connecting to Connected and returns true; in
    /// any other case (the attempt was cancelled meanwhile) changes nothing
    /// and returns false.
    pub fn handshake_done(&mut self, attempt: u64) -> (r: bool)
        requires
            old(self).wf(),
        ensures
            final(self).wf(),
            (final(self)@, r) == conn_step(old(self)@, ConnEvent::HandshakeDone(attempt)),
    {
        if self.phase == ConnPhase::Connecting && self.attempt == attempt {
            self.phase = ConnPhase::Connected;
            true
        } else {
            false
        }
    }

    /// Cleanup once the tasks of attempt `attempt` have ended: if that attempt
    /// is still the current one, signals and clears its handle and returns the
    /// side to Idle; a side that is Idle, or busy with a later attempt, is
    /// left alone.
    pub fn finish(&mut self, attempt: u64)
        requires
            old(self).wf(),
        ensures
            final(self).wf(),
            final(self)@ == conn_step(old(self)@, ConnEvent::Finish(attempt)).0,
    {
        if self.phase != ConnPhase::Idle && self.attempt == attempt {
            self.disconnect();
        }
    }

    /// Signals the current attempt's cancellation handle, if there is one,
    /// clears it and returns the side to Idle. Doing it when Idle changes nothing.
    pub fn disconnect(&mut self)
        requires
            old(self).wf(),
        ensures
            final(self).wf(),
            final(self)@ == conn_step(old(self)@, ConnEvent::Disconnect).0,
            !final(self).has_handle(),
    {
        if let Some(token) = &self.cancel {
            token.cancel();
        }
        self.cancel = None;
        self.phase = ConnPhase::Idle;
    }
}

/// An outcome that reports a failure rather than a clean end.
pub open spec fn is_failure(o: Result<(), ConnError>) -> bool {
    o is Err && o != Err::<(), ConnError>(ConnError::Cancelled)
}

/// Whether a task's outcome is a failure: an error other than a cancellation.
/// A task that fails takes its sibling down with it.
pub fn is_failure_outcome(o: &Result<(), ConnError>) -> (r: bool)
    ensures
        r == is_failure(*o),
{
    match o {
        Err(ConnError::Cancelled) => false,
        Err(_) => true,
        Ok(()) => false,
    }
}

/// `r` is how the writer's and the reader's outcomes combine: two failures
/// are reported together, writer first; one failure is reported as it is;
/// with none, a cancellation of either task makes the whole a cancellation,
/// and otherwise the connection ended cleanly.
pub open spec fn combines_to(
    writer: Result<(), ConnError>,
    reader: Result<(), ConnError>,
    r: Result<(), ConnError>,
) -> bool {
    if is_failure(writer) && is_failure(reader) {
        &&& r matches Err(ConnError::Transport(m))
        &&& m@ == error_text(writer->Err_0) + ", "@ + error_text(reader->Err_0)
    } else if is_failure(writer) {
        r == writer
    } else if is_failure(reader) {
        r == reader
    } else if writer is Err || reader is Err {
        r == Err::<(), ConnError>(ConnError::Cancelled)
    } else {
        r == Ok::<(), ConnError>(())
    }
}

/// The result of a connect call, from the outcomes of its writer and reader tasks.
pub fn combine_outcomes(writer: Result<(), ConnError>, reader: Result<(), ConnError>) -> (r: Result<
    (),
    ConnError,
>)
    ensures
        combines_to(writer, reader, r),
{
    let w_fail = is_failure_outcome(&writer);
    let r_fail = is_failure_outcome(&reader);
    if w_fail && r_fail {
        let w = match &writer {
            Err(e) => e.describe(),
            Ok(()) => String::new(),
        };
        let r = match &reader {
            Err(e) => e.describe(),
            Ok(()) => String::new(),
        };
        let joined = w.concat(", ");
        let joined = joined.concat(r.as_str());
        Err(ConnError::Transport(joined))
    } else if w_fail {
        writer
    } else if r_fail {
        reader
    } else if writer.is_err() || reader.is_err() {
        Err(ConnError::Cancelled)
    } else {
        Ok(())
    }
}

} // verus!
