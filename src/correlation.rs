//! Pending-request table, retry queue, and the policy that matches each game
//! result with the command that caused it.
use vstd::prelude::*;
use std::collections::HashMap;
use std::collections::VecDeque;
use crate::statuses::{
    EffectResult, FromServer, FromServerView, Request, RequestType, RequestView, Response,
    ResponseType, Target, TargetView, ToServer, ToServerView,
};

verus! {

broadcast use vstd::std_specs::hash::group_hash_axioms;

/// Number of distinct command identifiers on one game connection.
pub const ID_SPACE: u64 = 0x1_0000_0000;

/// View of the command built for `info` under identifier `id`: kind Start,
/// an empty parameter list, and one target holding the player, with empty
/// name and avatar.
pub open spec fn command_view(id: u32, info: FromServerView) -> RequestView {
    RequestView {
        id,
        code: Some(info.code),
        message: None,
        parameters: Some(Seq::empty()),
        targets: Some(
            seq![TargetView { id: info.player_id, name: Seq::empty(), avatar: Seq::empty() }],
        ),
        viewer: None,
        cost: None,
        t: RequestType::Start,
    }
}

/// A command that can be answered: it has a code and at least one target.
pub open spec fn answerable(req: RequestView) -> bool {
    &&& req.code is Some
    &&& req.targets is Some
    &&& req.targets.unwrap().len() > 0
}

/// First target of a command (meaningful for answerable commands).
pub open spec fn first_target(req: RequestView) -> TargetView {
    req.targets.unwrap()[0]
}

/// The report that answers `req`, carrying the remaining time `time`.
pub open spec fn report_view(req: RequestView, time: i64) -> ToServerView {
    ToServerView {
        player_id: first_target(req).id,
        code: req.code.unwrap(),
        time,
        sender: Seq::empty(),
    }
}

/// The message that has `req` issued again.
pub open spec fn replay_view(req: RequestView) -> FromServerView {
    FromServerView { player_id: first_target(req).id, code: req.code.unwrap() }
}

/// Commands sent to the game and not yet answered, by identifier.
pub struct PendingTable {
    requests: HashMap<u32, Request>,
}

impl View for PendingTable {
    type V = Map<u32, RequestView>;

    closed spec fn view(&self) -> Map<u32, RequestView> {
        self.requests@.map_values(|r: Request| r@)
    }
}

impl PendingTable {
    pub fn new() -> (r: PendingTable)
        ensures
            r@ == Map::<u32, RequestView>::empty(),
    {
        let r = PendingTable { requests: HashMap::new() };
        assert(r@ =~= Map::<u32, RequestView>::empty());
        r
    }

    pub fn contains(&self, id: u32) -> (r: bool)
        ensures
            r == self@.contains_key(id),
    {
        self.requests.contains_key(&id)
    }

    /// Records `req` under `id`; returns the command that `id` held before, if any.
    pub fn insert(&mut self, id: u32, req: Request) -> (r: Option<Request>)
        ensures
            final(self)@ == old(self)@.insert(id, req@),
            match r {
                Some(prev) => old(self)@.contains_key(id) && prev@ == old(self)@[id],
                None => !old(self)@.contains_key(id),
            },
    {
        let r = self.requests.insert(id, req);
        assert(self@ =~= old(self)@.insert(id, req@));
        r
    }

    /// Removes and returns the command under `id`, if any.
    pub fn take(&mut self, id: u32) -> (r: Option<Request>)
        ensures
            final(self)@ == old(self)@.remove(id),
            match r {
                Some(req) => old(self)@.contains_key(id) && req@ == old(self)@[id],
                None => !old(self)@.contains_key(id) && final(self)@ == old(self)@,
            },
    {
        let r = self.requests.remove(&id);
        assert(self@ =~= old(self)@.remove(id));
        if r.is_none() {
            assert(self@ =~= old(self)@);
        }
        r
    }

    pub fn len(&self) -> (r: usize)
        ensures
            r == self@.len(),
    {
        assert(self@.dom() =~= self.requests@.dom());
        self.requests.len()
    }
}

/// Results flagged Retry, newest at the front, oldest at the back.
pub struct RetryQueue {
    repeats: VecDeque<Response>,
}

impl View for RetryQueue {
    type V = Seq<Response>;

    closed spec fn view(&self) -> Seq<Response> {
        self.repeats@
    }
}

impl RetryQueue {
    pub fn new() -> (r: RetryQueue)
        ensures
            r@ == Seq::<Response>::empty(),
    {
        RetryQueue { repeats: VecDeque::new() }
    }

    /// Puts a result at the front.
    pub fn push_front(&mut self, resp: Response)
        ensures
            final(self)@ == seq![resp] + old(self)@,
    {
        self.repeats.push_front(resp);
    }

    /// Removes and returns the oldest result, which stands at the back.
    pub fn pop_back(&mut self) -> (r: Option<Response>)
        ensures
            old(self)@.len() == 0 ==> r is None && final(self)@ == old(self)@,
            old(self)@.len() > 0 ==> r == Some(old(self)@.last()) && final(self)@
                == old(self)@.drop_last(),
    {
        self.repeats.pop_back()
    }

    pub fn len(&self) -> (r: usize)
        ensures
            r == self@.len(),
    {
        self.repeats.len()
    }
}

/// What the game reader does with one result.
pub enum Dispatch {
    /// The result asked for a retry and was queued for a later replay.
    Deferred,
    /// The result answered a pending command: this report goes to the remote side.
    Report(ToServer),
    /// The oldest queued retry is issued to the game again with this message.
    Replay(FromServer),
    /// An effect result named no pending command and is dropped.
    Unmatched,
    /// A result that replays retries found the retry queue empty.
    NothingToReplay,
    /// The retry taken from the queue named no pending command.
    StaleRetry,
}

pub enum DispatchView {
    Deferred,
    Report(ToServerView),
    Replay(FromServerView),
    Unmatched,
    NothingToReplay,
    StaleRetry,
}

impl View for Dispatch {
    type V = DispatchView;

    open spec fn view(&self) -> DispatchView {
        match self {
            Dispatch::Deferred => DispatchView::Deferred,
            Dispatch::Report(m) => DispatchView::Report(m@),
            Dispatch::Replay(m) => DispatchView::Replay(m@),
            Dispatch::Unmatched => DispatchView::Unmatched,
            Dispatch::NothingToReplay => DispatchView::NothingToReplay,
            Dispatch::StaleRetry => DispatchView::StaleRetry,
        }
    }
}

/// Model of the correlation state of one game connection.
pub struct GameLinkView {
    /// Commands sent and not yet answered, by identifier.
    pub pending: Map<u32, RequestView>,
    /// Results flagged Retry, newest first.
    pub retries: Seq<Response>,
    /// Identifier that the next command gets.
    pub next_id: nat,
}

/// The state is consistent: every pending command is answerable, is filed under
/// its own identifier, and that identifier was handed out already.
pub open spec fn link_invariant(s: GameLinkView) -> bool {
    &&& s.next_id <= ID_SPACE
    &&& forall|k: u32| #[trigger]
        s.pending.contains_key(k) ==> {
            &&& (k as nat) < s.next_id
            &&& s.pending[k].id == k
            &&& answerable(s.pending[k])
        }
}

/// State of a fresh game connection.
pub open spec fn initial_link() -> GameLinkView {
    GameLinkView { pending: Map::empty(), retries: Seq::empty(), next_id: 0 }
}

/// Issuing a command for `info`: it gets the next identifier and is filed in
/// the table; once every identifier has been handed out, nothing happens.
pub open spec fn issue_step(s: GameLinkView, info: FromServerView) -> (GameLinkView, Option<
    RequestView,
>) {
    if s.next_id < ID_SPACE {
        let req = command_view(s.next_id as u32, info);
        (
            GameLinkView {
                pending: s.pending.insert(s.next_id as u32, req),
                next_id: s.next_id + 1,
                ..s
            },
            Some(req),
        )
    } else {
        (s, None)
    }
}

/// Handling one result from the game. A Retry goes to the front of the retry
/// queue. Any other effect result answers the pending command with its
/// identifier, which leaves the table. Any other result takes the oldest retry
/// from the back of the queue and, if its command is still pending, takes
/// that command from the table and has it issued again.
pub open spec fn dispatch_step(s: GameLinkView, resp: Response) -> (GameLinkView, DispatchView) {
    if resp.status == EffectResult::Retry {
        (GameLinkView { retries: seq![resp] + s.retries, ..s }, DispatchView::Deferred)
    } else if resp.t == ResponseType::EffectRequest {
        if s.pending.contains_key(resp.id) {
            (
                GameLinkView { pending: s.pending.remove(resp.id), ..s },
                DispatchView::Report(report_view(s.pending[resp.id], resp.time_remaining)),
            )
        } else {
            (s, DispatchView::Unmatched)
        }
    } else if s.retries.len() == 0 {
        (s, DispatchView::NothingToReplay)
    } else {
        let oldest = s.retries.last();
        let rest = s.retries.drop_last();
        if s.pending.contains_key(oldest.id) {
            (
                GameLinkView { pending: s.pending.remove(oldest.id), retries: rest, ..s },
                DispatchView::Replay(replay_view(s.pending[oldest.id])),
            )
        } else {
            (GameLinkView { retries: rest, ..s }, DispatchView::StaleRetry)
        }
    }
}

/// Correlation state of one game connection: the pending-request table, the
/// retry queue, and the identifier counter. It lives as long as the
/// connection. Nothing is evicted: a command whose result never comes stays
/// pending until the connection ends and the whole state is dropped; at most
/// one command per identifier can be outstanding, which bounds the table.
pub struct GameLink {
    pending: PendingTable,
    retries: RetryQueue,
    next_id: u64,
}

impl View for GameLink {
    type V = GameLinkView;

    closed spec fn view(&self) -> GameLinkView {
        GameLinkView { pending: self.pending@, retries: self.retries@, next_id: self.next_id as nat }
    }
}

impl GameLink {
    /// Fresh state for a new game connection.
    pub fn new() -> (r: GameLink)
        ensures
            r@ == initial_link(),
            link_invariant(r@),
    {
        GameLink { pending: PendingTable::new(), retries: RetryQueue::new(), next_id: 0 }
    }

    /// Builds the command for `info` under the next identifier and records it
    /// as pending; returns it for transmission, or `None` once every identifier
    /// of the connection has been used.
    pub fn issue_command(&mut self, info: FromServer) -> (r: Option<Request>)
        requires
            link_invariant(old(self)@),
        ensures
            (final(self)@, match r {
                Some(req) => Some(req@),
                None => None::<RequestView>,
            }) == issue_step(old(self)@, info@),
            link_invariant(final(self)@),
    {
        if self.next_id >= ID_SPACE {
            return None;
        }
        let id = self.next_id as u32;
        let stored = build_command(id, &info);
        let sent = build_command(id, &info);
        let prev = self.pending.insert(id, stored);
        self.next_id = self.next_id + 1;
        proof {
            assert(prev is None);
        }
        Some(sent)
    }

    /// Applies the dispatch policy to one result from the game.
    pub fn dispatch_result(&mut self, resp: Response) -> (r: Dispatch)
        requires
            link_invariant(old(self)@),
        ensures
            (final(self)@, r@) == dispatch_step(old(self)@, resp),
            link_invariant(final(self)@),
    {
        if resp.status == EffectResult::Retry {
            self.retries.push_front(resp);
            return Dispatch::Deferred;
        }
        if resp.t == ResponseType::EffectRequest {
            match self.pending.take(resp.id) {
                Some(req) => Dispatch::Report(report_of(req, resp.time_remaining)),
                None => Dispatch::Unmatched,
            }
        } else {
            match self.retries.pop_back() {
                None => Dispatch::NothingToReplay,
                Some(oldest) => match self.pending.take(oldest.id) {
                    Some(req) => Dispatch::Replay(replay_of(req)),
                    None => Dispatch::StaleRetry,
                },
            }
        }
    }

    /// Number of commands awaiting a result.
    pub fn pending_len(&self) -> (r: usize)
        ensures
            r == self@.pending.len(),
    {
        self.pending.len()
    }

    /// Number of results waiting for a replay.
    pub fn retry_len(&self) -> (r: usize)
        ensures
            r == self@.retries.len(),
    {
        self.retries.len()
    }

    /// Whether a command with identifier `id` awaits a result.
    pub fn is_pending(&self, id: u32) -> (r: bool)
        ensures
            r == self@.pending.contains_key(id),
    {
        self.pending.contains(id)
    }
}

/// Builds the command for `info` under identifier `id`.
fn build_command(id: u32, info: &FromServer) -> (r: Request)
    ensures
        r@ == command_view(id, info@),
{
    let target = Target { id: info.player_id.clone(), name: String::new(), avatar: String::new() };
    let r = Request {
        id,
        code: Some(info.code.clone()),
        message: None,
        parameters: Some(Vec::new()),
        targets: Some(vec![target]),
        viewer: None,
        cost: None,
        t: RequestType::Start,
    };
    proof {
        assert(r@.parameters.unwrap() =~= Seq::<Seq<char>>::empty());
        assert(r@.targets.unwrap() =~= command_view(id, info@).targets.unwrap());
    }
    r
}

/// The report that answers `req`, with remaining time `time`.
fn report_of(req: Request, time: i64) -> (r: ToServer)
    requires
        answerable(req@),
    ensures
        r@ == report_view(req@, time),
{
    let Request { code, targets, .. } = req;
    let mut ts = targets.unwrap();
    let first = ts.remove(0);
    ToServer { player_id: first.id, code: code.unwrap(), time, sender: String::new() }
}

/// The message that has `req` issued again.
fn replay_of(req: Request) -> (r: FromServer)
    requires
        answerable(req@),
    ensures
        r@ == replay_view(req@),
{
    let Request { code, targets, .. } = req;
    let mut ts = targets.unwrap();
    let first = ts.remove(0);
    FromServer { player_id: first.id, code: code.unwrap() }
}

/// A fresh connection's state is consistent, and both steps keep it so.
pub proof fn lemma_steps_keep_invariant(s: GameLinkView, info: FromServerView, resp: Response)
    requires
        link_invariant(s),
    ensures
        link_invariant(initial_link()),
        link_invariant(issue_step(s, info).0),
        link_invariant(dispatch_step(s, resp).0),
{
}

/// Fresh identifiers: a command gets an identifier that no pending command
/// holds, greater than every identifier already handed out, and the
/// identifiers still to come are greater than it.
pub proof fn lemma_issued_id_is_fresh(s: GameLinkView, info: FromServerView)
    requires
        link_invariant(s),
    ensures
        issue_step(s, info).1 matches Some(req) ==> {
            &&& !s.pending.contains_key(req.id)
            &&& req.id as nat == s.next_id
            &&& forall|k: u32| #[trigger] s.pending.contains_key(k) ==> k < req.id
            &&& issue_step(s, info).0.next_id > req.id as nat
        },
        issue_step(s, info).1 is None ==> issue_step(s, info).0 == s,
{
}

/// Correlation: an effect result that is not a Retry and carries the
/// identifier of a pending command removes that command from the table and
/// yields exactly one report, made of the command's first target and code and
/// the result's remaining time. The retry queue is left alone.
pub proof fn lemma_result_answers_command(s: GameLinkView, resp: Response)
    requires
        link_invariant(s),
        s.pending.contains_key(resp.id),
        resp.t == ResponseType::EffectRequest,
        resp.status != EffectResult::Retry,
    ensures
        dispatch_step(s, resp).0 == (GameLinkView { pending: s.pending.remove(resp.id), ..s }),
        !dispatch_step(s, resp).0.pending.contains_key(resp.id),
        dispatch_step(s, resp).1 == DispatchView::Report(
            ToServerView {
                player_id: first_target(s.pending[resp.id]).id,
                code: s.pending[resp.id].code.unwrap(),
                time: resp.time_remaining,
                sender: Seq::empty(),
            },
        ),
{
}

/// A command issued for `info` and then answered by an effect result with its
/// identifier is reported back with the player and code of `info`, and the
/// table ends as it began.
pub proof fn lemma_issue_then_answer(s: GameLinkView, info: FromServerView, resp: Response)
    requires
        link_invariant(s),
        s.next_id < ID_SPACE,
        resp.id as nat == s.next_id,
        resp.t == ResponseType::EffectRequest,
        resp.status != EffectResult::Retry,
    ensures
        dispatch_step(issue_step(s, info).0, resp).0.pending == s.pending,
        dispatch_step(issue_step(s, info).0, resp).1 == DispatchView::Report(
            ToServerView {
                player_id: info.player_id,
                code: info.code,
                time: resp.time_remaining,
                sender: Seq::empty(),
            },
        ),
{
    let s1 = issue_step(s, info).0;
    assert(s1.pending.remove(resp.id) =~= s.pending);
}

/// A Retry result is never correlated: whatever its kind and identifier, the
/// table is left alone and the result goes to the front of the retry queue.
pub proof fn lemma_retry_is_deferred(s: GameLinkView, resp: Response)
    requires
        resp.status == EffectResult::Retry,
    ensures
        dispatch_step(s, resp).0.pending == s.pending,
        dispatch_step(s, resp).0.retries == seq![resp] + s.retries,
        dispatch_step(s, resp).0.next_id == s.next_id,
        dispatch_step(s, resp).1 == DispatchView::Deferred,
{
}

/// A result that is neither a Retry nor an effect result takes exactly one
/// result from the back of the retry queue, if there is one, and replays its
/// command when that command is still pending; with an empty queue nothing
/// changes and nothing is replayed.
pub proof fn lemma_replay_takes_oldest(s: GameLinkView, resp: Response)
    requires
        resp.status != EffectResult::Retry,
        resp.t != ResponseType::EffectRequest,
    ensures
        s.retries.len() == 0 ==> dispatch_step(s, resp) == (s, DispatchView::NothingToReplay),
        s.retries.len() > 0 ==> {
            let oldest = s.retries.last();
            let (next, d) = dispatch_step(s, resp);
            &&& next.retries == s.retries.drop_last()
            &&& next.next_id == s.next_id
            &&& s.pending.contains_key(oldest.id) ==> {
                &&& next.pending == s.pending.remove(oldest.id)
                &&& d == DispatchView::Replay(replay_view(s.pending[oldest.id]))
            }
            &&& !s.pending.contains_key(oldest.id) ==> {
                &&& next.pending == s.pending
                &&& d == DispatchView::StaleRetry
            }
        },
{
}

/// Retries are replayed in the order they arrived: queuing a result does not
/// change which queued result is taken next, and into an empty queue the
/// result queued is the one taken next.
pub proof fn lemma_retry_queue_is_fifo(q: Seq<Response>, resp: Response)
    ensures
        q.len() > 0 ==> (seq![resp] + q).last() == q.last() && (seq![resp] + q).drop_last() == seq![
            resp,
        ] + q.drop_last(),
        q.len() == 0 ==> (seq![resp] + q).last() == resp && (seq![resp] + q).drop_last() == q,
{
    if q.len() > 0 {
        assert((seq![resp] + q).drop_last() =~= seq![resp] + q.drop_last());
    } else {
        assert((seq![resp] + q).drop_last() =~= q);
    }
}

} // verus!
