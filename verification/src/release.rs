//! Ordering and evidence for committing a switch selection.
//!
//! The switch overlay stays open while the modifier that opened it is held.
//! Releasing it commits the selected window. Key events, IPC opens and
//! asynchronous modifier queries can arrive in any order, so every query
//! carries a request id and only the answer to the newest query is trusted.
//! No I/O happens here: the caller performs the queries and feeds the
//! answers back.
use vstd::prelude::*;

verus! {

/// Snapshot of both sides of the switch modifier, as reported by the
/// compositor.
#[derive(Debug, Clone, Copy, PartialEq, Eq, Structural)]
pub struct ModifierState {
    /// At least one side of the modifier is physically held.
    pub pressed: bool,
    /// An open that was issued by a key binding has not been received yet.
    pub pending_opens: bool,
}

/// What the caller should do with the answer of a modifier query.
#[derive(Debug, PartialEq, Eq)]
pub enum Outcome {
    /// The answer is stale or carries no new information.
    Ignore,
    /// The modifier is still held: keep the overlay open.
    Held,
    /// The modifier was released: commit the selection (the state is closed).
    Commit,
    /// The compositor cannot answer such queries; switch to event evidence.
    Unsupported,
    /// First failure since the last success; report it once.
    Warn(String),
}

/// The release bookkeeping of one switch overlay.
#[derive(Debug)]
pub struct ReleaseState {
    /// The overlay is shown.
    pub open: bool,
    /// The compositor cannot report modifier state; only release events count.
    pub unsupported: bool,
    /// Id of the newest query (wraps around).
    pub request: u64,
    /// The newest query is in flight.
    pub pending: bool,
    /// A release event arrived since the last navigation.
    pub release_event: bool,
    /// A query failure was already reported.
    pub error_reported: bool,
    /// Event time of the last cancellation.
    pub cancelled_at: Option<u32>,
    /// Ids of opens received while open, acknowledged with the next query.
    pub received: Vec<u64>,
}

/// Mathematical model of a [`ReleaseState`].
pub struct ReleaseModel {
    pub open: bool,
    pub unsupported: bool,
    pub request: u64,
    pub pending: bool,
    pub release_event: bool,
    pub error_reported: bool,
    pub cancelled_at: Option<u32>,
    pub received: Seq<u64>,
}

impl View for ReleaseState {
    type V = ReleaseModel;

    open spec fn view(&self) -> ReleaseModel {
        ReleaseModel {
            open: self.open,
            unsupported: self.unsupported,
            request: self.request,
            pending: self.pending,
            release_event: self.release_event,
            error_reported: self.error_reported,
            cancelled_at: self.cancelled_at,
            received: self.received@,
        }
    }
}

/// The request id that follows `id` (ids wrap around).
pub open spec fn next_request(id: u64) -> u64 {
    if id == u64::MAX {
        0
    } else {
        (id + 1) as u64
    }
}

/// `event - cancel` taken modulo 2^32 and read as a signed number is at most
/// zero: the event happened at or before the cancellation.
pub open spec fn not_after(event: u32, cancel: u32) -> bool {
    let d = if event >= cancel {
        event - cancel
    } else {
        event - cancel + 0x1_0000_0000
    };
    d == 0 || d >= 0x8000_0000
}

/// A timestamped open that is not newer than the last cancellation.
pub open spec fn stale_open(time: Option<u32>, cancelled_at: Option<u32>) -> bool {
    time is Some && cancelled_at is Some && not_after(time->0, cancelled_at->0)
}

impl ReleaseModel {
    /// The state of a freshly created overlay.
    pub open spec fn initial() -> ReleaseModel {
        ReleaseModel {
            open: false,
            unsupported: false,
            request: 0,
            pending: false,
            release_event: false,
            error_reported: false,
            cancelled_at: None,
            received: Seq::empty(),
        }
    }

    /// A new request id; nothing is in flight.
    pub open spec fn invalidated(self) -> ReleaseModel {
        ReleaseModel { request: next_request(self.request), pending: false, ..self }
    }

    pub open spec fn navigated(self) -> ReleaseModel {
        ReleaseModel { release_event: false, ..self }.invalidated()
    }

    pub open spec fn opened(self) -> ReleaseModel {
        ReleaseModel { open: true, ..self }.navigated()
    }

    pub open spec fn released(self) -> ReleaseModel {
        ReleaseModel { release_event: self.open, ..self }
    }

    pub open spec fn closed(self) -> ReleaseModel {
        ReleaseModel {
            open: false,
            received: Seq::empty(),
            release_event: false,
            ..self
        }.invalidated()
    }

    pub open spec fn cancelled(self, time: u32) -> ReleaseModel {
        ReleaseModel { cancelled_at: Some(time), ..self }.closed()
    }

    /// A new query is issued and in flight.
    pub open spec fn issued(self) -> ReleaseModel {
        ReleaseModel { pending: true, ..self.invalidated() }
    }

    /// A modifier query may be issued.
    pub open spec fn can_request(self, refresh: bool) -> bool {
        self.open && !self.unsupported && !(self.pending && !refresh)
    }

    /// A release-event query may be issued.
    pub open spec fn can_event_request(self) -> bool {
        self.open && self.unsupported && self.release_event
    }

    pub open spec fn is_current(self, request: u64) -> bool {
        self.open && self.pending && self.request == request
    }

    /// State after the answer to the current query arrived.
    pub open spec fn answered(self, result: Result<Option<ModifierState>, String>) -> ReleaseModel {
        let s = ReleaseModel { pending: false, ..self };
        match result {
            Ok(Some(m)) => if m.pressed || m.pending_opens {
                ReleaseModel { received: Seq::empty(), error_reported: false, ..s }
            } else {
                ReleaseModel { error_reported: false, ..s }.closed()
            },
            Ok(None) => ReleaseModel { received: Seq::empty(), unsupported: true, ..s },
            Err(_) => if !s.error_reported {
                ReleaseModel { error_reported: true, ..s }
            } else {
                s
            },
        }
    }

    /// Outcome of the answer to the current query.
    pub open spec fn answer_outcome(self, result: Result<Option<ModifierState>, String>) -> Outcome {
        match result {
            Ok(Some(m)) => if m.pressed || m.pending_opens {
                Outcome::Held
            } else {
                Outcome::Commit
            },
            Ok(None) => Outcome::Unsupported,
            Err(e) => if !self.error_reported {
                Outcome::Warn(e)
            } else {
                Outcome::Ignore
            },
        }
    }

    /// An event-query answer may be applied.
    pub open spec fn event_applies(self, request: u64) -> bool {
        self.is_current(request) && self.release_event && self.unsupported
    }

    /// State after the answer to the current event query arrived.
    pub open spec fn event_answered(self, held: Option<bool>) -> ReleaseModel {
        let s = ReleaseModel { pending: false, ..self };
        if held == Some(false) {
            s.closed()
        } else {
            s
        }
    }
}

/// Every transition that voids queries retires the id of the query in
/// flight: after a navigation, an open, a close or a cancellation, the
/// answer to the query issued before is never current again.
pub proof fn law_transitions_retire_the_issued_query(s: ReleaseModel, time: u32)
    ensures
        !s.navigated().is_current(s.request),
        !s.opened().is_current(s.request),
        !s.closed().is_current(s.request),
        !s.cancelled(time).is_current(s.request),
        !s.invalidated().is_current(s.request),
{
}

/// A query issued and then followed by a navigation is no longer current,
/// so its answer is ignored and changes nothing.
pub proof fn law_navigation_beats_older_answer(s: ReleaseModel, refresh: bool)
    requires
        s.can_request(refresh),
    ensures
        !s.issued().navigated().is_current(next_request(s.request)),
{
}

/// A committed selection leaves the overlay closed with nothing in flight
/// and no acknowledged opens, whichever kind of query committed it.
pub proof fn law_commit_closes(
    s: ReleaseModel,
    request: u64,
    answer: Result<Option<ModifierState>, String>,
    held: Option<bool>,
)
    ensures
        s.is_current(request) && s.answer_outcome(answer) == Outcome::Commit ==> {
            let t = s.answered(answer);
            !t.open && !t.pending && !t.release_event && t.received.len() == 0
        },
        s.event_applies(request) && held == Some(false) ==> {
            let t = s.event_answered(held);
            !t.open && !t.pending && !t.release_event && t.received.len() == 0
        },
{
}

/// At most one query is in flight: once a query was issued, a
/// non-refreshing request is refused until the answer arrives.
pub proof fn law_one_query_in_flight(s: ReleaseModel)
    ensures
        !s.issued().can_request(false),
{
}

/// A failure is reported at most once until a successful answer: after any
/// failure, the failure of the next query is ignored; a successful answer
/// re-arms the report.
pub proof fn law_failure_reported_once(
    s: ReleaseModel,
    first: String,
    second: String,
    m: ModifierState,
)
    ensures
        s.answered(Err(first)).issued().answer_outcome(Err(second)) == Outcome::Ignore,
        !s.answered(Ok(Some(m))).error_reported,
{
}

/// Once the compositor answered that it cannot report the modifier state,
/// no modifier query is issued again, while opens, navigations, closes and
/// cancellations keep that knowledge.
pub proof fn law_unsupported_stops_polling(s: ReleaseModel, refresh: bool, time: u32)
    ensures
        !s.answered(Ok(None)).can_request(refresh),
        s.unsupported ==> s.opened().unsupported && s.navigated().unsupported
            && s.closed().unsupported && s.cancelled(time).unsupported,
{
}

/// Navigation is not release evidence: after a navigation no release-event
/// query can be issued until a new release event arrives.
pub proof fn law_navigation_voids_release_evidence(s: ReleaseModel)
    ensures
        !s.navigated().can_event_request(),
        s.open && s.unsupported ==> s.navigated().released().can_event_request(),
{
}

/// After a cancellation at time `t`, a timestamped open at `t` is refused,
/// an open one tick later is accepted, and an untagged open is accepted.
pub proof fn law_cancel_orders_opens(s: ReleaseModel, t: u32)
    ensures
        stale_open(Some(t), s.cancelled(t).cancelled_at),
        !stale_open(Some(if t == u32::MAX { 0 } else { (t + 1) as u32 }), s.cancelled(t).cancelled_at),
        !stale_open(None, s.cancelled(t).cancelled_at),
{
}

/// One call on a [`ReleaseState`], with its arguments.
pub enum ReleaseInput {
    Open(Option<u32>),
    Navigation,
    Release,
    Close,
    Cancel(u32),
    Invalidate,
    Request(bool),
    EventRequest,
    Result(u64, Result<Option<ModifierState>, String>),
    EventResult(u64, Option<bool>),
}

impl ReleaseModel {
    /// The state after the call `i`, as that method's contract states it.
    pub open spec fn step(self, i: ReleaseInput) -> ReleaseModel {
        match i {
            ReleaseInput::Open(t) => if stale_open(t, self.cancelled_at) {
                self
            } else {
                self.opened()
            },
            ReleaseInput::Navigation => self.navigated(),
            ReleaseInput::Release => self.released(),
            ReleaseInput::Close => self.closed(),
            ReleaseInput::Cancel(t) => self.cancelled(t),
            ReleaseInput::Invalidate => self.invalidated(),
            ReleaseInput::Request(r) => if self.can_request(r) {
                self.issued()
            } else {
                self
            },
            ReleaseInput::EventRequest => if self.can_event_request() {
                self.issued()
            } else {
                self
            },
            ReleaseInput::Result(id, res) => if self.is_current(id) {
                self.answered(res)
            } else {
                self
            },
            ReleaseInput::EventResult(id, held) => if self.event_applies(id) {
                self.event_answered(held)
            } else {
                self
            },
        }
    }

    /// The id the call `i` hands out, if it issues a query.
    pub open spec fn issues(self, i: ReleaseInput) -> Option<u64> {
        match i {
            ReleaseInput::Request(r) => if self.can_request(r) {
                Some(next_request(self.request))
            } else {
                None
            },
            ReleaseInput::EventRequest => if self.can_event_request() {
                Some(next_request(self.request))
            } else {
                None
            },
            _ => None,
        }
    }

    /// The call `i` ends the currency of the query in flight: an accepted
    /// open, a navigation, a close, a cancellation, an invalidation, an
    /// issued query, or an applied answer.
    pub open spec fn retires(self, i: ReleaseInput) -> bool {
        match i {
            ReleaseInput::Open(t) => !stale_open(t, self.cancelled_at),
            ReleaseInput::Release => false,
            ReleaseInput::Request(r) => self.can_request(r),
            ReleaseInput::EventRequest => self.can_event_request(),
            ReleaseInput::Result(id, _) => self.is_current(id),
            ReleaseInput::EventResult(id, _) => self.event_applies(id),
            _ => true,
        }
    }

    /// The state after the calls `t`, in order.
    pub open spec fn run(self, t: Seq<ReleaseInput>) -> ReleaseModel
        decreases t.len(),
    {
        if t.len() == 0 {
            self
        } else {
            self.run(t.drop_last()).step(t.last())
        }
    }
}

/// The query `t[k]` issued, with id `id`, and no later call retired it.
pub open spec fn latest_unretired(s: ReleaseModel, t: Seq<ReleaseInput>, k: int, id: u64) -> bool {
    &&& 0 <= k < t.len()
    &&& s.run(t.take(k)).issues(t[k]) == Some(id)
    &&& forall|j: int| k < j < t.len() ==> !#[trigger] s.run(t.take(j)).retires(t[j])
}

proof fn lemma_run_prefix(s: ReleaseModel, t: Seq<ReleaseInput>, i: ReleaseInput, j: int)
    requires
        0 <= j <= t.len(),
    ensures
        s.run(t.push(i).take(j)) == s.run(t.take(j)),
{
    assert(t.push(i).take(j) =~= t.take(j));
}

/// No call of `t` retires the query in flight before it.
pub open spec fn never_retired(s: ReleaseModel, t: Seq<ReleaseInput>) -> bool {
    forall|j: int| 0 <= j < t.len() ==> !#[trigger] s.run(t.take(j)).retires(t[j])
}

/// A request id is current after the calls `t` exactly when a query of `t`
/// handed it out and no later call retired it (an accepted open, a
/// navigation, a close, a cancellation, an invalidation, a new query or an
/// applied answer), or when it was current before `t` and no call of `t`
/// retired it.
pub proof fn law_current_is_latest_unretired(s: ReleaseModel, t: Seq<ReleaseInput>, id: u64)
    ensures
        s.run(t).is_current(id) <==> (exists|k: int| latest_unretired(s, t, k, id)) || (
        s.is_current(id) && never_retired(s, t)),
    decreases t.len(),
{
    if t.len() == 0 {
        assert(!(exists|k: int| latest_unretired(s, t, k, id)));
    } else {
        let u = t.drop_last();
        let i = t.last();
        assert(u.push(i) =~= t);
        law_current_is_latest_unretired(s, u, id);
        let s0 = s.run(u);
        assert(s.run(t) == s0.step(i));
        assert forall|j: int| 0 <= j <= u.len() implies s.run(t.take(j)) == s.run(u.take(j)) by {
            lemma_run_prefix(s, u, i, j);
        }
        assert(t.take(u.len() as int) =~= u);
        let n = u.len() as int;
        if s0.retires(i) {
            if exists|k: int| latest_unretired(s, t, k, id) {
                let k = choose|k: int| latest_unretired(s, t, k, id);
                if k < n {
                    assert(!s.run(t.take(n)).retires(t[n]));
                }
                assert(k == n);
            }
            if s.run(t).is_current(id) {
                assert(latest_unretired(s, t, n, id));
            }
            assert(!never_retired(s, t)) by {
                assert(s.run(t.take(n)).retires(t[n]));
            }
        } else {
            assert(s0.step(i).open == s0.open && s0.step(i).pending == s0.pending
                && s0.step(i).request == s0.request);
            if exists|k: int| latest_unretired(s, u, k, id) {
                let k = choose|k: int| latest_unretired(s, u, k, id);
                assert forall|j: int| k < j < t.len() implies !#[trigger] s.run(t.take(j)).retires(
                    t[j],
                ) by {
                    if j < n {
                        assert(t[j] == u[j]);
                    }
                }
                assert(t[k] == u[k]);
                assert(latest_unretired(s, t, k, id));
            }
            if exists|k: int| latest_unretired(s, t, k, id) {
                let k = choose|k: int| latest_unretired(s, t, k, id);
                if k == n {
                    assert(s0.issues(i) is None);
                }
                assert(k < n);
                assert forall|j: int| k < j < u.len() implies !#[trigger] s.run(u.take(j)).retires(
                    u[j],
                ) by {
                    assert(t[j] == u[j]);
                    assert(!s.run(t.take(j)).retires(t[j]));
                }
                assert(t[k] == u[k]);
                assert(latest_unretired(s, u, k, id));
            }
            assert(never_retired(s, t) == never_retired(s, u)) by {
                if never_retired(s, u) {
                    assert forall|j: int| 0 <= j < t.len() implies !#[trigger] s.run(t.take(j)).retires(
                        t[j],
                    ) by {
                        if j < n {
                            assert(t[j] == u[j]);
                        }
                    }
                }
                if never_retired(s, t) {
                    assert forall|j: int| 0 <= j < u.len() implies !#[trigger] s.run(u.take(j)).retires(
                        u[j],
                    ) by {
                        assert(t[j] == u[j]);
                        assert(!s.run(t.take(j)).retires(t[j]));
                    }
                }
            }
        }
    }
}

/// Whether the call `i` takes a new request id.
pub open spec fn bump(s: ReleaseModel, i: ReleaseInput) -> nat {
    if s.step(i).request == s.request {
        0
    } else {
        1
    }
}

/// How many new request ids the calls `t` take.
pub open spec fn advances(s: ReleaseModel, t: Seq<ReleaseInput>) -> nat
    decreases t.len(),
{
    if t.len() == 0 {
        0
    } else {
        advances(s, t.drop_last()) + bump(s.run(t.drop_last()), t.last())
    }
}

proof fn lemma_step_request(s: ReleaseModel, i: ReleaseInput)
    ensures
        s.step(i).request == s.request || s.step(i).request == next_request(s.request),
        s.issues(i) is Some ==> s.step(i).request == next_request(s.request),
{
}

proof fn lemma_next_request(r: u64)
    ensures
        next_request(r) as int == (r + 1) % 0x1_0000_0000_0000_0000,
        next_request(r) != r,
{
}

proof fn lemma_request_counts(s: ReleaseModel, t: Seq<ReleaseInput>)
    ensures
        s.run(t).request as int == (s.request + advances(s, t)) % 0x1_0000_0000_0000_0000,
    decreases t.len(),
{
    if t.len() > 0 {
        let u = t.drop_last();
        lemma_request_counts(s, u);
        let m = s.run(u);
        lemma_step_request(m, t.last());
        lemma_next_request(m.request);
        let a = advances(s, u);
        assert((((s.request + a) % 0x1_0000_0000_0000_0000) + 1) % 0x1_0000_0000_0000_0000 == (
        s.request + a + 1) % 0x1_0000_0000_0000_0000) by (nonlinear_arith);
    }
}

proof fn lemma_advances_prefix(s: ReleaseModel, t: Seq<ReleaseInput>, n: int)
    requires
        0 <= n < t.len(),
    ensures
        advances(s, t.take(n + 1)) == advances(s, t.take(n)) + bump(s.run(t.take(n)), t[n]),
{
    assert(t.take(n + 1).drop_last() =~= t.take(n));
}

proof fn lemma_advances_grow(s: ReleaseModel, t: Seq<ReleaseInput>, n: int, m: int)
    requires
        0 <= n <= m <= t.len(),
    ensures
        advances(s, t.take(n)) <= advances(s, t.take(m)),
    decreases m - n,
{
    if n < m {
        lemma_advances_prefix(s, t, m - 1);
        lemma_advances_grow(s, t, n, m - 1);
    }
}

/// An invalidation leaves no query current and keeps whether the overlay is
/// open, whether the compositor answers queries, the acknowledged opens and
/// the last cancellation; an open overlay that can query then issues a new
/// id.
pub proof fn law_invalidate_voids_every_query(s: ReleaseModel, id: u64)
    ensures
        !s.invalidated().is_current(id),
        s.invalidated().open == s.open && s.invalidated().unsupported == s.unsupported
            && s.invalidated().received == s.received && s.invalidated().cancelled_at
            == s.cancelled_at,
        s.open && !s.unsupported ==> s.invalidated().can_request(false),
        s.invalidated().request != s.request,
{
    lemma_next_request(s.request);
}

/// Ids are fresh: two queries issued by the calls `t` get different ids,
/// unless the ids wrapped around, which takes 2^64 new ids.
pub proof fn law_request_ids_are_fresh(s: ReleaseModel, t: Seq<ReleaseInput>, a: int, b: int)
    requires
        0 <= a < b < t.len(),
        s.run(t.take(a)).issues(t[a]) is Some,
        s.run(t.take(b)).issues(t[b]) is Some,
        advances(s, t) < 0x1_0000_0000_0000_0000,
    ensures
        s.run(t.take(a)).issues(t[a]) != s.run(t.take(b)).issues(t[b]),
{
    let ra = s.run(t.take(a));
    let rb = s.run(t.take(b));
    lemma_request_counts(s, t.take(a));
    lemma_request_counts(s, t.take(b));
    lemma_step_request(ra, t[a]);
    lemma_next_request(ra.request);
    lemma_next_request(rb.request);
    lemma_advances_prefix(s, t, a);
    lemma_advances_grow(s, t, a + 1, b);
    lemma_advances_grow(s, t, b, t.len() as int);
    assert(t.take(t.len() as int) =~= t);
    let x = advances(s, t.take(a));
    let y = advances(s, t.take(b));
    let r = s.request as int;
    assert(1 <= y - x < 0x1_0000_0000_0000_0000);
    assert(((r + x) % 0x1_0000_0000_0000_0000 + 1) % 0x1_0000_0000_0000_0000 != ((r + y)
        % 0x1_0000_0000_0000_0000 + 1) % 0x1_0000_0000_0000_0000) by (nonlinear_arith)
        requires
            1 <= y - x < 0x1_0000_0000_0000_0000,
            0 <= x,
            0 <= r,
    ;
}

impl Default for ReleaseState {
    fn default() -> (r: Self)
        ensures
            r@ == ReleaseModel::initial(),
    {
        ReleaseState {
            open: false,
            unsupported: false,
            request: 0,
            pending: false,
            release_event: false,
            error_reported: false,
            cancelled_at: None,
            received: Vec::new(),
        }
    }
}

impl ReleaseState {
    /// Opens (or re-opens) the overlay. Timestamped bindings carry the
    /// key event's time; such an open at or before the last cancellation
    /// is refused. Untagged explicit IPC opens are new requests, including
    /// immediately after cancellation.
    pub fn open(&mut self, time: Option<u32>) -> (accepted: bool)
        ensures
            accepted == !stale_open(time, old(self).cancelled_at),
            accepted ==> final(self)@ == old(self)@.opened(),
            !accepted ==> final(self)@ == old(self)@,
    {
        if let Some(event) = time {
            if let Some(cancel) = self.cancelled_at {
                let d = event.wrapping_sub(cancel);
                if d == 0 || d >= 0x8000_0000 {
                    return false;
                }
            }
        }
        self.open = true;
        self.navigation();
        true
    }

    /// The selection moved: earlier release evidence and queries are void.
    pub fn navigation(&mut self)
        ensures
            final(self)@ == old(self)@.navigated(),
    {
        self.release_event = false;
        self.invalidate();
    }

    /// A modifier release event arrived (only counted while open).
    pub fn release(&mut self)
        ensures
            final(self)@ == old(self)@.released(),
    {
        self.release_event = self.open;
    }

    /// Closes the overlay and voids every query.
    pub fn close(&mut self)
        ensures
            final(self)@ == old(self)@.closed(),
    {
        self.open = false;
        self.received.clear();
        self.release_event = false;
        self.invalidate();
    }

    /// Cancels at event time `time`: closes, and refuses older opens.
    pub fn cancel(&mut self, time: u32)
        ensures
            final(self)@ == old(self)@.cancelled(time),
    {
        self.cancelled_at = Some(time);
        self.close();
    }

    /// Takes a new request id, so that no earlier answer is current.
    pub fn invalidate(&mut self)
        ensures
            final(self)@ == old(self)@.invalidated(),
    {
        self.request = self.request.wrapping_add(1);
        self.pending = false;
    }

    /// Issues a modifier query, unless the overlay is closed, the compositor
    /// is known not to answer, or a query is in flight and `refresh` is false.
    pub fn request(&mut self, refresh: bool) -> (id: Option<u64>)
        ensures
            old(self)@.can_request(refresh) ==> id == Some(next_request(old(self).request))
                && final(self)@ == old(self)@.issued(),
            !old(self)@.can_request(refresh) ==> id is None && final(self)@ == old(self)@,
    {
        if !self.open || self.unsupported || (self.pending && !refresh) {
            return None;
        }
        self.invalidate();
        self.pending = true;
        Some(self.request)
    }

    /// Issues a query of the seat after a release event, when the compositor
    /// cannot report modifier state.
    pub fn event_request(&mut self) -> (id: Option<u64>)
        ensures
            old(self)@.can_event_request() ==> id == Some(next_request(old(self).request))
                && final(self)@ == old(self)@.issued(),
            !old(self)@.can_event_request() ==> id is None && final(self)@ == old(self)@,
    {
        if !self.open || !self.unsupported || !self.release_event {
            return None;
        }
        self.invalidate();
        self.pending = true;
        Some(self.request)
    }

    /// The answer with this id is the one awaited.
    pub fn is_current(&self, request: u64) -> (r: bool)
        ensures
            r == self@.is_current(request),
    {
        self.open && self.pending && self.request == request
    }

    /// Applies the answer to a modifier query.
    pub fn result(&mut self, request: u64, result: Result<Option<ModifierState>, String>) -> (r:
        Outcome)
        ensures
            old(self)@.is_current(request) ==> final(self)@ == old(self)@.answered(result) && r
                == old(self)@.answer_outcome(result),
            !old(self)@.is_current(request) ==> final(self)@ == old(self)@ && r
                == Outcome::Ignore,
    {
        if !self.is_current(request) {
            return Outcome::Ignore;
        }
        self.pending = false;
        match result {
            Ok(Some(m)) => {
                if m.pressed || m.pending_opens {
                    self.received.clear();
                    self.error_reported = false;
                    Outcome::Held
                } else {
                    self.error_reported = false;
                    self.close();
                    Outcome::Commit
                }
            },
            Ok(None) => {
                self.received.clear();
                self.unsupported = true;
                Outcome::Unsupported
            },
            Err(error) => {
                if !self.error_reported {
                    self.error_reported = true;
                    Outcome::Warn(error)
                } else {
                    Outcome::Ignore
                }
            },
        }
    }

    /// Applies the answer to a release-event query. Only a real release
    /// event plus a known seat mask establishes release; missing focus or
    /// seat state (`None`) is unknown, never equivalent to both keys up.
    pub fn event_result(&mut self, request: u64, held: Option<bool>) -> (r: Outcome)
        ensures
            old(self)@.event_applies(request) ==> final(self)@ == old(self)@.event_answered(held)
                && r == (if held == Some(false) {
                Outcome::Commit
            } else {
                Outcome::Held
            }),
            !old(self)@.event_applies(request) ==> final(self)@ == old(self)@ && r
                == Outcome::Ignore,
    {
        if !self.is_current(request) || !self.release_event || !self.unsupported {
            return Outcome::Ignore;
        }
        self.pending = false;
        if held == Some(false) {
            self.close();
            Outcome::Commit
        } else {
            Outcome::Held
        }
    }
}

} // verus!
