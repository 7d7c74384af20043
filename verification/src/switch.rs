//! Decisions of the switch overlay.
//!
//! The overlay reacts to inputs (opens, navigation, modifier releases,
//! query answers, cancellations) and owns three pieces of background work: a
//! periodic modifier check, one modifier query in flight and a scheduled
//! focus change. [`SwitchControl`] holds the release bookkeeping and which of
//! those are running, and answers each input with the actions the caller
//! performs, in order. Nothing here touches the compositor or the screen.
use vstd::prelude::*;
use crate::release::{ReleaseState, ReleaseModel, ModifierState, Outcome, next_request, stale_open};
use crate::transfer::Direction;
use crate::text::str_eq;

verus! {

/// Work the caller performs for the overlay, in the order given.
#[derive(Debug, PartialEq, Eq)]
pub enum SwitchAction {
    /// Abort the modifier query in flight; its answer never arrives.
    AbortQuery,
    /// Abort the scheduled focus change.
    AbortCommit,
    /// Remove the periodic modifier check.
    StopTimer,
    /// Start the periodic modifier check, which feeds [`SwitchControl::check`].
    StartTimer,
    /// Collect the windows and show the overlay with the selection moved in
    /// this direction, then report with [`SwitchControl::shown`].
    Show(Direction),
    /// Move the selection in this direction.
    Navigate(Direction),
    /// Hide and clear the overlay; with `true`, also schedule focusing the
    /// selected window or workspace.
    Hide(bool),
    /// Ask the compositor for both sides of the modifier (with the received
    /// open ids and the cancellation time of the release state); answer with
    /// [`SwitchControl::answer`] and this id.
    Query(u64),
    /// Read the seat's modifier mask once pending events ran; answer with
    /// [`SwitchControl::seat_answer`] and this id.
    SeatQuery(u64),
    /// Report a failed modifier query.
    Warn(String),
}

/// Release bookkeeping of the overlay and the background work it owns.
#[derive(Debug)]
pub struct SwitchControl {
    pub release: ReleaseState,
    /// The periodic modifier check runs.
    pub timer: bool,
    /// A modifier or seat query is in flight.
    pub query: bool,
    /// A focus change is scheduled.
    pub commit: bool,
}

/// Mathematical model of a [`SwitchControl`].
pub struct ControlModel {
    pub release: ReleaseModel,
    pub timer: bool,
    pub query: bool,
    pub commit: bool,
}

impl View for SwitchControl {
    type V = ControlModel;

    open spec fn view(&self) -> ControlModel {
        ControlModel {
            release: self.release@,
            timer: self.timer,
            query: self.query,
            commit: self.commit,
        }
    }
}

impl ControlModel {
    pub open spec fn initial() -> ControlModel {
        ControlModel { release: ReleaseModel::initial(), timer: false, query: false, commit: false }
    }

    pub open spec fn with_release(self, r: ReleaseModel) -> ControlModel {
        ControlModel { release: r, ..self }
    }

    /// What the background work and the release state always satisfy: a
    /// running query is the awaited one, and a hidden overlay owns neither a
    /// timer nor a query; the timer never runs once the compositor is known
    /// not to answer.
    pub open spec fn inv(self) -> bool {
        &&& self.query ==> self.release.pending
        &&& !self.release.open ==> !self.timer && !self.query
        &&& self.timer ==> !self.release.unsupported
    }

    pub open spec fn abort_query(self) -> (ControlModel, Seq<SwitchAction>) {
        if self.query {
            (ControlModel { query: false, ..self }, seq![SwitchAction::AbortQuery])
        } else {
            (self, Seq::empty())
        }
    }

    pub open spec fn abort_commit(self) -> (ControlModel, Seq<SwitchAction>) {
        if self.commit {
            (ControlModel { commit: false, ..self }, seq![SwitchAction::AbortCommit])
        } else {
            (self, Seq::empty())
        }
    }

    /// Stops the periodic check: voids the awaited answer, removes the timer
    /// and aborts the query.
    pub open spec fn stopped(self) -> (ControlModel, Seq<SwitchAction>) {
        let s = self.with_release(self.release.invalidated());
        let (t, a) = if s.timer {
            (ControlModel { timer: false, ..s }, seq![SwitchAction::StopTimer])
        } else {
            (s, Seq::empty())
        };
        let (u, b) = t.abort_query();
        (u, a + b)
    }

    /// Restarts the periodic check, unless the compositor cannot answer.
    pub open spec fn started(self) -> (ControlModel, Seq<SwitchAction>) {
        let (s, a) = self.stopped();
        if s.release.unsupported {
            (s, a)
        } else {
            (ControlModel { timer: true, ..s }, a.push(SwitchAction::StartTimer))
        }
    }

    /// Hides the overlay; `commit` schedules the focus change.
    pub open spec fn closing(self, commit: bool) -> (ControlModel, Seq<SwitchAction>) {
        let (s, a) = self.with_release(self.release.closed()).stopped();
        let (t, b) = s.abort_commit();
        (ControlModel { commit: commit, ..t }, a + b + seq![SwitchAction::Hide(commit)])
    }

    /// Cancels at event time `time` and hides without a focus change.
    pub open spec fn cancelling(self, time: u32) -> (ControlModel, Seq<SwitchAction>) {
        let (s, a) = self.with_release(self.release.cancelled(time)).abort_commit();
        let (t, b) = s.closing(false);
        (t, a + b)
    }

    /// Issues a query for a fresh modifier snapshot; without `refresh` it
    /// leaves a query in flight alone.
    pub open spec fn checked(self, refresh: bool) -> (ControlModel, Seq<SwitchAction>) {
        if !self.release.open || (self.query && !refresh) {
            (self, Seq::empty())
        } else {
            let (s, a) = self.abort_query();
            if s.release.unsupported {
                if s.release.can_event_request() {
                    (
                        ControlModel { release: s.release.issued(), query: true, ..s },
                        a.push(SwitchAction::SeatQuery(next_request(s.release.request))),
                    )
                } else {
                    (s, a)
                }
            } else if s.release.can_request(refresh) {
                (
                    ControlModel { release: s.release.issued(), query: true, ..s },
                    a.push(SwitchAction::Query(next_request(s.release.request))),
                )
            } else {
                (s, a)
            }
        }
    }

    /// An open arrived (from a binding with event time `time` and open id
    /// `id`, or from an untagged request).
    pub open spec fn open_step(self, d: Direction, time: Option<u32>, id: Option<u64>) -> (
        ControlModel,
        Seq<SwitchAction>,
    ) {
        if stale_open(time, self.release.cancelled_at) {
            (self, Seq::empty())
        } else {
            let r = self.release.opened();
            let r = if id is Some && !r.unsupported {
                ReleaseModel { received: r.received.push(id->0), ..r }
            } else {
                r
            };
            let (s, a) = self.with_release(r).abort_commit();
            if self.release.open {
                let (t, b) = s.checked(true);
                (t, a.push(SwitchAction::Navigate(d)) + b)
            } else {
                (s, a.push(SwitchAction::Show(d)))
            }
        }
    }

    /// The overlay was shown (`ok`) or collecting the windows failed.
    pub open spec fn shown_step(self, ok: bool) -> (ControlModel, Seq<SwitchAction>) {
        let s = if ok {
            self
        } else {
            self.with_release(self.release.closed())
        };
        let (t, a) = if s.release.open {
            s.started()
        } else {
            (s, Seq::empty())
        };
        let (u, b) = t.checked(true);
        (u, a + b)
    }

    /// The answer to modifier query `id` arrived.
    pub open spec fn answer_step(self, id: u64, result: Result<Option<ModifierState>, String>) -> (
        ControlModel,
        Seq<SwitchAction>,
    ) {
        if !self.release.is_current(id) {
            (self, Seq::empty())
        } else {
            let s = ControlModel {
                release: self.release.answered(result),
                query: false,
                ..self
            };
            match self.release.answer_outcome(result) {
                Outcome::Commit => s.closing(true),
                Outcome::Unsupported => {
                    let (t, a) = s.stopped();
                    let (u, b) = t.checked(false);
                    (u, a + b)
                },
                Outcome::Warn(e) => (s, seq![SwitchAction::Warn(e)]),
                _ => (s, Seq::empty()),
            }
        }
    }

    /// The answer to seat query `id` arrived (`None`: the seat state is
    /// unknown).
    pub open spec fn seat_step(self, id: u64, held: Option<bool>) -> (
        ControlModel,
        Seq<SwitchAction>,
    ) {
        if !self.release.is_current(id) {
            (self, Seq::empty())
        } else if self.release.event_applies(id) {
            let s = ControlModel {
                release: self.release.event_answered(held),
                query: false,
                ..self
            };
            if held == Some(false) {
                s.closing(true)
            } else {
                (s, Seq::empty())
            }
        } else {
            (ControlModel { query: false, ..self }, Seq::empty())
        }
    }

    /// The selection moved by key.
    pub open spec fn switch_step(self, d: Direction) -> (ControlModel, Seq<SwitchAction>) {
        if self.release.open {
            let (s, a) = self.with_release(self.release.navigated()).checked(true);
            (s, seq![SwitchAction::Navigate(d)] + a)
        } else {
            (self, Seq::empty())
        }
    }

    /// A modifier release event arrived.
    pub open spec fn release_step(self) -> (ControlModel, Seq<SwitchAction>) {
        if self.release.open {
            self.with_release(self.release.released()).checked(true)
        } else {
            (self, Seq::empty())
        }
    }

    /// The switch configuration changed at time `now`: cancel, and give the
    /// compositor another chance to report modifier state.
    pub open spec fn reconfigure_step(self, now: u32) -> (ControlModel, Seq<SwitchAction>) {
        let (s, a) = self.cancelling(now);
        (s.with_release(ReleaseModel { unsupported: false, ..s.release }), a)
    }
}

/// Every input keeps the invariant of the overlay's background work. An
/// open of a hidden overlay leaves no timer and no query behind, which is
/// what the report on showing it relies on.
pub proof fn law_inputs_keep_invariant(
    m: ControlModel,
    d: Direction,
    time: Option<u32>,
    open_id: Option<u64>,
    ok: bool,
    id: u64,
    result: Result<Option<ModifierState>, String>,
    held: Option<bool>,
    now: u32,
)
    requires
        m.inv(),
    ensures
        m.open_step(d, time, open_id).0.inv(),
        !m.release.open ==> !m.open_step(d, time, open_id).0.timer && !m.open_step(
            d,
            time,
            open_id,
        ).0.query,
        !m.timer && !m.query ==> m.shown_step(ok).0.inv(),
        m.checked(false).0.inv(),
        m.answer_step(id, result).0.inv(),
        m.seat_step(id, held).0.inv(),
        m.switch_step(d).0.inv(),
        m.release_step().0.inv(),
        m.cancelling(now).0.inv(),
        m.reconfigure_step(now).0.inv(),
        ControlModel::initial().inv(),
{
}

/// An answer that is not the awaited one changes nothing and asks for
/// nothing.
pub proof fn law_stale_answers_are_inert(
    m: ControlModel,
    id: u64,
    result: Result<Option<ModifierState>, String>,
    held: Option<bool>,
)
    requires
        !m.release.is_current(id),
    ensures
        m.answer_step(id, result) == (m, Seq::<SwitchAction>::empty()),
        m.seat_step(id, held) == (m, Seq::<SwitchAction>::empty()),
{
}

/// The answer reports both sides of the modifier up and no open on its way.
pub open spec fn reports_release(result: Result<Option<ModifierState>, String>) -> bool {
    match result {
        Ok(Some(s)) => !s.pressed && !s.pending_opens,
        _ => false,
    }
}

/// The selection is committed exactly when the awaited answer reports both
/// sides of the modifier up with no open still on its way, or when, after a
/// release event, the seat reports the modifier up.
pub proof fn law_commit_needs_release_evidence(
    m: ControlModel,
    id: u64,
    result: Result<Option<ModifierState>, String>,
    held: Option<bool>,
)
    ensures
        m.answer_step(id, result).1.contains(SwitchAction::Hide(true)) <==> (m.release.is_current(id)
            && reports_release(result)),
        m.seat_step(id, held).1.contains(SwitchAction::Hide(true)) <==> (m.release.event_applies(id)
            && held == Some(false)),
{
    let (s, a) = m.answer_step(id, result);
    if m.release.is_current(id) {
        match m.release.answer_outcome(result) {
            Outcome::Commit => {
                assert(a.last() == SwitchAction::Hide(true));
            },
            Outcome::Unsupported => {
                let t = ControlModel { release: m.release.answered(result), query: false, ..m };
                let (u, b1) = t.stopped();
                let (v, b2) = u.checked(false);
                assert(forall|i: int| 0 <= i < b1.len() ==> b1[i] != SwitchAction::Hide(true));
                assert(forall|i: int| 0 <= i < b2.len() ==> b2[i] != SwitchAction::Hide(true));
                assert(a == b1 + b2);
                assert(forall|i: int| 0 <= i < a.len() ==> a[i] != SwitchAction::Hide(true));
            },
            Outcome::Warn(e) => {
                assert(a[0] != SwitchAction::Hide(true));
            },
            _ => {},
        }
    }
    let (s2, a2) = m.seat_step(id, held);
    if m.release.event_applies(id) && held == Some(false) {
        assert(a2.last() == SwitchAction::Hide(true));
    }
}

/// Hiding the overlay leaves it closed with no timer, no query and no
/// acknowledged opens, and schedules the focus change only for a commit.
pub proof fn law_hiding_quiets_background_work(m: ControlModel, commit: bool, now: u32)
    ensures
        ({
            let (s, a) = m.closing(commit);
            !s.release.open && !s.timer && !s.query && s.commit == commit
                && s.release.received.len() == 0 && a.last() == SwitchAction::Hide(commit)
        }),
        ({
            let (s, a) = m.cancelling(now);
            !s.release.open && !s.timer && !s.query && !s.commit
                && s.release.cancelled_at == Some(now) && a.last() == SwitchAction::Hide(false)
        }),
{
}

/// At most one query is in flight: the periodic check issues nothing while
/// a query runs, and a refreshing check aborts it before issuing the next.
pub proof fn law_one_query_at_a_time(m: ControlModel)
    requires
        m.query,
    ensures
        m.checked(false) == (m, Seq::<SwitchAction>::empty()),
        m.release.open ==> m.checked(true).1.len() > 0 && m.checked(true).1[0]
            == SwitchAction::AbortQuery,
{
}

impl SwitchControl {
    pub fn new() -> (r: Self)
        ensures
            r@ == ControlModel::initial(),
    {
        SwitchControl { release: ReleaseState::default(), timer: false, query: false, commit: false }
    }

    fn abort_query(&mut self, out: &mut Vec<SwitchAction>)
        ensures
            final(self)@ == old(self)@.abort_query().0,
            final(out)@ == old(out)@ + old(self)@.abort_query().1,
    {
        if self.query {
            self.query = false;
            out.push(SwitchAction::AbortQuery);
        }
        proof {
            assert(final(out)@ == old(out)@ + old(self)@.abort_query().1);
        }
    }

    fn abort_commit(&mut self, out: &mut Vec<SwitchAction>)
        ensures
            final(self)@ == old(self)@.abort_commit().0,
            final(out)@ == old(out)@ + old(self)@.abort_commit().1,
    {
        if self.commit {
            self.commit = false;
            out.push(SwitchAction::AbortCommit);
        }
        proof {
            assert(final(out)@ == old(out)@ + old(self)@.abort_commit().1);
        }
    }

    fn stop(&mut self, out: &mut Vec<SwitchAction>)
        ensures
            final(self)@ == old(self)@.stopped().0,
            final(out)@ == old(out)@ + old(self)@.stopped().1,
    {
        let ghost m = self@;
        self.release.invalidate();
        if self.timer {
            self.timer = false;
            out.push(SwitchAction::StopTimer);
        }
        self.abort_query(out);
        proof {
            assert(out@ == old(out)@ + m.stopped().1);
        }
    }

    fn start(&mut self, out: &mut Vec<SwitchAction>)
        ensures
            final(self)@ == old(self)@.started().0,
            final(out)@ == old(out)@ + old(self)@.started().1,
    {
        let ghost m = self@;
        self.stop(out);
        if !self.release.unsupported {
            self.timer = true;
            out.push(SwitchAction::StartTimer);
        }
        proof {
            assert(out@ == old(out)@ + m.started().1);
        }
    }

    fn close(&mut self, commit: bool, out: &mut Vec<SwitchAction>)
        ensures
            final(self)@ == old(self)@.closing(commit).0,
            final(out)@ == old(out)@ + old(self)@.closing(commit).1,
    {
        let ghost m = self@;
        self.release.close();
        self.stop(out);
        self.abort_commit(out);
        self.commit = commit;
        out.push(SwitchAction::Hide(commit));
        proof {
            assert(out@ == old(out)@ + m.closing(commit).1);
        }
    }

    fn cancel_at(&mut self, time: u32, out: &mut Vec<SwitchAction>)
        ensures
            final(self)@ == old(self)@.cancelling(time).0,
            final(out)@ == old(out)@ + old(self)@.cancelling(time).1,
    {
        let ghost m = self@;
        self.release.cancel(time);
        self.abort_commit(out);
        self.close(false, out);
        proof {
            assert(out@ == old(out)@ + m.cancelling(time).1);
        }
    }

    fn check_into(&mut self, refresh: bool, out: &mut Vec<SwitchAction>)
        ensures
            final(self)@ == old(self)@.checked(refresh).0,
            final(out)@ == old(out)@ + old(self)@.checked(refresh).1,
    {
        let ghost m = self@;
        if !self.release.open || (self.query && !refresh) {
            proof {
                assert(out@ == old(out)@ + m.checked(refresh).1);
            }
            return;
        }
        self.abort_query(out);
        if self.release.unsupported {
            if let Some(id) = self.release.event_request() {
                self.query = true;
                out.push(SwitchAction::SeatQuery(id));
            }
        } else if let Some(id) = self.release.request(refresh) {
            self.query = true;
            out.push(SwitchAction::Query(id));
        }
        proof {
            assert(out@ == old(out)@ + m.checked(refresh).1);
        }
    }

    /// The periodic check fired: query the modifier unless a query runs.
    pub fn check(&mut self) -> (out: Vec<SwitchAction>)
        ensures
            (final(self)@, out@) == old(self)@.checked(false),
    {
        let mut out = Vec::new();
        self.check_into(false, &mut out);
        assert(out@ == Seq::<SwitchAction>::empty() + old(self)@.checked(false).1);
        out
    }

    /// An open arrived: from a binding with its event time and open id, or
    /// untagged. An open at or before the last cancellation is ignored. An
    /// open while shown moves the selection; otherwise the overlay is shown
    /// and the caller reports with [`SwitchControl::shown`].
    pub fn open(&mut self, direction: Direction, time: Option<u32>, id: Option<u64>) -> (out: Vec<
        SwitchAction,
    >)
        ensures
            (final(self)@, out@) == old(self)@.open_step(direction, time, id),
    {
        let ghost m = self@;
        let mut out = Vec::new();
        let was_open = self.release.open;
        if !self.release.open(time) {
            return out;
        }
        if let Some(i) = id {
            if !self.release.unsupported {
                self.release.received.push(i);
            }
        }
        proof {
            let r = m.release.opened();
            let r = if id is Some && !r.unsupported {
                ReleaseModel { received: r.received.push(id->0), ..r }
            } else {
                r
            };
            assert(self@ == m.with_release(r));
        }
        self.abort_commit(&mut out);
        if was_open {
            out.push(SwitchAction::Navigate(direction));
            self.check_into(true, &mut out);
        } else {
            out.push(SwitchAction::Show(direction));
        }
        proof {
            assert(out@ == m.open_step(direction, time, id).1);
        }
        out
    }

    /// Reports whether showing the overlay after [`SwitchAction::Show`]
    /// succeeded; on failure the overlay counts as closed.
    pub fn shown(&mut self, ok: bool) -> (out: Vec<SwitchAction>)
        ensures
            (final(self)@, out@) == old(self)@.shown_step(ok),
    {
        let ghost m = self@;
        let mut out = Vec::new();
        if !ok {
            self.release.close();
        }
        if self.release.open {
            self.start(&mut out);
        }
        self.check_into(true, &mut out);
        proof {
            assert(out@ == m.shown_step(ok).1);
        }
        out
    }

    /// The answer to modifier query `id` arrived.
    pub fn answer(&mut self, id: u64, result: Result<Option<ModifierState>, String>) -> (out: Vec<
        SwitchAction,
    >)
        ensures
            (final(self)@, out@) == old(self)@.answer_step(id, result),
    {
        let ghost m = self@;
        let mut out = Vec::new();
        if !self.release.is_current(id) {
            return out;
        }
        self.query = false;
        match self.release.result(id, result) {
            Outcome::Commit => self.close(true, &mut out),
            Outcome::Unsupported => {
                self.stop(&mut out);
                self.check_into(false, &mut out);
            },
            Outcome::Warn(error) => out.push(SwitchAction::Warn(error)),
            _ => {},
        }
        proof {
            assert(out@ == m.answer_step(id, result).1);
        }
        out
    }

    /// The answer to seat query `id` arrived: whether the modifier is held,
    /// or `None` when the seat state is unknown.
    pub fn seat_answer(&mut self, id: u64, held: Option<bool>) -> (out: Vec<SwitchAction>)
        ensures
            (final(self)@, out@) == old(self)@.seat_step(id, held),
    {
        let ghost m = self@;
        let mut out = Vec::new();
        if !self.release.is_current(id) {
            return out;
        }
        self.query = false;
        if let Outcome::Commit = self.release.event_result(id, held) {
            self.close(true, &mut out);
        }
        proof {
            assert(out@ == m.seat_step(id, held).1);
        }
        out
    }

    /// The selection moved by key while shown.
    pub fn switch(&mut self, direction: Direction) -> (out: Vec<SwitchAction>)
        ensures
            (final(self)@, out@) == old(self)@.switch_step(direction),
    {
        let ghost m = self@;
        let mut out = Vec::new();
        if self.release.open {
            self.release.navigation();
            out.push(SwitchAction::Navigate(direction));
            self.check_into(true, &mut out);
        }
        proof {
            assert(out@ == m.switch_step(direction).1);
        }
        out
    }

    /// A modifier release event arrived.
    pub fn released(&mut self) -> (out: Vec<SwitchAction>)
        ensures
            (final(self)@, out@) == old(self)@.release_step(),
    {
        let mut out = Vec::new();
        if self.release.open {
            self.release.release();
            self.check_into(true, &mut out);
        }
        proof {
            assert(out@ =~= old(self)@.release_step().1);
        }
        out
    }

    /// The overlay is cancelled (escape, or a close without commit) at event
    /// time `time`.
    pub fn cancel(&mut self, time: u32) -> (out: Vec<SwitchAction>)
        ensures
            (final(self)@, out@) == old(self)@.cancelling(time),
    {
        let mut out = Vec::new();
        self.cancel_at(time, &mut out);
        assert(out@ == Seq::<SwitchAction>::empty() + old(self)@.cancelling(time).1);
        out
    }

    /// The switch or window settings changed at time `now`.
    pub fn reconfigure(&mut self, now: u32) -> (out: Vec<SwitchAction>)
        ensures
            (final(self)@, out@) == old(self)@.reconfigure_step(now),
    {
        let mut out = Vec::new();
        self.cancel_at(now, &mut out);
        self.release.unsupported = false;
        assert(out@ == Seq::<SwitchAction>::empty() + old(self)@.cancelling(now).1);
        out
    }
}

/// What a key pressed on the overlay asks for.
#[derive(Debug, PartialEq, Eq)]
pub enum KeyInput {
    /// Cancel the overlay at this event time.
    Cancel(u32),
    /// Move the selection.
    Switch(Direction),
    /// Close the selected window or the selected workspace's windows.
    CloseCurrentItem,
}

/// The input that the key named `key` asks for on the overlay, where
/// `switch_key` moves forward (backward with shift) and `kill_key` or Delete
/// closes the selection; `None` lets the key through. Vim keys and arrows
/// move too.
pub open spec fn key_input_spec(
    key: Seq<char>,
    switch_key: Seq<char>,
    kill_key: Seq<char>,
    shift: bool,
    time: u32,
) -> Option<KeyInput> {
    if key == "Escape"@ {
        Some(KeyInput::Cancel(time))
    } else if key == switch_key {
        Some(KeyInput::Switch(if shift { Direction::Left } else { Direction::Right }))
    } else if key == "l"@ || key == "Right"@ {
        Some(KeyInput::Switch(Direction::Right))
    } else if key == "ISO_Left_Tab"@ || key == "grave"@ || key == "dead_grave"@ || key == "h"@
        || key == "Left"@ {
        Some(KeyInput::Switch(Direction::Left))
    } else if key == "j"@ || key == "Down"@ {
        Some(KeyInput::Switch(Direction::Down))
    } else if key == "k"@ || key == "Up"@ {
        Some(KeyInput::Switch(Direction::Up))
    } else if key == kill_key || key == "Delete"@ {
        Some(KeyInput::CloseCurrentItem)
    } else {
        None
    }
}

/// Maps a pressed key (by its key name) to the overlay input it asks for.
pub fn handle_key(key: &str, switch_key: &str, kill_key: &str, shift: bool, time: u32) -> (r:
    Option<KeyInput>)
    ensures
        r == key_input_spec(key@, switch_key@, kill_key@, shift, time),
{
    if str_eq(key, "Escape") {
        Some(KeyInput::Cancel(time))
    } else if str_eq(key, switch_key) {
        Some(KeyInput::Switch(if shift { Direction::Left } else { Direction::Right }))
    } else if str_eq(key, "l") || str_eq(key, "Right") {
        Some(KeyInput::Switch(Direction::Right))
    } else if str_eq(key, "ISO_Left_Tab") || str_eq(key, "grave") || str_eq(key, "dead_grave")
        || str_eq(key, "h") || str_eq(key, "Left") {
        Some(KeyInput::Switch(Direction::Left))
    } else if str_eq(key, "j") || str_eq(key, "Down") {
        Some(KeyInput::Switch(Direction::Down))
    } else if str_eq(key, "k") || str_eq(key, "Up") {
        Some(KeyInput::Switch(Direction::Up))
    } else if str_eq(key, kill_key) || str_eq(key, "Delete") {
        Some(KeyInput::CloseCurrentItem)
    } else {
        None
    }
}


/// The keys of the overlay do what their names say, whatever the switch and
/// kill keys are (unless the key is itself the switch key): Escape cancels;
/// the switch key moves right, or left with shift; Left, h and shift-Tab
/// move left; Right and l move right; Up and k move up; Down and j move
/// down; Delete closes the selection.
pub proof fn law_keys_move_as_named(
    key: Seq<char>,
    switch_key: Seq<char>,
    kill_key: Seq<char>,
    shift: bool,
    time: u32,
)
    ensures
        key == "Escape"@ ==> key_input_spec(key, switch_key, kill_key, shift, time) == Some(
            KeyInput::Cancel(time),
        ),
        key == switch_key && key != "Escape"@ ==> key_input_spec(
            key,
            switch_key,
            kill_key,
            shift,
            time,
        ) == Some(KeyInput::Switch(if shift { Direction::Left } else { Direction::Right })),
        key != switch_key && (key == "Left"@ || key == "h"@ || key == "ISO_Left_Tab"@)
            ==> key_input_spec(key, switch_key, kill_key, shift, time) == Some(
            KeyInput::Switch(Direction::Left),
        ),
        key != switch_key && (key == "Right"@ || key == "l"@) ==> key_input_spec(
            key,
            switch_key,
            kill_key,
            shift,
            time,
        ) == Some(KeyInput::Switch(Direction::Right)),
        key != switch_key && (key == "Up"@ || key == "k"@) ==> key_input_spec(
            key,
            switch_key,
            kill_key,
            shift,
            time,
        ) == Some(KeyInput::Switch(Direction::Up)),
        key != switch_key && (key == "Down"@ || key == "j"@) ==> key_input_spec(
            key,
            switch_key,
            kill_key,
            shift,
            time,
        ) == Some(KeyInput::Switch(Direction::Down)),
        key != switch_key && key == "Delete"@ ==> key_input_spec(
            key,
            switch_key,
            kill_key,
            shift,
            time,
        ) == Some(KeyInput::CloseCurrentItem),
{
    reveal_strlit("Escape");
    reveal_strlit("Left");
    reveal_strlit("Right");
    reveal_strlit("Up");
    reveal_strlit("Down");
    reveal_strlit("Delete");
    reveal_strlit("ISO_Left_Tab");
    reveal_strlit("grave");
    reveal_strlit("dead_grave");
    reveal_strlit("h");
    reveal_strlit("j");
    reveal_strlit("k");
    reveal_strlit("l");
    assert("Escape"@.len() == 6 && "Delete"@.len() == 6 && "Left"@.len() == 4 && "Right"@.len()
        == 5 && "Up"@.len() == 2 && "Down"@.len() == 4 && "ISO_Left_Tab"@.len() == 12
        && "grave"@.len() == 5 && "dead_grave"@.len() == 10 && "h"@.len() == 1 && "j"@.len() == 1
        && "k"@.len() == 1 && "l"@.len() == 1);
    assert("Escape"@[0] != "Delete"@[0] && "Left"@[0] != "Down"@[0] && "Right"@[0]
        != "grave"@[0]);
    assert("h"@[0] != "j"@[0] && "h"@[0] != "k"@[0] && "h"@[0] != "l"@[0] && "j"@[0] != "k"@[0]
        && "j"@[0] != "l"@[0] && "k"@[0] != "l"@[0]);
}

} // verus!
