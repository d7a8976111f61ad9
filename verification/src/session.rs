//! The session controller: stepping through the discovered containers.
//!
//! A session starts from the ordered list of classified container
//! directories, hands the caller one unit at a time to grade, records each
//! verdict, pauses after a single-file unit in interactive mode for the
//! user's continue/quit decision, and finalizes the report exactly once when
//! the containers are exhausted. All toolchain work happens outside: the
//! caller performs the commands a unit calls for and feeds the outcomes
//! back through the evaluator.

use vstd::prelude::*;
use crate::classify::{Container, ContainerView, ExerciseKind, container_wf};
use crate::interact::{Mode, spec_is_quit, is_quit};
use crate::report::{
    Aggregator,
    AggregatorView,
    Report,
    agg_wf,
    spec_empty_agg,
    spec_record,
    spec_finalize,
    lemma_record_preserves_wf,
    lemma_finalize_preserves_wf,
    lemma_totals_reconcile,
};

verus! {

/// Where the controller stands: grading units, paused for the user's
/// decision, ready to reconcile the report, or finished.
#[derive(Clone, Copy, PartialEq, Eq, Structural, Debug)]
pub enum Phase {
    Iterating,
    AwaitingUser,
    Finalizing,
    Done,
}

/// One unit for the caller to grade: the directory to work in, the kind of
/// unit, and its display name (the container path for a project unit, the
/// source-file path for a single-file unit).
pub struct UnitTask {
    pub dir: String,
    pub kind: ExerciseKind,
    pub name: String,
}

pub open spec fn container_views(cs: Seq<Container>) -> Seq<ContainerView> {
    cs.map(|i: int, c: Container| c@)
}

/// How many evaluable units a container holds: one for a project, one per
/// source file otherwise.
pub open spec fn unit_count(c: ContainerView) -> int {
    match c.kind {
        ExerciseKind::Project => 1,
        ExerciseKind::SingleFile => c.files.len() as int,
    }
}

/// The display name of one unit of a container.
pub open spec fn unit_name(c: ContainerView, ui: int) -> Seq<char> {
    match c.kind {
        ExerciseKind::Project => c.name,
        ExerciseKind::SingleFile => c.files[ui],
    }
}

/// The first container at or after `ci` that holds any unit, or the length
/// when every remaining container is empty.
pub open spec fn next_nonempty(cs: Seq<ContainerView>, ci: int) -> int
    decreases cs.len() - ci when 0 <= ci <= cs.len()
{
    if ci >= cs.len() {
        cs.len() as int
    } else if unit_count(cs[ci]) > 0 {
        ci
    } else {
        next_nonempty(cs, ci + 1)
    }
}

pub proof fn lemma_next_nonempty(cs: Seq<ContainerView>, ci: int)
    requires
        0 <= ci <= cs.len(),
    ensures
        ci <= next_nonempty(cs, ci) <= cs.len(),
        next_nonempty(cs, ci) < cs.len() ==> unit_count(cs[next_nonempty(cs, ci)]) > 0,
        forall|j: int| ci <= j < next_nonempty(cs, ci) ==> unit_count(#[trigger] cs[j]) == 0,
    decreases cs.len() - ci,
{
    if ci < cs.len() && unit_count(cs[ci]) <= 0 {
        lemma_next_nonempty(cs, ci + 1);
    }
}

/// The mathematical content of a [`Session`].
pub ghost struct SessionView {
    pub mode: Mode,
    pub containers: Seq<ContainerView>,
    pub ci: int,
    pub ui: int,
    pub phase: Phase,
    pub agg: AggregatorView,
}

/// What every session state satisfies: the position points at a real unit
/// while grading, the running counters agree with the recorded results, the
/// report is finalized exactly in the terminal phase, and a paused session
/// is interactive and stands on a single-file unit.
pub open spec fn session_wf(s: SessionView) -> bool {
    &&& forall|i: int| 0 <= i < s.containers.len() ==> container_wf(#[trigger] s.containers[i])
    &&& agg_wf(s.agg)
    &&& 0 <= s.ci <= s.containers.len()
    &&& 0 <= s.ui
    &&& (s.phase == Phase::Iterating || s.phase == Phase::AwaitingUser) ==> s.ci
        < s.containers.len() && s.ui < unit_count(s.containers[s.ci])
    &&& s.phase == Phase::AwaitingUser ==> s.mode == Mode::Interactive
        && s.containers[s.ci].kind == ExerciseKind::SingleFile
    &&& (s.phase == Phase::Finalizing || s.phase == Phase::Done) ==> s.ci == s.containers.len()
    &&& (s.agg.finalized <==> s.phase == Phase::Done)
}

/// The state a session starts in: standing on the first container that
/// holds a unit, with an empty report; ready to finalize at once when no
/// container holds any unit.
pub open spec fn spec_start(cs: Seq<ContainerView>, mode: Mode) -> SessionView {
    let ci = next_nonempty(cs, 0);
    SessionView {
        mode,
        containers: cs,
        ci,
        ui: 0,
        phase: if ci < cs.len() {
            Phase::Iterating
        } else {
            Phase::Finalizing
        },
        agg: spec_empty_agg(),
    }
}

/// Moving the position to the first unit of the first non-empty container
/// at or after `from`; when none is left, the session is ready to finalize.
pub open spec fn spec_skip_to(s: SessionView, from: int) -> SessionView {
    let ci = next_nonempty(s.containers, from);
    SessionView {
        ci,
        ui: 0,
        phase: if ci < s.containers.len() {
            Phase::Iterating
        } else {
            Phase::Finalizing
        },
        ..s
    }
}

/// Moving past the unit the session stands on: the next file of the same
/// container when one is left, otherwise the next non-empty container.
pub open spec fn spec_advance(s: SessionView) -> SessionView {
    let c = s.containers[s.ci];
    if c.kind == ExerciseKind::SingleFile && s.ui + 1 < c.files.len() {
        SessionView { ui: s.ui + 1, phase: Phase::Iterating, ..s }
    } else {
        spec_skip_to(s, s.ci + 1)
    }
}

/// The display name of the unit the session stands on.
pub open spec fn spec_current_name(s: SessionView) -> Seq<char> {
    unit_name(s.containers[s.ci], s.ui)
}

/// One verdict goes into the report under the unit's display name; an
/// interactive session then pauses on a single-file unit, and every other
/// session moves on.
pub open spec fn spec_record_unit(s: SessionView, verdict: bool) -> SessionView {
    let s1 = SessionView { agg: spec_record(s.agg, spec_current_name(s), verdict), ..s };
    if s.mode == Mode::Interactive && s.containers[s.ci].kind == ExerciseKind::SingleFile {
        SessionView { phase: Phase::AwaitingUser, ..s1 }
    } else {
        spec_advance(s1)
    }
}

/// Acting on the user's line: quit abandons only the remaining units of the
/// current container and moves to the next one; anything else continues
/// with the next unit.
pub open spec fn spec_user_decision(s: SessionView, line: Seq<char>) -> SessionView {
    if spec_is_quit(line) {
        spec_skip_to(s, s.ci + 1)
    } else {
        spec_advance(s)
    }
}

/// Finalizing: the report's totals are reconciled, the elapsed time is set,
/// and the session is done; no further mutation is possible.
pub open spec fn spec_finalize_session(s: SessionView, elapsed_secs: u64) -> SessionView {
    SessionView { phase: Phase::Done, agg: spec_finalize(s.agg, elapsed_secs), ..s }
}

/// How many evaluable units a container holds.
fn container_units(c: &Container) -> (n: usize)
    ensures
        n as int == unit_count(c@),
{
    match c.kind {
        ExerciseKind::Project => 1,
        ExerciseKind::SingleFile => c.files.len(),
    }
}

/// The index of the first container at or after `from` that holds a unit.
fn next_nonempty_from(containers: &Vec<Container>, from: usize) -> (r: usize)
    requires
        from <= containers.len(),
    ensures
        r as int == next_nonempty(container_views(containers@), from as int),
        from <= r <= containers.len(),
{
    let ghost cvs = container_views(containers@);
    proof {
        lemma_next_nonempty(cvs, from as int);
    }
    let n: usize = containers.len();
    let mut i: usize = from;
    while i < n && container_units(&containers[i]) == 0
        invariant
            from <= i <= n,
            n == containers.len(),
            cvs == container_views(containers@),
            cvs.len() == n,
            next_nonempty(cvs, from as int) == next_nonempty(cvs, i as int),
        decreases n - i,
    {
        assert(cvs[i as int] == containers@[i as int]@);
        assert(next_nonempty(cvs, i as int) == next_nonempty(cvs, i + 1));
        i = i + 1;
    }
    if i < n {
        assert(cvs[i as int] == containers@[i as int]@);
    }
    assert(next_nonempty(cvs, i as int) == i);
    i
}

/// One grading session: the classified containers in discovery order, the
/// mode, the position of the unit being graded, and the accumulating
/// report.
pub struct Session {
    pub mode: Mode,
    pub containers: Vec<Container>,
    pub ci: usize,
    pub ui: usize,
    pub phase: Phase,
    pub agg: Aggregator,
}

impl View for Session {
    type V = SessionView;

    open spec fn view(&self) -> SessionView {
        SessionView {
            mode: self.mode,
            containers: container_views(self.containers@),
            ci: self.ci as int,
            ui: self.ui as int,
            phase: self.phase,
            agg: self.agg@,
        }
    }
}

impl Session {
    /// Begin a session over the classified containers, in discovery order.
    pub fn start(containers: Vec<Container>, mode: Mode) -> (s: Session)
        requires
            forall|i: int|
                0 <= i < containers@.len() ==> container_wf((#[trigger] containers@[i])@),
        ensures
            session_wf(s@),
            s@ == spec_start(container_views(containers@), mode),
    {
        let ghost cvs = container_views(containers@);
        proof {
            lemma_next_nonempty(cvs, 0);
            assert forall|i: int| 0 <= i < cvs.len() implies container_wf(#[trigger] cvs[i]) by {
                assert(cvs[i] == containers@[i]@);
            }
        }
        let ci = next_nonempty_from(&containers, 0);
        let n: usize = containers.len();
        let phase = if ci < n {
            Phase::Iterating
        } else {
            Phase::Finalizing
        };
        Session { mode, containers, ci, ui: 0, phase, agg: Aggregator::new() }
    }

    /// The unit the session stands on, for the caller to grade.
    pub fn current_unit(&self) -> (u: UnitTask)
        requires
            session_wf(self@),
            self@.phase == Phase::Iterating,
        ensures
            u.kind == self@.containers[self@.ci].kind,
            u.dir@ == self@.containers[self@.ci].name,
            u.name@ == spec_current_name(self@),
    {
        let c = &self.containers[self.ci];
        proof {
            assert(self@.containers[self.ci as int] == c@);
        }
        match c.kind {
            ExerciseKind::Project => UnitTask {
                dir: c.name.clone(),
                kind: ExerciseKind::Project,
                name: c.name.clone(),
            },
            ExerciseKind::SingleFile => UnitTask {
                dir: c.name.clone(),
                kind: ExerciseKind::SingleFile,
                name: c.files[self.ui].clone(),
            },
        }
    }

    /// Move past the unit the session stands on.
    fn advance(&mut self)
        requires
            session_wf(old(self)@),
            old(self)@.phase == Phase::Iterating || old(self)@.phase == Phase::AwaitingUser,
        ensures
            session_wf(final(self)@),
            final(self)@ == spec_advance(old(self)@),
    {
        let ghost cvs = self@.containers;
        let c = &self.containers[self.ci];
        proof {
            assert(cvs[self.ci as int] == c@);
            assert(cvs.len() == self.containers@.len());
            assert(self@.ui < unit_count(c@));
        }
        let is_single = match c.kind {
            ExerciseKind::SingleFile => true,
            ExerciseKind::Project => false,
        };
        let units: usize = container_units(c);
        if is_single && self.ui + 1 < units {
            self.ui = self.ui + 1;
            self.phase = Phase::Iterating;
        } else {
            let n: usize = self.containers.len();
            assert(self.ci < n);
            proof {
                lemma_next_nonempty(cvs, self.ci + 1);
            }
            let ci2 = next_nonempty_from(&self.containers, self.ci + 1);
            self.ci = ci2;
            self.ui = 0;
            self.phase = if ci2 < n {
                Phase::Iterating
            } else {
                Phase::Finalizing
            };
        }
    }

    /// Record the verdict of the unit the session stands on, under its
    /// display name. In interactive mode a single-file unit then pauses for
    /// the user's decision; every other unit moves the session on.
    pub fn record_unit(&mut self, verdict: bool)
        requires
            session_wf(old(self)@),
            old(self)@.phase == Phase::Iterating,
        ensures
            session_wf(final(self)@),
            final(self)@ == spec_record_unit(old(self)@, verdict),
    {
        let ghost cvs = self@.containers;
        let c = &self.containers[self.ci];
        proof {
            assert(cvs[self.ci as int] == c@);
        }
        let name: String = match c.kind {
            ExerciseKind::Project => c.name.clone(),
            ExerciseKind::SingleFile => c.files[self.ui].clone(),
        };
        let is_single = match c.kind {
            ExerciseKind::SingleFile => true,
            ExerciseKind::Project => false,
        };
        let is_interactive = match self.mode {
            Mode::Interactive => true,
            Mode::Batch => false,
        };
        self.agg.record(name, verdict);
        if is_interactive && is_single {
            self.phase = Phase::AwaitingUser;
        } else {
            self.advance();
        }
    }

    /// Act on the user's line after a paused single-file unit: quit
    /// abandons only the remaining units of the current container, anything
    /// else continues with the next unit.
    pub fn user_decision(&mut self, line: &str)
        requires
            session_wf(old(self)@),
            old(self)@.phase == Phase::AwaitingUser,
        ensures
            session_wf(final(self)@),
            final(self)@ == spec_user_decision(old(self)@, line@),
    {
        let ghost cvs = self@.containers;
        proof {
            assert(cvs.len() == self.containers@.len());
        }
        if is_quit(line) {
            let n: usize = self.containers.len();
            assert(self.ci < n);
            proof {
                lemma_next_nonempty(cvs, self.ci + 1);
            }
            let ci2 = next_nonempty_from(&self.containers, self.ci + 1);
            self.ci = ci2;
            self.ui = 0;
            self.phase = if ci2 < n {
                Phase::Iterating
            } else {
                Phase::Finalizing
            };
        } else {
            self.advance();
        }
    }

    /// Reconcile the report exactly once, when the containers are
    /// exhausted: the totals are summed and the elapsed session time is
    /// set. The session is then done and admits no further mutation.
    pub fn finalize(&mut self, elapsed_secs: u64)
        requires
            session_wf(old(self)@),
            old(self)@.phase == Phase::Finalizing,
        ensures
            session_wf(final(self)@),
            final(self)@ == spec_finalize_session(old(self)@, elapsed_secs),
            final(self)@.agg.report.statistics.total_exercises
                == final(self)@.agg.report.statistics.total_succeeds
                + final(self)@.agg.report.statistics.total_failures,
    {
        self.agg.finalize(elapsed_secs);
        self.phase = Phase::Done;
    }

    /// The finalized report, as a read-only snapshot for serialization.
    pub fn report(&self) -> (r: &Report)
        requires
            session_wf(self@),
            self@.phase == Phase::Done,
        ensures
            r@ == self@.agg.report,
    {
        self.agg.report()
    }

    /// Where the controller stands.
    pub fn phase(&self) -> (p: Phase)
        ensures
            p == self@.phase,
    {
        self.phase
    }
}

/// Quitting after a paused single-file unit abandons only the remaining
/// units of the current container: nothing further is recorded for it, the
/// controller stands on the next container that holds a unit (skipping only
/// empty ones), and the session itself runs on to its end.
pub proof fn lemma_quit_truncates_current_container(s: SessionView, line: Seq<char>)
    requires
        session_wf(s),
        s.phase == Phase::AwaitingUser,
        spec_is_quit(line),
    ensures
        spec_user_decision(s, line).agg == s.agg,
        spec_user_decision(s, line).containers == s.containers,
        spec_user_decision(s, line).ci >= s.ci + 1,
        spec_user_decision(s, line).phase != Phase::Done,
        forall|j: int|
            s.ci + 1 <= j < spec_user_decision(s, line).ci ==> unit_count(
                #[trigger] s.containers[j],
            ) == 0,
        spec_user_decision(s, line).ci < s.containers.len() ==> spec_user_decision(s, line).phase
            == Phase::Iterating && spec_user_decision(s, line).ui == 0 && unit_count(
            s.containers[spec_user_decision(s, line).ci],
        ) > 0,
        spec_user_decision(s, line).ci >= s.containers.len() ==> spec_user_decision(s, line).phase
            == Phase::Finalizing,
{
    lemma_next_nonempty(s.containers, s.ci + 1);
}

/// One observed event driving a session forward: a graded unit's verdict,
/// the user's line after a pause, or the elapsed time at finalization.
pub ghost enum SessionEvent {
    Unit { verdict: bool },
    User { line: Seq<char> },
    Finalize { elapsed_secs: u64 },
}

/// The state after one event. An event that does not fit the phase the
/// session stands in changes nothing.
pub open spec fn spec_step(s: SessionView, e: SessionEvent) -> SessionView {
    match e {
        SessionEvent::Unit { verdict } => if s.phase == Phase::Iterating {
            spec_record_unit(s, verdict)
        } else {
            s
        },
        SessionEvent::User { line } => if s.phase == Phase::AwaitingUser {
            spec_user_decision(s, line)
        } else {
            s
        },
        SessionEvent::Finalize { elapsed_secs } => if s.phase == Phase::Finalizing {
            spec_finalize_session(s, elapsed_secs)
        } else {
            s
        },
    }
}

/// The state after a whole sequence of events.
pub open spec fn spec_run(s: SessionView, events: Seq<SessionEvent>) -> SessionView
    decreases events.len(),
{
    if events.len() == 0 {
        s
    } else {
        spec_run(spec_step(s, events[0]), events.drop_first())
    }
}

/// A session is a function of its inputs alone: two sessions started over
/// the same container tree in the same mode and driven by the same events
/// (the same toolchain outcomes and user lines, in the same order) end in
/// the same state — the same per-unit results in the same order and the
/// same statistics. Running an unmodified tree twice with a deterministic
/// toolchain therefore yields identical reports.
pub proof fn lemma_session_deterministic(
    cs1: Seq<ContainerView>,
    cs2: Seq<ContainerView>,
    mode: Mode,
    events: Seq<SessionEvent>,
)
    requires
        cs1 == cs2,
    ensures
        spec_run(spec_start(cs1, mode), events) == spec_run(spec_start(cs2, mode), events),
        spec_run(spec_start(cs1, mode), events).agg.report == spec_run(
            spec_start(cs2, mode),
            events,
        ).agg.report,
{
}

/// One event out of a well-formed session state leads to a well-formed
/// state, on the same container tree, with at most one more result.
pub proof fn lemma_step_preserves_wf(s: SessionView, e: SessionEvent)
    requires
        session_wf(s),
        s.agg.report.results.len() < usize::MAX,
    ensures
        session_wf(spec_step(s, e)),
        spec_step(s, e).containers == s.containers,
        spec_step(s, e).agg.report.results.len() <= s.agg.report.results.len() + 1,
{
    match e {
        SessionEvent::Unit { verdict } => {
            if s.phase == Phase::Iterating {
                lemma_record_preserves_wf(s.agg, spec_current_name(s), verdict);
                lemma_next_nonempty(s.containers, s.ci + 1);
            }
        },
        SessionEvent::User { line } => {
            if s.phase == Phase::AwaitingUser {
                lemma_next_nonempty(s.containers, s.ci + 1);
            }
        },
        SessionEvent::Finalize { elapsed_secs } => {
            if s.phase == Phase::Finalizing {
                lemma_finalize_preserves_wf(s.agg, elapsed_secs);
            }
        },
    }
}

/// A whole event sequence out of a well-formed session state leads to a
/// well-formed state, as long as every result can still be counted.
pub proof fn lemma_run_preserves_wf(s: SessionView, events: Seq<SessionEvent>)
    requires
        session_wf(s),
        s.agg.report.results.len() + events.len() <= usize::MAX,
    ensures
        session_wf(spec_run(s, events)),
    decreases events.len(),
{
    if events.len() > 0 {
        lemma_step_preserves_wf(s, events[0]);
        lemma_run_preserves_wf(spec_step(s, events[0]), events.drop_first());
    }
}

/// Whatever the container tree, the mode, and the events that drove the
/// session: every reachable state is well-formed, and in every session that
/// reached its end the totals reconcile — the number of exercises equals
/// the number of successes plus the number of failures.
pub proof fn lemma_every_finished_session_reconciles(
    cs: Seq<ContainerView>,
    mode: Mode,
    events: Seq<SessionEvent>,
)
    requires
        forall|i: int| 0 <= i < cs.len() ==> container_wf(#[trigger] cs[i]),
        events.len() <= usize::MAX,
    ensures
        session_wf(spec_run(spec_start(cs, mode), events)),
        spec_run(spec_start(cs, mode), events).phase == Phase::Done ==> spec_run(
            spec_start(cs, mode),
            events,
        ).agg.report.statistics.total_exercises == spec_run(
            spec_start(cs, mode),
            events,
        ).agg.report.statistics.total_succeeds + spec_run(
            spec_start(cs, mode),
            events,
        ).agg.report.statistics.total_failures,
{
    lemma_next_nonempty(cs, 0);
    lemma_run_preserves_wf(spec_start(cs, mode), events);
    let end = spec_run(spec_start(cs, mode), events);
    if end.phase == Phase::Done {
        lemma_totals_reconcile(end.agg);
    }
}

} // verus!
