//! The boot sequence as a machine that decides and a caller that acts.
//!
//! The machine hands out one action at a time. The caller performs it and
//! reports what came of it; the machine answers with the next action. The
//! first failure halts the machine for good: from then on it hands out nothing
//! but the order to abort.

use vstd::prelude::*;
use crate::errors::{check_err, CallError, Fatal};
use crate::exec::{exec, exec_returned, handoff, handoff_failure, ExecCall, ExecCallView};
use crate::mount::{mount, MountCall, MountCallView, MountRequest};
use crate::plan::{
    is_inside, lemma_inner_mounts_follow_overlay, lemma_plan_valid, merged_root, overlay_mount,
    plan, step_at, Step, StepView, HANDOFF_STEP, OVERLAY_STEP, STEPS,
};

verus! {

/// What the caller reports of the action that it was handed last.
#[derive(Clone, Copy, Debug, PartialEq, Eq, Structural)]
pub enum Outcome {
    /// The directory exists now.
    DirCreated,
    /// The directory could not be created.
    DirFailed,
    /// A mount or a handoff, made at `line`, returned `ret`; `errno` is the
    /// operating system's error number after it.
    Returned { ret: i32, line: u32, errno: i32 },
}

/// What the caller is to do next.
#[derive(Debug, PartialEq, Eq)]
pub enum Action {
    /// Create the directory, and every parent of it that is missing.
    CreateDir { path: String },
    /// Issue the mount.
    Mount { call: MountCall },
    /// Replace the process image.
    Exec { handoff: ExecCall },
    /// Give up: report the cause and terminate.
    Abort { cause: Fatal },
}

/// What an [`Action`] holds.
#[verifier::ext_equal]
pub enum ActionView {
    CreateDir { path: Seq<char> },
    Mount { call: MountCallView },
    Exec { handoff: ExecCallView },
    Abort { cause: Fatal },
}

impl View for Action {
    type V = ActionView;

    open spec fn view(&self) -> ActionView {
        match self {
            Action::CreateDir { path } => ActionView::CreateDir { path: path@ },
            Action::Mount { call } => ActionView::Mount { call: call@ },
            Action::Exec { handoff } => ActionView::Exec { handoff: handoff@ },
            Action::Abort { cause } => ActionView::Abort { cause: *cause },
        }
    }
}

/// Where the boot sequence stands.
pub enum Phase {
    /// The first `done` steps of the plan have succeeded, and the step after
    /// them is in the caller's hands.
    Bootstrapping { done: nat },
    /// A step has failed. Nothing further is attempted.
    Halted { cause: Fatal },
}

impl Phase {
    /// A phase that a run can be in: while bootstrapping, a step is left.
    pub open spec fn well_formed(self) -> bool {
        self matches Phase::Bootstrapping { done } ==> done < STEPS
    }
}

/// A report of failure. Everything else lets a step that can succeed go on.
pub open spec fn is_failure(outcome: Outcome) -> bool {
    match outcome {
        Outcome::DirCreated => false,
        Outcome::DirFailed => true,
        Outcome::Returned { ret, line, errno } => ret != 0,
    }
}

/// What an outcome means for the step that it is reported of: the cause to
/// halt for, or none when the step succeeded. A handoff cannot succeed as far
/// as the caller will ever see: that it came back is a failure by itself.
pub open spec fn verdict(step: StepView, outcome: Outcome) -> Option<Fatal> {
    match outcome {
        Outcome::DirFailed => Some(Fatal::Directory),
        Outcome::DirCreated => if step is Handoff {
            Some(Fatal::HandoffReturned)
        } else {
            None
        },
        Outcome::Returned { ret, line, errno } => if step is Handoff {
            Some(handoff_failure(ret, line, errno))
        } else if ret != 0 {
            Some(Fatal::Call(CallError { line, ret, errno }))
        } else {
            None
        },
    }
}

/// The action that carries out a step of the plan.
pub open spec fn perform(step: StepView) -> ActionView {
    match step {
        StepView::CreateDir { path } => ActionView::CreateDir { path },
        StepView::Mount { request } => ActionView::Mount { call: request.flat() },
        StepView::Handoff { args } => ActionView::Exec { handoff: handoff(args) },
    }
}

/// The phase in which every run starts.
pub open spec fn initial() -> Phase {
    Phase::Bootstrapping { done: 0 }
}

/// The action that is in the caller's hands in a phase.
pub open spec fn pending(phase: Phase) -> ActionView {
    match phase {
        Phase::Bootstrapping { done } => perform(plan()[done as int]),
        Phase::Halted { cause } => ActionView::Abort { cause },
    }
}

/// The phase that follows when `outcome` is reported of the pending action.
pub open spec fn next(phase: Phase, outcome: Outcome) -> Phase {
    match phase {
        Phase::Bootstrapping { done } => match verdict(plan()[done as int], outcome) {
            Some(cause) => Phase::Halted { cause },
            None => Phase::Bootstrapping { done: done + 1 },
        },
        Phase::Halted { cause } => phase,
    }
}

/// The phase that a run is in after the caller has reported `outcomes`, one
/// for each action that it was handed, in order.
pub open spec fn run(outcomes: Seq<Outcome>) -> Phase
    decreases outcomes.len(),
{
    if outcomes.len() == 0 {
        initial()
    } else {
        next(run(outcomes.drop_last()), outcomes.last())
    }
}

/// The boot sequence in progress.
///
/// A `Boot` remembers, for the proofs only, every outcome that was reported
/// to it: the phase that it is in is the phase of that run.
pub struct Boot {
    done: usize,
    halted: Option<Fatal>,
    reported: Ghost<Seq<Outcome>>,
}

impl View for Boot {
    type V = Phase;

    closed spec fn view(&self) -> Phase {
        match self.halted {
            Some(cause) => Phase::Halted { cause },
            None => Phase::Bootstrapping { done: self.done as nat },
        }
    }
}

fn perform_step(step: Step) -> (action: Action)
    requires
        step@.valid(),
    ensures
        action@ == perform(step@),
{
    match step {
        Step::CreateDir { path } => Action::CreateDir { path },
        Step::Mount { request } => {
            let MountRequest { source, target, fstype, flags, options } = request;
            Action::Mount {
                call: mount(source.as_str(), target.as_str(), fstype.as_str(), flags, options),
            }
        },
        Step::Handoff { args } => Action::Exec { handoff: exec(args) },
    }
}

impl Boot {
    #[verifier::type_invariant]
    spec fn inv(self) -> bool {
        &&& self.done < STEPS
        &&& self@ == run(self.reported@)
    }

    /// The outcomes that have been reported so far, in order.
    pub closed spec fn reported(&self) -> Seq<Outcome> {
        self.reported@
    }

    /// A boot sequence of which nothing has been attempted yet.
    pub fn new() -> (boot: Boot)
        ensures
            boot.reported() == Seq::<Outcome>::empty(),
            boot@ == initial(),
    {
        Boot { done: 0, halted: None, reported: Ghost(Seq::empty()) }
    }

    /// The action that is in the caller's hands.
    pub fn action(&self) -> (action: Action)
        ensures
            self@ == run(self.reported()),
            action@ == pending(self@),
    {
        proof {
            use_type_invariant(self);
        }
        match self.halted {
            Some(cause) => Action::Abort { cause },
            None => perform_step(step_at(self.done).unwrap()),
        }
    }

    /// Takes the caller's report of the pending action and hands out the
    /// action that follows.
    pub fn report(&mut self, outcome: Outcome) -> (action: Action)
        ensures
            final(self).reported() == old(self).reported().push(outcome),
            final(self)@ == next(old(self)@, outcome),
            final(self)@ == run(final(self).reported()),
            action@ == pending(final(self)@),
    {
        proof {
            use_type_invariant(&*self);
            lemma_plan_valid();
            assert(self.reported@.push(outcome).drop_last() =~= self.reported@);
        }
        let failure = if self.halted.is_some() {
            self.halted
        } else if self.done == HANDOFF_STEP {
            match outcome {
                Outcome::DirCreated => Some(Fatal::HandoffReturned),
                Outcome::DirFailed => Some(Fatal::Directory),
                Outcome::Returned { ret, line, errno } => Some(exec_returned(ret, line, errno)),
            }
        } else {
            match outcome {
                Outcome::DirCreated => None,
                Outcome::DirFailed => Some(Fatal::Directory),
                Outcome::Returned { ret, line, errno } => match check_err(ret, line, errno) {
                    Ok(()) => None,
                    Err(failure) => Some(Fatal::Call(failure)),
                },
            }
        };
        let done = if failure.is_none() {
            self.done + 1
        } else {
            self.done
        };
        *self = Boot { done, halted: failure, reported: Ghost(self.reported@.push(outcome)) };
        self.action()
    }

    /// Tells whether the sequence has come to a halt.
    pub fn is_halted(&self) -> (halted: bool)
        ensures
            halted == (self@ is Halted),
    {
        self.halted.is_some()
    }
}

/// Every run stays within the plan: while it is bootstrapping, a step is
/// left to hand out.
pub proof fn lemma_run_well_formed(outcomes: Seq<Outcome>)
    ensures
        run(outcomes).well_formed(),
    decreases outcomes.len(),
{
    if outcomes.len() > 0 {
        lemma_run_well_formed(outcomes.drop_last());
    }
}

/// A run is still bootstrapping exactly when no failure has been reported in
/// it and the handoff has not been reported of. It has then come as far in
/// the plan as there are reports.
pub proof fn lemma_run_follows_plan(outcomes: Seq<Outcome>)
    ensures
        run(outcomes) is Bootstrapping <==> outcomes.len() < STEPS && forall|i: int|
            0 <= i < outcomes.len() ==> !is_failure(#[trigger] outcomes[i]),
        run(outcomes) matches Phase::Bootstrapping { done } ==> done == outcomes.len(),
    decreases outcomes.len(),
{
    if outcomes.len() > 0 {
        let front = outcomes.drop_last();
        lemma_run_follows_plan(front);
        lemma_run_well_formed(front);
        assert forall|i: int| 0 <= i < front.len() implies front[i] == outcomes[i] by {}
        assert(outcomes.last() == outcomes[outcomes.len() - 1]);
    }
}

/// Once a run has halted it stays halted, for the same cause.
pub proof fn lemma_halt_is_final(outcomes: Seq<Outcome>, upto: int)
    requires
        0 <= upto <= outcomes.len(),
        run(outcomes.take(upto)) is Halted,
    ensures
        run(outcomes) == run(outcomes.take(upto)),
    decreases outcomes.len() - upto,
{
    if upto < outcomes.len() {
        let front = outcomes.drop_last();
        assert(front.take(upto) =~= outcomes.take(upto));
        lemma_halt_is_final(front, upto);
    } else {
        assert(outcomes.take(upto) =~= outcomes);
    }
}

/// A failure is final: once any report in a run is one of failure, the only
/// action that is handed out from then on is the order to abort. No
/// directory, no mount and no handoff is attempted after it.
pub proof fn lemma_fail_fast(outcomes: Seq<Outcome>, failed: int, later: int)
    requires
        0 <= failed < later <= outcomes.len(),
        is_failure(outcomes[failed]),
    ensures
        run(outcomes.take(later)) is Halted,
        pending(run(outcomes.take(later))) is Abort,
{
    let reported = outcomes.take(later);
    lemma_run_follows_plan(reported);
    assert(is_failure(reported[failed]));
}

/// A run halts for the cause that its first failure gave, whatever is
/// reported after it.
pub proof fn lemma_halt_cause(outcomes: Seq<Outcome>, first: int)
    requires
        0 <= first < outcomes.len(),
        first < STEPS,
        is_failure(outcomes[first]),
        forall|i: int| 0 <= i < first ==> !is_failure(#[trigger] outcomes[i]),
    ensures
        verdict(plan()[first], outcomes[first]) matches Some(cause) && run(outcomes) == (
        Phase::Halted { cause }),
{
    let before = outcomes.take(first);
    let failed = outcomes.take(first + 1);
    assert(failed.drop_last() =~= before);
    assert(failed.last() == outcomes[first]);
    assert forall|i: int| 0 <= i < before.len() implies !is_failure(#[trigger] before[i]) by {
        assert(before[i] == outcomes[i]);
    }
    lemma_run_follows_plan(before);
    lemma_halt_is_final(outcomes, first + 1);
}

/// The copy-on-write mount comes first: when a mount whose target lies
/// inside the merge target is handed out, the copy-on-write mount at the
/// merge target was handed out earlier in the run and was reported to have
/// succeeded.
pub proof fn lemma_overlay_before_inner_mounts(outcomes: Seq<Outcome>, at: int)
    requires
        0 <= at <= outcomes.len(),
        pending(run(outcomes.take(at))) matches ActionView::Mount { call } && is_inside(
            call.target,
            merged_root(),
        ),
    ensures
        OVERLAY_STEP < at,
        pending(run(outcomes.take(OVERLAY_STEP as int))) == (ActionView::Mount {
            call: overlay_mount().flat(),
        }),
        overlay_mount().flat().target == merged_root(),
        !is_failure(outcomes[OVERLAY_STEP as int]),
{
    lemma_inner_mounts_follow_overlay();
    let before = outcomes.take(at);
    let early = outcomes.take(OVERLAY_STEP as int);
    lemma_run_follows_plan(before);
    lemma_run_well_formed(before);
    assert(OVERLAY_STEP < at);
    assert forall|i: int| 0 <= i < early.len() implies !is_failure(#[trigger] early[i]) by {
        assert(early[i] == before[i]);
    }
    lemma_run_follows_plan(early);
    assert(outcomes[OVERLAY_STEP as int] == before[OVERLAY_STEP as int]);
}

/// The handoff is attempted once at most, as the last step, and only after
/// every step before it has been reported to have succeeded.
pub proof fn lemma_handoff_comes_last(outcomes: Seq<Outcome>, at: int)
    requires
        0 <= at <= outcomes.len(),
        pending(run(outcomes.take(at))) is Exec,
    ensures
        at == HANDOFF_STEP,
        forall|i: int| 0 <= i < at ==> !is_failure(#[trigger] outcomes[i]),
        forall|i: int| 0 <= i < at ==> pending(#[trigger] run(outcomes.take(i))) == perform(plan()[i]),
        forall|later: int|
            at < later <= outcomes.len() ==> pending(#[trigger] run(outcomes.take(later)))
                is Abort,
{
    let before = outcomes.take(at);
    lemma_run_follows_plan(before);
    lemma_run_well_formed(before);
    assert forall|i: int| 0 <= i < at implies !is_failure(#[trigger] outcomes[i]) by {
        assert(before[i] == outcomes[i]);
    }
    assert forall|i: int| 0 <= i < at implies pending(#[trigger] run(outcomes.take(i)))
        == perform(plan()[i]) by {
        let early = outcomes.take(i);
        assert forall|k: int| 0 <= k < early.len() implies !is_failure(#[trigger] early[k]) by {
            assert(early[k] == outcomes[k]);
        }
        lemma_run_follows_plan(early);
    }
    assert forall|later: int| at < later <= outcomes.len() implies pending(
        #[trigger] run(outcomes.take(later)),
    ) is Abort by {
        lemma_run_follows_plan(outcomes.take(later));
    }
}

} // verus!
