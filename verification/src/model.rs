//! The startup as a mathematical state machine, and what holds of every
//! state that it can reach.

use crate::lifecycle::{outcome_of, Outcome, Phase};
use crate::plan::{lemma_registrations_of_prefix, registrations, startup_plan, Action};
use crate::plugin::{required_plugins, Plugin};
use vstd::prelude::*;

verus! {

/// The state of a startup: the actions issued so far and, once the run call
/// has returned, the outcome.
pub struct BootstrapView {
    pub issued: Seq<Action>,
    pub outcome: Option<Outcome>,
}

/// What can be asked of the machine.
pub enum Input {
    /// Ask for the next action of the startup plan.
    Advance,
    /// Report that the run call has returned, and whether it succeeded.
    Conclude(bool),
}

impl BootstrapView {
    /// The state before anything has been done.
    pub open spec fn initial() -> BootstrapView {
        BootstrapView { issued: Seq::empty(), outcome: None }
    }

    /// The actions issued are the startup plan up to some point, and an
    /// outcome is known only after the whole plan has been issued.
    pub open spec fn wf(self) -> bool {
        &&& self.issued.len() <= startup_plan().len()
        &&& self.issued == startup_plan().take(self.issued.len() as int)
        &&& self.outcome is Some ==> self.issued == startup_plan()
    }

    /// The phase of the application's life: terminated once there is an
    /// outcome, running once the run call is the last action issued, not
    /// started before that.
    pub open spec fn phase(self) -> Phase {
        if self.outcome is Some {
            Phase::Terminated
        } else if self.issued.len() > 0 && self.issued.last() == Action::Run {
            Phase::Running
        } else {
            Phase::NotStarted
        }
    }

    /// The plugins that the builder has received so far, in the order of
    /// their registration.
    pub open spec fn registered(self) -> Seq<Plugin> {
        registrations(self.issued)
    }

    /// Whether the setup hook has been attached to the builder.
    pub open spec fn hook_installed(self) -> bool {
        self.issued.contains(Action::InstallHook)
    }

    /// The state after asking for the next action, and the action issued.
    /// Before the run call this is the next action of the plan; from the
    /// run call on there is none and the state stays as it is.
    pub open spec fn advance(self) -> (BootstrapView, Option<Action>) {
        if self.phase() == Phase::NotStarted && self.issued.len() < startup_plan().len() {
            let action = startup_plan()[self.issued.len() as int];
            (
                BootstrapView { issued: self.issued.push(action), outcome: self.outcome },
                Some(action),
            )
        } else {
            (self, None)
        }
    }

    /// The state after a report that the run call has returned, and the
    /// outcome decided. While running the outcome follows from the report;
    /// in any other phase there is none and the state stays as it is.
    pub open spec fn conclude(self, run_succeeded: bool) -> (BootstrapView, Option<Outcome>) {
        if self.phase() == Phase::Running {
            let outcome = outcome_of(run_succeeded);
            (BootstrapView { issued: self.issued, outcome: Some(outcome) }, Some(outcome))
        } else {
            (self, None)
        }
    }

    /// The state after one input.
    pub open spec fn apply(self, input: Input) -> BootstrapView {
        match input {
            Input::Advance => self.advance().0,
            Input::Conclude(run_succeeded) => self.conclude(run_succeeded).0,
        }
    }

    /// The state that a fresh machine is in after a sequence of inputs.
    pub open spec fn after(inputs: Seq<Input>) -> BootstrapView
        decreases inputs.len(),
    {
        if inputs.len() == 0 {
            BootstrapView::initial()
        } else {
            BootstrapView::after(inputs.drop_last()).apply(inputs.last())
        }
    }
}

/// The initial state is well-formed, and the application has not started
/// in it.
pub proof fn lemma_initial_is_well_formed()
    ensures
        BootstrapView::initial().wf(),
        BootstrapView::initial().phase() == Phase::NotStarted,
{
    assert(startup_plan().take(0) == Seq::<Action>::empty());
}

/// A well-formed state stays well-formed whatever is asked of it.
pub proof fn lemma_well_formedness_is_kept(state: BootstrapView, input: Input)
    requires
        state.wf(),
    ensures
        state.apply(input).wf(),
{
    let plan = startup_plan();
    let count = state.issued.len() as int;
    if state.phase() == Phase::NotStarted && count < plan.len() {
        assert(plan.take(count + 1) == plan.take(count).push(plan[count]));
    }
    if state.phase() == Phase::Running {
        assert(state.issued.last() == plan[count - 1]);
        assert(plan.take(count) == plan);
    }
}

/// In a well-formed state the run call has been made exactly if the whole
/// startup plan has been issued.
pub proof fn lemma_started_iff_plan_issued(state: BootstrapView)
    requires
        state.wf(),
    ensures
        state.phase() != Phase::NotStarted <==> state.issued == startup_plan(),
{
    let plan = startup_plan();
    let count = state.issued.len() as int;
    if count == plan.len() {
        assert(plan.take(count) == plan);
    } else if count > 0 {
        assert(state.issued.last() == plan[count - 1]);
    }
}

/// In every well-formed state in which the run call has been made, the
/// builder has received the setup hook and exactly the required plugins;
/// before that it has received no plugin but the required ones, in their
/// order.
pub proof fn theorem_started_with_required_plugins(state: BootstrapView)
    requires
        state.wf(),
    ensures
        state.phase() != Phase::NotStarted ==> state.registered() == required_plugins()
            && state.hook_installed(),
        state.registered().is_prefix_of(required_plugins()),
{
    let plan = startup_plan();
    let count = state.issued.len() as int;
    lemma_registrations_of_prefix(count);
    lemma_started_iff_plan_issued(state);
    if count <= 2 {
        assert(Seq::<Plugin>::empty().is_prefix_of(required_plugins()));
    } else if count <= 5 {
        assert(required_plugins().take(count - 2).is_prefix_of(required_plugins()));
    }
    if state.phase() != Phase::NotStarted {
        assert(plan[1] == Action::InstallHook);
    }
}

/// The application never starts with another set of plugins: whatever is
/// asked of a fresh machine, and in whatever order, once the run call has
/// been made the builder has received the setup hook and exactly the
/// required plugins.
pub proof fn theorem_no_run_without_required_plugins(inputs: Seq<Input>)
    ensures
        BootstrapView::after(inputs).wf(),
        BootstrapView::after(inputs).phase() != Phase::NotStarted ==> BootstrapView::after(
            inputs,
        ).registered() == required_plugins() && BootstrapView::after(inputs).hook_installed(),
    decreases inputs.len(),
{
    if inputs.len() == 0 {
        lemma_initial_is_well_formed();
    } else {
        theorem_no_run_without_required_plugins(inputs.drop_last());
        lemma_well_formedness_is_kept(BootstrapView::after(inputs.drop_last()), inputs.last());
    }
    theorem_started_with_required_plugins(BootstrapView::after(inputs));
}

/// Once the run call has returned nothing further happens: no action is
/// issued, no outcome is decided again, and the state stays as it is.
pub proof fn lemma_terminated_is_final(state: BootstrapView, input: Input)
    requires
        state.phase() == Phase::Terminated,
    ensures
        state.advance() == (state, None::<Action>),
        forall|run_succeeded: bool| state.conclude(run_succeeded) == (state, None::<Outcome>),
        state.apply(input) == state,
{
}

/// A run call that reports failure ends the application's life with an
/// abort, and one that reports success with a normal exit.
pub proof fn lemma_run_report_decides_outcome(state: BootstrapView, run_succeeded: bool)
    requires
        state.phase() == Phase::Running,
    ensures
        state.conclude(run_succeeded).1 == Some(outcome_of(run_succeeded)),
        state.conclude(run_succeeded).0.phase() == Phase::Terminated,
        state.conclude(run_succeeded).0.outcome == Some(outcome_of(run_succeeded)),
        state.conclude(false).1 == Some(Outcome::Aborted),
        state.conclude(true).1 == Some(Outcome::Exited),
{
}

} // verus!
