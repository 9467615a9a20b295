//! The startup of the application as a state machine. The machine decides
//! which call on the framework comes next and how the process ends; its
//! caller makes the calls and reports how the run loop returned.

use crate::lifecycle::{Outcome, Phase};
use crate::model::{theorem_started_with_required_plugins, BootstrapView};
use crate::plan::{
    lemma_registrations_of_prefix, planned_action, registrations, startup_plan, Action, PLAN_LEN,
};
use crate::plugin::{required_plugins, Plugin};
use vstd::prelude::*;

verus! {

/// The startup state machine.
pub struct Bootstrap {
    issued: usize,
    outcome: Option<Outcome>,
}

impl View for Bootstrap {
    type V = BootstrapView;

    closed spec fn view(&self) -> BootstrapView {
        BootstrapView { issued: startup_plan().take(self.issued as int), outcome: self.outcome }
    }
}

impl Bootstrap {
    #[verifier::type_invariant]
    spec fn inv(self) -> bool {
        &&& self.issued <= PLAN_LEN
        &&& self.outcome is Some ==> self.issued == PLAN_LEN
    }

    /// A startup of which nothing has been done yet.
    pub fn new() -> (machine: Bootstrap)
        ensures
            machine@ == BootstrapView::initial(),
    {
        let machine = Bootstrap { issued: 0, outcome: None };
        assert(machine@.issued == Seq::<Action>::empty());
        machine
    }

    /// The phase of the application's life.
    pub fn phase(&self) -> (phase: Phase)
        ensures
            phase == self@.phase(),
            self@.wf(),
    {
        proof {
            use_type_invariant(self);
            lemma_view_of_count(self.issued as int, self.outcome);
        }
        if self.outcome.is_some() {
            Phase::Terminated
        } else if self.issued == PLAN_LEN {
            Phase::Running
        } else {
            Phase::NotStarted
        }
    }

    /// The outcome, once the run call has returned.
    pub fn outcome(&self) -> (outcome: Option<Outcome>)
        ensures
            outcome == self@.outcome,
    {
        self.outcome
    }

    /// The plugins that the builder has received so far, in the order of
    /// their registration. Once the run call has been made these are the
    /// required plugins and no others.
    pub fn registered(&self) -> (plugins: Vec<Plugin>)
        ensures
            plugins@ == self@.registered(),
            self@.phase() != Phase::NotStarted ==> plugins@ == required_plugins(),
    {
        proof {
            use_type_invariant(self);
            lemma_view_of_count(self.issued as int, self.outcome);
            theorem_started_with_required_plugins(self@);
        }
        let mut plugins: Vec<Plugin> = Vec::new();
        let mut index: usize = 0;
        assert(startup_plan().take(0) == Seq::<Action>::empty());
        while index < self.issued
            invariant
                index <= self.issued <= PLAN_LEN,
                plugins@ == registrations(startup_plan().take(index as int)),
            decreases self.issued - index,
        {
            proof {
                let plan = startup_plan();
                assert(plan.take(index + 1).drop_last() == plan.take(index as int));
                assert(plan.take(index + 1).last() == plan[index as int]);
            }
            match planned_action(index) {
                Some(Action::Register(plugin)) => {
                    plugins.push(plugin);
                },
                _ => {},
            }
            index = index + 1;
        }
        plugins
    }

    /// Issues the next action of the startup plan. Before the run call this
    /// is the next action of the plan, and the machine records it as
    /// issued; issuing the run call makes the machine running. Once the
    /// run call has been issued there is nothing more to do: the result is
    /// `None` and the machine stays as it is. When the run call is issued,
    /// the actions issued before it have attached the setup hook and
    /// registered exactly the required plugins.
    pub fn next_action(&mut self) -> (action: Option<Action>)
        ensures
            (final(self)@, action) == old(self)@.advance(),
            final(self)@.wf(),
            action == Some(Action::Run) ==> old(self)@.registered() == required_plugins() && old(
                self,
            )@.hook_installed(),
    {
        proof {
            use_type_invariant(&*self);
            lemma_view_of_count(self.issued as int, self.outcome);
        }
        if self.issued < PLAN_LEN {
            proof {
                lemma_run_is_issued_last(self.issued as int);
            }
            let action = planned_action(self.issued);
            self.issued = self.issued + 1;
            proof {
                let plan = startup_plan();
                assert(plan.take(self.issued as int) == plan.take(self.issued - 1).push(
                    plan[self.issued - 1],
                ));
                lemma_view_of_count(self.issued as int, self.outcome);
            }
            action
        } else {
            None
        }
    }

    /// Takes in what the run call reported. While the machine is running
    /// this ends the application's life: the result is the outcome, a
    /// normal exit if the run call succeeded and an abort if it failed. In
    /// any other phase there is no run call to report on: the result is
    /// `None` and the machine stays as it is.
    pub fn conclude(&mut self, run_succeeded: bool) -> (outcome: Option<Outcome>)
        ensures
            (final(self)@, outcome) == old(self)@.conclude(run_succeeded),
            final(self)@.wf(),
    {
        proof {
            use_type_invariant(&*self);
            lemma_view_of_count(self.issued as int, self.outcome);
        }
        if self.issued == PLAN_LEN && self.outcome.is_none() {
            let outcome = Outcome::of_run(run_succeeded);
            self.outcome = Some(outcome);
            proof {
                lemma_view_of_count(self.issued as int, self.outcome);
            }
            Some(outcome)
        } else {
            None
        }
    }
}

/// What the state with a given number of issued actions looks like.
proof fn lemma_view_of_count(count: int, outcome: Option<Outcome>)
    requires
        0 <= count <= PLAN_LEN,
        outcome is Some ==> count == PLAN_LEN,
    ensures
        ({
            let state = BootstrapView { issued: startup_plan().take(count), outcome };
            &&& state.wf()
            &&& state.issued.len() == count
            &&& count == PLAN_LEN <==> state.phase() != Phase::NotStarted
            &&& outcome is Some <==> state.phase() == Phase::Terminated
        }),
{
    let plan = startup_plan();
    let state = BootstrapView { issued: plan.take(count), outcome };
    assert(plan.take(count).len() == count);
    assert(plan.take(count).take(count) == plan.take(count));
    if count == PLAN_LEN {
        assert(plan.take(count) == plan);
    } else if count > 0 {
        assert(plan.take(count).last() == plan[count - 1]);
    }
}

/// The run call is the action at the last position of the plan only, and
/// the actions before it attach the setup hook and register the required
/// plugins.
proof fn lemma_run_is_issued_last(count: int)
    requires
        0 <= count < PLAN_LEN,
    ensures
        startup_plan()[count] == Action::Run ==> {
            &&& count == PLAN_LEN - 1
            &&& registrations(startup_plan().take(count)) == required_plugins()
            &&& startup_plan().take(count).contains(Action::InstallHook)
        },
{
    if count == PLAN_LEN - 1 {
        lemma_registrations_of_prefix(count);
        assert(required_plugins().take(3) == required_plugins());
        assert(startup_plan().take(count)[1] == Action::InstallHook);
    }
}

} // verus!
