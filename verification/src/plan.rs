//! The order in which the application is assembled and started.

use crate::plugin::{required_plugins, Plugin};
use vstd::prelude::*;

verus! {

/// One call on the framework's application builder.
#[derive(Clone, Copy, Debug, PartialEq, Eq, Hash, Structural)]
pub enum Action {
    /// Construct the builder with the framework's default settings.
    CreateBuilder,
    /// Attach the setup hook to the builder.
    InstallHook,
    /// Register a capability plugin with the builder.
    Register(Plugin),
    /// Hand the builder the context generated from the bundled
    /// configuration and start the blocking run loop.
    Run,
}

/// Number of actions in the startup plan.
pub const PLAN_LEN: usize = 6;

/// The actions of a startup, in the order in which they are taken.
pub open spec fn startup_plan() -> Seq<Action> {
    seq![
        Action::CreateBuilder,
        Action::InstallHook,
        Action::Register(Plugin::Http),
        Action::Register(Plugin::Geolocation),
        Action::Register(Plugin::Shell),
        Action::Run,
    ]
}

/// The plugins that a sequence of actions registers, in the order of their
/// registration.
pub open spec fn registrations(actions: Seq<Action>) -> Seq<Plugin>
    decreases actions.len(),
{
    if actions.len() == 0 {
        Seq::empty()
    } else {
        let earlier = registrations(actions.drop_last());
        match actions.last() {
            Action::Register(plugin) => earlier.push(plugin),
            _ => earlier,
        }
    }
}

/// The action at a position of the startup plan, if the plan reaches that
/// far.
pub fn planned_action(index: usize) -> (action: Option<Action>)
    ensures
        index < startup_plan().len() ==> action == Some(startup_plan()[index as int]),
        index >= startup_plan().len() ==> action is None,
{
    if index == 0 {
        Some(Action::CreateBuilder)
    } else if index == 1 {
        Some(Action::InstallHook)
    } else if index == 2 {
        Some(Action::Register(Plugin::Http))
    } else if index == 3 {
        Some(Action::Register(Plugin::Geolocation))
    } else if index == 4 {
        Some(Action::Register(Plugin::Shell))
    } else if index == 5 {
        Some(Action::Run)
    } else {
        None
    }
}

/// Appending one action to a sequence appends the plugin it registers, if
/// it registers one, to the sequence's registrations.
pub proof fn lemma_registrations_push(actions: Seq<Action>, action: Action)
    ensures
        registrations(actions.push(action)) == match action {
            Action::Register(plugin) => registrations(actions).push(plugin),
            _ => registrations(actions),
        },
{
    assert(actions.push(action).drop_last() == actions);
    assert(actions.push(action).last() == action);
}

/// The plugins registered by the first `count` actions of the startup plan:
/// none by the first two, one more with each of the three that follow, and
/// none by the run call.
pub proof fn lemma_registrations_of_prefix(count: int)
    requires
        0 <= count <= startup_plan().len(),
    ensures
        count <= 2 ==> registrations(startup_plan().take(count)) == Seq::<Plugin>::empty(),
        2 <= count <= 5 ==> registrations(startup_plan().take(count)) == required_plugins().take(
            count - 2,
        ),
        count == 6 ==> registrations(startup_plan().take(count)) == required_plugins(),
    decreases count,
{
    let plan = startup_plan();
    if count == 0 {
        assert(plan.take(0).len() == 0);
    } else {
        lemma_registrations_of_prefix(count - 1);
        assert(plan.take(count) == plan.take(count - 1).push(plan[count - 1]));
        lemma_registrations_push(plan.take(count - 1), plan[count - 1]);
        if 3 <= count <= 5 {
            assert(required_plugins().take(count - 2) == required_plugins().take(count - 3).push(
                required_plugins()[count - 3],
            ));
        }
        if count == 5 {
            assert(required_plugins().take(3) == required_plugins());
        }
    }
}

/// The run call is the last action of a startup and occurs nowhere before;
/// the actions that precede it attach the setup hook and register exactly
/// the required plugins, each once, in their order.
pub proof fn theorem_plan_registers_required_plugins_before_run()
    ensures
        startup_plan().len() == PLAN_LEN,
        startup_plan().last() == Action::Run,
        forall|i: int| 0 <= i < startup_plan().len() - 1 ==> startup_plan()[i] != Action::Run,
        startup_plan().drop_last().contains(Action::InstallHook),
        registrations(startup_plan().drop_last()) == required_plugins(),
        registrations(startup_plan()) == required_plugins(),
{
    let plan = startup_plan();
    assert(plan.drop_last() == plan.take(5));
    assert(plan.take(6) == plan);
    lemma_registrations_of_prefix(5);
    lemma_registrations_of_prefix(6);
    assert(required_plugins().take(3) == required_plugins());
    assert(plan.drop_last()[1] == Action::InstallHook);
}

} // verus!
