use app_bootstrap::bootstrap::Bootstrap;
use app_bootstrap::hook;
use app_bootstrap::lifecycle::{Outcome, Phase};
use app_bootstrap::plan::Action;
use app_bootstrap::plugin::Plugin;

// Stands in for the framework's builder and records what it receives.
#[derive(Debug, Default, PartialEq)]
struct RecordingBuilder {
    hooks_attached: usize,
    hook_result: Option<bool>,
    plugins: Vec<Plugin>,
    plugins_at_run: Option<Vec<Plugin>>,
}

impl RecordingBuilder {
    fn setup(mut self, hook: impl FnOnce(&mut u32) -> Result<(), String>) -> Self {
        let mut app = 5;
        self.hook_result = Some(hook(&mut app).is_ok() && app == 5);
        self.hooks_attached += 1;
        self
    }

    fn plugin(mut self, plugin: Plugin) -> Self {
        self.plugins.push(plugin);
        self
    }

    fn run(&mut self, succeed: bool) -> Result<(), String> {
        self.plugins_at_run = Some(self.plugins.clone());
        if succeed {
            Ok(())
        } else {
            Err(String::from("no display"))
        }
    }
}

// Makes the calls that the machine asks for, as the entry point does.
fn drive(succeed: bool) -> (RecordingBuilder, Bootstrap, Option<&'static str>) {
    let mut machine = Bootstrap::new();
    let mut builder: Option<RecordingBuilder> = None;
    let mut finished: Option<RecordingBuilder> = None;
    let mut emitted = None;
    while let Some(action) = machine.next_action() {
        builder = match action {
            Action::CreateBuilder => Some(RecordingBuilder::default()),
            Action::InstallHook => builder.map(|b| {
                b.setup(|app| match hook::setup(app) {
                    Ok(()) => Ok(()),
                    Err(never) => match never {},
                })
            }),
            Action::Register(plugin) => builder.map(|b| b.plugin(plugin)),
            Action::Run => {
                let mut assembled = builder.expect("the builder is created before the run call");
                let result = assembled.run(succeed);
                let outcome = machine.conclude(result.is_ok());
                emitted = outcome.and_then(|outcome| outcome.diagnostic());
                finished = Some(assembled);
                None
            }
        };
    }
    (finished.expect("the run call is made"), machine, emitted)
}

#[test]
fn driven_builder_receives_the_three_plugins_before_the_run_call() {
    let (builder, _, _) = drive(true);
    assert_eq!(
        builder.plugins_at_run,
        Some(vec![Plugin::Http, Plugin::Geolocation, Plugin::Shell])
    );
    assert_eq!(
        builder.plugins,
        vec![Plugin::Http, Plugin::Geolocation, Plugin::Shell]
    );
}

#[test]
fn driven_builder_receives_the_hook_once() {
    let (builder, _, _) = drive(true);
    assert_eq!(builder.hooks_attached, 1);
    assert_eq!(builder.hook_result, Some(true));
}

#[test]
fn driven_startup_that_succeeds_exits_without_a_message() {
    let (_, machine, emitted) = drive(true);
    assert_eq!(machine.phase(), Phase::Terminated);
    assert_eq!(machine.outcome(), Some(Outcome::Exited));
    assert_eq!(emitted, None);
}

#[test]
fn driven_startup_that_fails_aborts_with_the_failure_message() {
    let (builder, machine, emitted) = drive(false);
    assert_eq!(machine.phase(), Phase::Terminated);
    assert_eq!(machine.outcome(), Some(Outcome::Aborted));
    assert_eq!(emitted, Some("error while running tauri application"));
    assert_eq!(
        builder.plugins_at_run,
        Some(vec![Plugin::Http, Plugin::Geolocation, Plugin::Shell])
    );
}
