use iris::registry::{Generator, GeneratorMock, GeneratorRegistry};
use iris::run::{ApplyRun, RunStep};
use iris::state::State;
use iris::{GeneratorType, Strategy};

fn mock(name: &str, g_type: GeneratorType, installed: bool) -> Generator {
    Generator::Mock(GeneratorMock { name: name.to_string(), g_type, installed, strategy: Strategy::Symlink })
}

fn registry() -> GeneratorRegistry {
    GeneratorRegistry::from_generators(vec![
        mock("kitty", GeneratorType::Terminal, true),
        mock("zsh", GeneratorType::Prompt, true),
        mock("alacritty", GeneratorType::Terminal, true),
        mock("btop", GeneratorType::System, false),
    ])
}

fn enabled(names: &[&str]) -> State {
    let mut s = State::new();
    for n in names {
        s.enable_generator(n);
    }
    s
}

#[test]
fn a_run_with_no_active_target_only_warns() {
    colored::control::set_override(false);
    let run = ApplyRun::new(&registry(), &enabled(&["btop"]));
    assert_eq!(run.total(), 0);
    assert_eq!(run.next(), RunStep::NothingToDo);
    assert_eq!(ApplyRun::nothing_to_do_message(), "No targets enabled or installed!");
}

#[test]
fn a_run_visits_the_active_targets_in_listing_order() {
    colored::control::set_override(false);
    let mut run = ApplyRun::new(&registry(), &enabled(&["zsh", "kitty", "alacritty", "btop"]));
    assert_eq!(run.total(), 3);
    assert_eq!(run.header(), "Updating 3 targets ...");
    let mut seen = Vec::new();
    loop {
        match run.next() {
            RunStep::Apply { index, last } => {
                seen.push((run.name(index).to_string(), last));
                assert_eq!(run.updated_message(index), format!("{} updated!", run.name(index)));
                run.record(true);
            }
            RunStep::Finished => break,
            other => panic!("unexpected {:?}", other),
        }
    }
    assert_eq!(
        seen,
        vec![("alacritty".to_string(), false), ("kitty".to_string(), false), ("zsh".to_string(), true)]
    );
    assert_eq!(run.summary(), "All 3 targets were updated!");
}

#[test]
fn a_run_stops_at_the_first_failure() {
    colored::control::set_override(false);
    let mut run = ApplyRun::new(&registry(), &enabled(&["zsh", "kitty", "alacritty"]));
    assert_eq!(run.next(), RunStep::Apply { index: 0, last: false });
    run.record(true);
    assert_eq!(run.next(), RunStep::Apply { index: 1, last: false });
    run.record(false);
    assert_eq!(run.next(), RunStep::Stopped { index: 1 });
    assert_eq!(run.failure_message(1), "Failed to apply theme to `kitty`");
}

#[test]
fn a_parallel_run_reports_each_target_with_its_count() {
    colored::control::set_override(false);
    let run = ApplyRun::new(&registry(), &enabled(&["zsh", "kitty"]));
    assert_eq!(run.parallel_header(), "\u{f06d3} Updating 2 targets in parallel ...\n");
    assert_eq!(run.progress_line(1, 2), "  \u{2713} [2/2] Target `zsh` updated!");
    assert_eq!(ApplyRun::parallel_summary(), "\u{2713} All targets were updated successfully in parallel!");
    let (icon, label) = run.step_label(1);
    assert_eq!(icon, GeneratorType::Prompt.icon());
    assert_eq!(label, "zsh");
}

#[test]
fn operations_stop_at_the_first_failure() {
    use_step_run();
}

fn use_step_run() {
    let outcomes = [true, false, true];
    let mut run = iris::steps::StepRun::new(outcomes.len());
    let mut performed = Vec::new();
    loop {
        match run.next() {
            iris::steps::Step::Perform { index } => {
                performed.push(index);
                run.record(outcomes[index]);
            }
            other => {
                assert_eq!(other, iris::steps::Step::Failed { index: 1 });
                break;
            }
        }
    }
    assert_eq!(performed, vec![0, 1]);

    let mut run = iris::steps::StepRun::new(2);
    run.record(true);
    run.record(true);
    assert_eq!(run.next(), iris::steps::Step::Succeeded);
    assert_eq!(iris::steps::StepRun::new(0).next(), iris::steps::Step::Succeeded);
}
