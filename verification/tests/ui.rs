use iris::ui::{Logger, Task};

#[test]
fn should_create_logger_in_quiet_mode() {
    let logger: Logger = Logger::new();
    let quiet_logger: Logger = Logger::quiet();

    assert_eq!(logger.quiet, false);
    assert_eq!(quiet_logger.quiet, true);
}

#[test]
fn should_handle_logger_prefix_logic() {
    let logger: Logger = Logger::new();

    assert_eq!(logger.get_prefix(0, true).contains("❯"), true);
    assert_eq!(logger.get_prefix(0, false), "");

    let active: String = logger.get_prefix(1, true);
    let inactive: String = logger.get_prefix(1, false);

    assert!(active.contains("  "));
    assert!(active.contains("❯"));
    assert!(inactive.contains("├─"));
}

#[test]
fn should_build_logger_success_messages() {
    let logger: Logger = Logger::new();

    let out_0: String = logger.build_success_output("Root", 0);
    assert!(out_0.contains("✔"));
    assert!(out_0.contains("Root"));

    let out_1: String = logger.build_success_output("Nested", 1);
    assert!(out_1.contains("├─"));
    assert!(out_1.contains("Nested"));
}

#[test]
fn should_build_logger_warn_and_error_messages() {
    let logger: Logger = Logger::new();

    let warn_out: String = logger.build_warning_output("Warning", 0);
    assert!(warn_out.contains("!"));
    assert!(warn_out.contains("Warning"));

    let err_out: String = logger.build_error_output("Error", 0);
    assert!(err_out.contains("✘"));
    assert!(err_out.contains("Error"));
}

#[test]
fn should_build_logger_info_messages() {
    let output: String = Logger::new().build_info_output("Visible");
    assert!(output.contains("Visible"));
    assert!(output.contains("•") || output.contains("├─"));
}

#[test]
fn should_build_step_output_normal() {
    let logger: Logger = Logger::new();
    let output: String = logger.build_step_output("Test", 0);

    assert!(!output.contains("..."));
    assert!(output.contains("❯"));
}

#[test]
fn should_build_step_output_quiet() {
    let logger: Logger = Logger::quiet();
    let output: String = logger.build_step_output("Test", 0);

    assert!(output.contains("..."));
}

#[test]
fn logger_lines_without_colors() {
    colored::control::set_override(false);
    let logger = Logger::new();
    assert_eq!(logger.get_prefix(2, false), "    ├─ ");
    assert_eq!(logger.build_step_output("Go", 1), "  ❯ Go\n");
    assert_eq!(logger.build_success_output("Ok", 0), " ✔ Ok\n");
    assert_eq!(logger.build_error_output("Bad", 1), "  ├─ ✘ Bad\n");
    assert_eq!(Logger::quiet().build_step_output("Go", 0), "   ❯ Go... ");
}

#[test]
fn should_handle_task_done_branches() {
    let task: Task = Task::new("Step".to_string(), 1, false);

    let output_mid: String = task.build_done_output(false, "");
    assert!(output_mid.contains("├─"));

    let output_last: String = task.build_done_output(true, "");
    assert!(output_last.contains("└─"));
}

#[test]
fn should_handle_task_info_output() {
    let task: Task = Task::new("Parent".to_string(), 1, false);
    let output: String = task.build_info_output("Child info");

    assert!(output.contains("  "));
    assert!(output.contains("•"));
    assert!(output.contains("Child info"));
}

#[test]
fn should_handle_task_drop_output() {
    let task: Task = Task::new("Abandoned".to_string(), 0, false);
    let output: String = task.build_drop_output(false);

    assert!(output.contains("⚠"));
    assert!(output.contains("skipped"));
    assert!(task.build_drop_output(true).contains("failed"));
}

#[test]
fn should_respect_finished_flag_in_done() {
    let mut task: Task = Task::new("Finished".to_string(), 0, false);
    assert!(task.done(true, "").is_some());
    assert!(task.finished);

    assert!(task.done(true, "").is_none());
}

#[test]
fn task_done_line_without_colors() {
    colored::control::set_override(false);
    let task = Task::new("Build".to_string(), 1, false);
    assert_eq!(task.build_done_output(true, " [250ms]"), "  └─ Build ... done [250ms]\n");
    let mut quiet = Task::new("Build".to_string(), 0, true);
    assert_eq!(quiet.done(false, ""), Some("done\n".to_string()));
}
