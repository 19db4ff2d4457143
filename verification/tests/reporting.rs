use task_supervisor::event::{LogEvent, Severity};
use task_supervisor::job::Draw;
use task_supervisor::report::report;
use task_supervisor::supervisor::{run_with, Completion};

fn info(message: &str) -> LogEvent {
    LogEvent { severity: Severity::Info, message: message.to_string() }
}

fn error(message: &str) -> LogEvent {
    LogEvent { severity: Severity::Error, message: message.to_string() }
}

#[test]
fn clean_batch_is_reported_by_the_shutdown_line() {
    let batch = vec![Completion::Finished(Ok(())), Completion::Finished(Ok(()))];
    assert_eq!(report(&batch), vec![info("Shutting down gracefully")]);
}

#[test]
fn empty_batch_is_reported_by_the_shutdown_line() {
    assert_eq!(report(&Vec::new()), vec![info("Shutting down gracefully")]);
}

#[test]
fn failed_job_gets_an_error_line() {
    let batch = vec![
        Completion::Finished(Ok(())),
        Completion::Finished(Err("Task 2 failed".to_string())),
        Completion::Finished(Ok(())),
    ];
    assert_eq!(
        report(&batch),
        vec![
            error("Task failure detected: Task 2 failed. Initiating shutdown..."),
            info("Shutting down gracefully"),
        ]
    );
}

#[test]
fn crashed_unit_gets_an_error_line() {
    let batch = vec![
        Completion::Finished(Ok(())),
        Completion::Crashed("task 7 panicked".to_string()),
    ];
    assert_eq!(
        report(&batch),
        vec![
            error("Critical failure detected: task 7 panicked. Initiating shutdown..."),
            info("Shutting down gracefully"),
        ]
    );
}

#[test]
fn crash_and_failure_are_told_apart() {
    let crashed = report(&vec![Completion::Crashed("Task 2 failed".to_string())]);
    let failed = report(&vec![Completion::Finished(Err("Task 2 failed".to_string()))]);
    assert_eq!(crashed.len(), 2);
    assert_eq!(failed.len(), 2);
    assert_ne!(crashed[0], failed[0]);
    assert_eq!(crashed[0].severity, Severity::Error);
    assert_eq!(failed[0].severity, Severity::Error);
    assert_eq!(crashed[1], failed[1]);
}

#[test]
fn report_ends_gracefully_even_where_every_unit_went_wrong() {
    let batch = vec![
        Completion::Finished(Err("Task 1 failed".to_string())),
        Completion::Crashed("task 9 was cancelled".to_string()),
        Completion::Finished(Err("Task 3 failed".to_string())),
    ];
    assert_eq!(
        report(&batch),
        vec![
            error("Task failure detected: Task 1 failed. Initiating shutdown..."),
            error("Critical failure detected: task 9 was cancelled. Initiating shutdown..."),
            error("Task failure detected: Task 3 failed. Initiating shutdown..."),
            info("Shutting down gracefully"),
        ]
    );
}

#[test]
fn empty_descriptions_are_reported_too() {
    let batch = vec![Completion::Crashed(String::new()), Completion::Finished(Err(String::new()))];
    assert_eq!(
        report(&batch),
        vec![
            error("Critical failure detected: . Initiating shutdown..."),
            error("Task failure detected: . Initiating shutdown..."),
            info("Shutting down gracefully"),
        ]
    );
}

#[test]
fn crash_among_successes_is_reported_alone() {
    let names: Vec<String> = vec!["Task 1".to_string(), "Task 3".to_string()];
    let draws = vec![Draw::new(2, false).unwrap(), Draw::new(3, false).unwrap()];
    let mut outcomes = run_with(&names, &draws).unwrap().into_iter();
    let batch = vec![
        Completion::Finished(outcomes.next().unwrap()),
        Completion::Crashed("task 2 panicked".to_string()),
        Completion::Finished(outcomes.next().unwrap()),
    ];
    assert_eq!(
        report(&batch),
        vec![
            error("Critical failure detected: task 2 panicked. Initiating shutdown..."),
            info("Shutting down gracefully"),
        ]
    );
}

#[test]
fn report_of_a_run_names_each_failed_task() {
    let names: Vec<String> = (1..=4).map(|i| format!("Task {}", i)).collect();
    let draws = vec![
        Draw::new(2, true).unwrap(),
        Draw::new(3, false).unwrap(),
        Draw::new(4, false).unwrap(),
        Draw::new(2, true).unwrap(),
    ];
    let batch: Vec<Completion> =
        run_with(&names, &draws).unwrap().into_iter().map(Completion::Finished).collect();
    assert_eq!(
        report(&batch),
        vec![
            error("Task failure detected: Task 1 failed. Initiating shutdown..."),
            error("Task failure detected: Task 4 failed. Initiating shutdown..."),
            info("Shutting down gracefully"),
        ]
    );
}
