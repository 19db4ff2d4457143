use task_supervisor::job::Draw;
use task_supervisor::random::draw;
use task_supervisor::supervisor::{run_with, survivors, Completion};

fn names(list: &[&str]) -> Vec<String> {
    list.iter().map(|name| name.to_string()).collect()
}

fn works() -> Draw {
    Draw::new(2, false).unwrap()
}

fn fails() -> Draw {
    Draw::new(2, true).unwrap()
}

#[test]
fn test_multiple_tasks() {
    let tasks = names(&["Task A", "Task B", "Task C"]);
    let draws = vec![draw(), draw(), draw()];
    let results = run_with(&tasks, &draws).unwrap();
    assert_eq!(results.len(), 3);
}

#[test]
fn four_tasks_without_failure_all_succeed() {
    let tasks = names(&["Task 1", "Task 2", "Task 3", "Task 4"]);
    let draws = vec![
        Draw::new(2, false).unwrap(),
        Draw::new(3, false).unwrap(),
        Draw::new(4, false).unwrap(),
        Draw::new(2, false).unwrap(),
    ];
    assert_eq!(run_with(&tasks, &draws), Some(vec![Ok(()), Ok(()), Ok(()), Ok(())]));
}

#[test]
fn failure_of_the_second_task_only() {
    let tasks = names(&["Task 1", "Task 2", "Task 3", "Task 4"]);
    let draws = vec![works(), fails(), works(), works()];
    assert_eq!(
        run_with(&tasks, &draws),
        Some(vec![Ok(()), Err("Task 2 failed".to_string()), Ok(()), Ok(())])
    );
}

#[test]
fn no_tasks_no_outcomes() {
    assert_eq!(run_with(&Vec::new(), &Vec::new()), Some(Vec::new()));
}

#[test]
fn every_task_may_fail() {
    let tasks = names(&["a", "b", "c"]);
    let draws = vec![fails(), fails(), fails()];
    assert_eq!(
        run_with(&tasks, &draws),
        Some(vec![
            Err("a failed".to_string()),
            Err("b failed".to_string()),
            Err("c failed".to_string()),
        ])
    );
}

#[test]
fn outcomes_follow_the_order_of_the_names() {
    let tasks = names(&["slow", "quick", "slower"]);
    let draws = vec![
        Draw::new(4, true).unwrap(),
        Draw::new(2, false).unwrap(),
        Draw::new(4, true).unwrap(),
    ];
    assert_eq!(
        run_with(&tasks, &draws),
        Some(vec![Err("slow failed".to_string()), Ok(()), Err("slower failed".to_string())])
    );
}

#[test]
fn equal_names_get_an_outcome_each() {
    let tasks = names(&["twin", "twin"]);
    let draws = vec![fails(), works()];
    assert_eq!(run_with(&tasks, &draws), Some(vec![Err("twin failed".to_string()), Ok(())]));
}

#[test]
fn as_many_outcomes_as_names() {
    for n in 0..40usize {
        let tasks: Vec<String> = (0..n).map(|i| format!("Task {}", i)).collect();
        let draws: Vec<Draw> = (0..n).map(|_| draw()).collect();
        let outcomes = run_with(&tasks, &draws).unwrap();
        assert_eq!(outcomes.len(), n);
        for i in 0..n {
            if draws[i].fails() {
                assert_eq!(outcomes[i], Err(format!("Task {} failed", i)));
            } else {
                assert_eq!(outcomes[i], Ok(()));
            }
        }
    }
}

#[test]
fn draws_must_be_as_many_as_names() {
    let tasks = names(&["Task 1", "Task 2"]);
    assert_eq!(run_with(&tasks, &vec![works()]), None);
    assert_eq!(run_with(&tasks, &vec![works(), works(), works()]), None);
    assert_eq!(run_with(&tasks, &Vec::new()), None);
    assert_eq!(run_with(&Vec::new(), &vec![works()]), None);
}

#[test]
fn crash_of_one_unit_leaves_the_others() {
    let batch = vec![
        Completion::Finished(Ok(())),
        Completion::Crashed("task 2 panicked".to_string()),
        Completion::Finished(Ok(())),
        Completion::Finished(Ok(())),
    ];
    assert_eq!(survivors(&batch), vec![Ok(()), Ok(()), Ok(())]);
}

#[test]
fn survivors_keep_their_order_and_their_failures() {
    let batch = vec![
        Completion::Crashed("first".to_string()),
        Completion::Finished(Err("Task 2 failed".to_string())),
        Completion::Finished(Ok(())),
        Completion::Crashed("last".to_string()),
        Completion::Finished(Err("Task 5 failed".to_string())),
    ];
    assert_eq!(
        survivors(&batch),
        vec![Err("Task 2 failed".to_string()), Ok(()), Err("Task 5 failed".to_string())]
    );
}

#[test]
fn nothing_survives_where_every_unit_crashed() {
    let batch = vec![Completion::Crashed("a".to_string()), Completion::Crashed("b".to_string())];
    assert_eq!(survivors(&batch), Vec::new());
    assert_eq!(survivors(&Vec::new()), Vec::new());
}

#[test]
fn every_outcome_of_a_run_survives() {
    let tasks = names(&["Task 1", "Task 2", "Task 3"]);
    let outcomes = run_with(&tasks, &vec![works(), fails(), works()]).unwrap();
    let batch: Vec<Completion> = outcomes.iter().cloned().map(Completion::Finished).collect();
    assert_eq!(survivors(&batch), outcomes);
}
