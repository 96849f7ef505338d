use ext_deno::{Action, Evaluation, Step};

fn pending(evaluation: &Evaluation) -> Option<Step> {
    match evaluation {
        Evaluation::Pending(step) => Some(*step),
        _ => None,
    }
}

fn describe(action: &Action) -> String {
    match action {
        Action::ExecuteModule => "module".to_string(),
        Action::Execute(statement) => format!("execute {}", statement),
        Action::RunEventLoop(wait) => format!("event loop {}", wait),
    }
}

#[test]
fn a_fresh_evaluation_executes_the_module_first() {
    let evaluation = Evaluation::start();
    assert_eq!(pending(&evaluation), Some(Step::ExecuteModule));
    assert!(!evaluation.is_finished());
    assert!(matches!(evaluation.next_action(), Some(Action::ExecuteModule)));
    assert!(evaluation.result().is_none());
}

#[test]
fn steps_follow_each_other() {
    assert_eq!(Step::ExecuteModule.successor(), Some(Step::DispatchLoad));
    assert_eq!(Step::DispatchLoad.successor(), Some(Step::RunEventLoop));
    assert_eq!(Step::RunEventLoop.successor(), Some(Step::DispatchUnload));
    assert_eq!(Step::DispatchUnload.successor(), None);
}

#[test]
fn actions_of_the_steps() {
    assert_eq!(describe(&Step::ExecuteModule.action()), "module");
    assert_eq!(
        describe(&Step::DispatchLoad.action()),
        "execute window.dispatchEvent(new Event('load'))"
    );
    assert_eq!(describe(&Step::RunEventLoop.action()), "event loop false");
    assert_eq!(
        describe(&Step::DispatchUnload.action()),
        "execute window.dispatchEvent(new Event('unload'))"
    );
}

#[test]
fn four_successes_run_the_lifecycle_in_order() {
    let mut evaluation = Evaluation::start();
    let mut seen: Vec<String> = Vec::new();
    while let Some(action) = evaluation.next_action() {
        seen.push(describe(&action));
        evaluation = evaluation.advance(Ok(()));
    }
    assert_eq!(
        seen,
        vec![
            "module".to_string(),
            "execute window.dispatchEvent(new Event('load'))".to_string(),
            "event loop false".to_string(),
            "execute window.dispatchEvent(new Event('unload'))".to_string(),
        ]
    );
    assert!(evaluation.is_finished());
    assert!(matches!(evaluation, Evaluation::Succeeded));
    assert_eq!(evaluation.result(), Some(Ok(String::new())));
}

#[test]
fn the_event_loop_runs_after_load_and_before_unload() {
    let evaluation = Evaluation::start().advance(Ok(()));
    assert_eq!(pending(&evaluation), Some(Step::DispatchLoad));
    let evaluation = evaluation.advance(Ok(()));
    assert_eq!(pending(&evaluation), Some(Step::RunEventLoop));
    let evaluation = evaluation.advance(Ok(()));
    assert_eq!(pending(&evaluation), Some(Step::DispatchUnload));
    let evaluation = evaluation.advance(Ok(()));
    assert_eq!(pending(&evaluation), None);
}

#[test]
fn a_failure_of_the_module_ends_the_evaluation() {
    let evaluation = Evaluation::start().advance(Err("Error: x".to_string()));
    assert!(evaluation.is_finished());
    assert!(evaluation.next_action().is_none());
    assert_eq!(evaluation.result(), Some(Err("Error: x".to_string())));
}

#[test]
fn a_failure_of_each_step_is_the_result() {
    for failing in 0..4_usize {
        let mut evaluation = Evaluation::start();
        let mut performed: usize = 0;
        while evaluation.next_action().is_some() {
            let outcome = if performed == failing {
                Err(format!("step {} failed", failing))
            } else {
                Ok(())
            };
            performed += 1;
            evaluation = evaluation.advance(outcome);
        }
        assert_eq!(performed, failing + 1);
        assert_eq!(evaluation.result(), Some(Err(format!("step {} failed", failing))));
    }
}

#[test]
fn the_first_failure_wins() {
    let evaluation = Evaluation::start()
        .advance(Ok(()))
        .advance(Err("first".to_string()))
        .advance(Err("second".to_string()))
        .advance(Ok(()));
    assert_eq!(evaluation.result(), Some(Err("first".to_string())));
}

#[test]
fn a_finished_evaluation_ignores_outcomes() {
    let evaluation = Evaluation::start()
        .advance(Ok(()))
        .advance(Ok(()))
        .advance(Ok(()))
        .advance(Ok(()))
        .advance(Err("late".to_string()));
    assert!(matches!(evaluation, Evaluation::Succeeded));
    assert_eq!(evaluation.result(), Some(Ok(String::new())));
}

#[test]
fn an_empty_failure_text_is_kept() {
    let evaluation = Evaluation::start().advance(Err(String::new()));
    assert_eq!(evaluation.result(), Some(Err(String::new())));
}
