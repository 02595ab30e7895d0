use theme_picker::error::ThemeError;
use theme_picker::services::driver::{Action, Event};
use theme_picker::services::retry::{
    invoke_with_retry, Acceptance, Progress, Retry, MAX_ATTEMPTS, PAUSE_SECONDS,
};

fn command(rule: Acceptance) -> Retry {
    invoke_with_retry(
        "hyprctl".to_string(),
        vec!["hyprpaper".to_string(), "reload".to_string(), ",/w/a.png".to_string()],
        rule,
    )
}

fn run_action() -> Action {
    Action::Run {
        program: "hyprctl".to_string(),
        args: vec!["hyprpaper".to_string(), "reload".to_string(), ",/w/a.png".to_string()],
    }
}

/// Drives `retry` with the outcomes given, one for each attempt, and
/// returns what the host was asked to do and how the run ended.
fn drive(mut retry: Retry, outcomes: Vec<Event>) -> (Vec<Action>, Option<Result<(), ThemeError>>) {
    let mut asked = Vec::new();
    let mut outcomes = outcomes.into_iter();
    for _ in 0..100 {
        let action = match retry.action() {
            Some(action) => action,
            None => break,
        };
        let answer = match &action {
            Action::Run { .. } => match outcomes.next() {
                Some(outcome) => outcome,
                None => break,
            },
            Action::Sleep { .. } => Event::Done,
            other => panic!("unexpected action {:?}", other),
        };
        asked.push(action);
        retry = retry.advance(answer);
    }
    (asked, retry.outcome())
}

#[test]
fn the_policy_is_five_attempts_one_second_apart() {
    assert_eq!(MAX_ATTEMPTS, 5);
    assert_eq!(PAUSE_SECONDS, 1);
}

#[test]
fn a_command_that_never_matches_is_tried_five_times() {
    let outcomes = (1..=8).map(|i| Event::Text(format!("error {}\n", i))).collect();
    let (asked, outcome) = drive(command(Acceptance::SaysOk), outcomes);
    let mut expected = Vec::new();
    for _ in 0..5 {
        expected.push(run_action());
        expected.push(Action::Sleep { seconds: 1 });
    }
    assert_eq!(asked, expected);
    assert_eq!(outcome, Some(Err(ThemeError::ExhaustedRetries { last: "error 5".to_string() })));
}

#[test]
fn the_first_accepted_output_ends_the_run() {
    let outcomes = vec![
        Event::Text("busy".to_string()),
        Event::Failed("cannot start".to_string()),
        Event::Text(" ok \n".to_string()),
        Event::Text("never asked for".to_string()),
    ];
    let (asked, outcome) = drive(command(Acceptance::SaysOk), outcomes);
    assert_eq!(
        asked,
        vec![
            run_action(),
            Action::Sleep { seconds: 1 },
            run_action(),
            Action::Sleep { seconds: 1 },
            run_action(),
        ]
    );
    assert_eq!(outcome, Some(Ok(())));
}

#[test]
fn success_at_the_first_attempt_takes_no_pause() {
    let (asked, outcome) = drive(command(Acceptance::SaysOk), vec![Event::Text("ok".to_string())]);
    assert_eq!(asked, vec![run_action()]);
    assert_eq!(outcome, Some(Ok(())));
}

#[test]
fn success_at_the_last_attempt_counts() {
    let mut outcomes: Vec<Event> = (0..4).map(|_| Event::Text("no".to_string())).collect();
    outcomes.push(Event::Text("ok".to_string()));
    let (asked, outcome) = drive(command(Acceptance::SaysOk), outcomes);
    assert_eq!(asked.len(), 9);
    assert_eq!(outcome, Some(Ok(())));
}

#[test]
fn each_rule_accepts_its_own_output_only() {
    for (rule, output, accepted) in [
        (Acceptance::SaysOk, "ok", true),
        (Acceptance::SaysOk, "  ok\n", true),
        (Acceptance::SaysOk, "", false),
        (Acceptance::SaysOk, "OK", false),
        (Acceptance::SaysOk, "okay", false),
        (Acceptance::SaysOk, "o k", false),
        (Acceptance::SaysNothing, "", true),
        (Acceptance::SaysNothing, " \n\t", true),
        (Acceptance::SaysNothing, "ok", false),
        (Acceptance::SaysNothing, "wallpaper failed (no such file)", false),
    ] {
        let next = command(rule).advance(Event::Text(output.to_string()));
        assert_eq!(next.outcome() == Some(Ok(())), accepted, "{:?} {:?}", rule, output);
    }
}

#[test]
fn the_failure_holds_what_the_last_attempt_left() {
    let mut outcomes: Vec<Event> = (0..4).map(|_| Event::Text("no".to_string())).collect();
    outcomes.push(Event::Failed("hyprctl: command not found".to_string()));
    let (_, outcome) = drive(command(Acceptance::SaysNothing), outcomes);
    assert_eq!(
        outcome,
        Some(Err(ThemeError::ExhaustedRetries { last: "hyprctl: command not found".to_string() }))
    );
    let outcomes = (0..5).map(|_| Event::Text("  failed badly \n".to_string())).collect();
    let (_, outcome) = drive(command(Acceptance::SaysNothing), outcomes);
    assert_eq!(
        outcome,
        Some(Err(ThemeError::ExhaustedRetries { last: "failed badly".to_string() }))
    );
}

#[test]
fn an_answer_that_does_not_fit_changes_nothing() {
    let waiting = command(Acceptance::SaysOk).advance(Event::Done);
    assert_eq!(waiting.progress, Progress::Trying { made: 0 });
    let waiting = waiting.advance(Event::Exists(true)).advance(Event::Files(vec![]));
    assert_eq!(waiting.progress, Progress::Trying { made: 0 });
    let pausing = waiting.advance(Event::Text("no".to_string()));
    assert_eq!(pausing.progress, Progress::Pausing { made: 1, last: "no".to_string() });
    let pausing = pausing.advance(Event::Text("ok".to_string()));
    assert_eq!(pausing.progress, Progress::Pausing { made: 1, last: "no".to_string() });
    let pausing = pausing.advance(Event::Failed("x".to_string()));
    assert_eq!(pausing.progress, Progress::Pausing { made: 1, last: "no".to_string() });
}

#[test]
fn a_run_that_has_ended_stays_ended() {
    let done = command(Acceptance::SaysOk).advance(Event::Text("ok".to_string()));
    assert_eq!(done.action(), None);
    let done = done.advance(Event::Text("no".to_string())).advance(Event::Done);
    assert_eq!(done.outcome(), Some(Ok(())));
    let spent = Retry {
        program: "p".to_string(),
        args: vec![],
        rule: Acceptance::SaysOk,
        progress: Progress::Exhausted { last: "x".to_string() },
    };
    assert_eq!(spent.action(), None);
    let spent = spent.advance(Event::Text("ok".to_string()));
    assert_eq!(spent.outcome(), Some(Err(ThemeError::ExhaustedRetries { last: "x".to_string() })));
}

#[test]
fn a_run_under_way_has_no_outcome() {
    assert_eq!(command(Acceptance::SaysOk).outcome(), None);
    let pausing = command(Acceptance::SaysOk).advance(Event::Text("no".to_string()));
    assert_eq!(pausing.outcome(), None);
    assert_eq!(pausing.action(), Some(Action::Sleep { seconds: 1 }));
}
