use meetuprsvp::failure::Failure;
use meetuprsvp::model::{MeetupEvent, MeetupGroup};
use meetuprsvp::notice::Notice;
use meetuprsvp::protocol::{Action, Input, Reply, Step};
use meetuprsvp::request::{GetRequest, RsvpRequest};
use meetuprsvp::run::{rsvp_outcome, GroupRun, Phase};

const NOW: i64 = 1_700_000_000;

fn ok(status: u16) -> Input {
    Input::Response(Ok(Reply { status, retry_after: None }))
}

fn group(id: &str, name: &str) -> Input {
    Input::Group(Ok(MeetupGroup { id: id.to_string(), name: name.to_string() }))
}

fn event(id: &str, name: &str, time: i64) -> MeetupEvent {
    MeetupEvent { id: id.to_string(), name: name.to_string(), time }
}

fn quiet(action: Action) -> Step {
    Step { notices: Vec::new(), action }
}

fn saying(notice: Notice, action: Action) -> Step {
    Step { notices: vec![notice], action }
}

/// A run over "group1" that has resolved the group to "g1" and was handed
/// the given events.
fn run_with_events(events: Vec<MeetupEvent>) -> GroupRun {
    let mut run = GroupRun::new("secret", "group1");
    assert_eq!(
        run.step_at(Input::Begin, NOW),
        quiet(Action::Get(GetRequest::for_group("secret", "group1")))
    );
    assert_eq!(run.step_at(ok(200), NOW), quiet(Action::DecodeGroup));
    assert_eq!(
        run.step_at(group("g1", "Group One"), NOW),
        quiet(Action::Get(GetRequest::for_events("secret", "group1")))
    );
    assert_eq!(run.step_at(ok(200), NOW), quiet(Action::DecodeEvents));
    assert_eq!(run.step_at(Input::Events(Ok(events)), NOW), quiet(Action::Continue));
    assert_eq!(run.phase(), Phase::Examining);
    run
}

/// Answers every step as a caller would, with the given status for every
/// submission and the clock standing still, and collects the steps up to the
/// end of the run.
fn drive(run: &mut GroupRun, rsvp_status: u16, now: i64) -> Vec<Step> {
    let mut steps = Vec::new();
    let mut input = Input::Resume;
    for _ in 0..1000 {
        let step = run.step_at(input, now);
        input = match &step.action {
            Action::Post(_) => ok(rsvp_status),
            Action::Sleep { .. } | Action::Continue => Input::Resume,
            Action::Finish(_) => {
                steps.push(step);
                return steps;
            }
            other => panic!("the run asked for {:?}", other),
        };
        steps.push(step);
    }
    panic!("the run did not end");
}

fn submissions(steps: &[Step]) -> Vec<RsvpRequest> {
    let mut posts = Vec::new();
    for step in steps {
        if let Action::Post(request) = &step.action {
            posts.push(request.clone());
        }
    }
    posts
}

#[test]
fn a_new_run_has_done_nothing() {
    let run = GroupRun::new("secret", "group1");
    assert_eq!(run.phase(), Phase::Idle);
    assert_eq!(run.cursor(), 0);
    assert_eq!(run.group_name(), "group1");
    assert!(!run.is_done());
}

#[test]
fn one_upcoming_and_one_begun_event_give_one_submission() {
    let mut run = run_with_events(vec![
        event("e1", "Future", (NOW + 3600) * 1000),
        event("e2", "Past", (NOW - 3600) * 1000),
    ]);
    let steps = drive(&mut run, 200, NOW);
    assert_eq!(
        steps,
        vec![
            saying(
                Notice::Announced { event_name: "Future".to_string() },
                Action::Post(RsvpRequest::new("secret", "g1", "e1")),
            ),
            saying(Notice::Accepted, Action::Sleep { seconds: 5 }),
            quiet(Action::Continue),
            quiet(Action::Finish(Ok(()))),
        ]
    );
    assert_eq!(submissions(&steps), vec![RsvpRequest::new("secret", "g1", "e1")]);
    assert!(run.is_done());
    assert_eq!(run.cursor(), 2);
}

#[test]
fn the_system_clock_decides_where_none_is_given() {
    let now = chrono::Utc::now().timestamp();
    let mut run = run_with_events(vec![
        event("e1", "Future", (now + 3600) * 1000),
        event("e2", "Past", (now - 3600) * 1000),
    ]);
    let first = run.step(Input::Resume);
    assert_eq!(
        first,
        saying(
            Notice::Announced { event_name: "Future".to_string() },
            Action::Post(RsvpRequest::new("secret", "g1", "e1")),
        )
    );
    assert_eq!(run.step(ok(201)), saying(Notice::Accepted, Action::Sleep { seconds: 5 }));
    assert_eq!(run.step(Input::Resume), quiet(Action::Continue));
    assert_eq!(run.step(Input::Resume), quiet(Action::Finish(Ok(()))));
}

#[test]
fn the_system_clock_is_not_taken_for_the_event_time() {
    let mut run = run_with_events(vec![event("e1", "Epoch", 0), event("e2", "Far", i64::MAX)]);
    assert_eq!(run.step(Input::Resume), quiet(Action::Continue));
    assert_eq!(
        run.step(Input::Resume).action,
        Action::Post(RsvpRequest::new("secret", "g1", "e2"))
    );
}

#[test]
fn every_upcoming_event_is_submitted_once_in_order() {
    let mut run = run_with_events(vec![
        event("a", "A", (NOW + 1) * 1000),
        event("b", "B", NOW * 1000),
        event("c", "C", (NOW + 2) * 1000),
        event("d", "D", NOW * 1000 + 999),
        event("e", "E", (NOW + 3) * 1000),
    ]);
    let steps = drive(&mut run, 200, NOW);
    assert_eq!(
        submissions(&steps),
        vec![
            RsvpRequest::new("secret", "g1", "a"),
            RsvpRequest::new("secret", "g1", "c"),
            RsvpRequest::new("secret", "g1", "e"),
        ]
    );
    assert_eq!(run.cursor(), 5);
}

#[test]
fn begun_events_are_never_submitted() {
    let mut run = run_with_events(vec![
        event("a", "A", NOW * 1000),
        event("b", "B", (NOW - 1) * 1000),
        event("c", "C", 0),
        event("d", "D", i64::MIN),
    ]);
    let steps = drive(&mut run, 200, NOW);
    assert!(submissions(&steps).is_empty());
    assert_eq!(
        steps,
        vec![
            quiet(Action::Continue),
            quiet(Action::Continue),
            quiet(Action::Continue),
            quiet(Action::Continue),
            quiet(Action::Finish(Ok(()))),
        ]
    );
}

#[test]
fn each_event_is_judged_at_the_clock_reading_of_its_turn() {
    let mut run = run_with_events(vec![
        event("a", "A", (NOW + 10) * 1000),
        event("b", "B", (NOW + 10) * 1000),
    ]);
    assert!(matches!(run.step_at(Input::Resume, NOW).action, Action::Post(_)));
    assert!(matches!(run.step_at(ok(200), NOW).action, Action::Sleep { seconds: 5 }));
    assert_eq!(run.step_at(Input::Resume, NOW + 10), quiet(Action::Continue));
    assert_eq!(run.step_at(Input::Resume, NOW + 10), quiet(Action::Finish(Ok(()))));
}

#[test]
fn a_pause_of_five_seconds_follows_every_submission() {
    let mut run = run_with_events(vec![
        event("a", "A", (NOW + 1) * 1000),
        event("b", "B", (NOW + 1) * 1000),
        event("c", "C", (NOW + 1) * 1000),
    ]);
    let steps = drive(&mut run, 200, NOW);
    let mut posts = 0;
    for (i, step) in steps.iter().enumerate() {
        if matches!(step.action, Action::Post(_)) {
            posts += 1;
            assert_eq!(steps[i + 1].action, Action::Sleep { seconds: 5 });
        }
    }
    assert_eq!(posts, 3);
    assert_eq!(steps.len(), 7);
}

#[test]
fn no_pause_follows_an_event_that_is_passed_over() {
    let mut run = run_with_events(vec![event("a", "A", 0), event("b", "B", 0)]);
    let steps = drive(&mut run, 200, NOW);
    for step in &steps {
        assert!(!matches!(step.action, Action::Sleep { .. }));
    }
}

#[test]
fn a_declined_submission_is_reported_and_the_run_goes_on() {
    let mut run = run_with_events(vec![
        event("a", "A", (NOW + 1) * 1000),
        event("b", "B", (NOW + 1) * 1000),
    ]);
    let steps = drive(&mut run, 500, NOW);
    assert_eq!(
        steps,
        vec![
            saying(
                Notice::Announced { event_name: "A".to_string() },
                Action::Post(RsvpRequest::new("secret", "g1", "a")),
            ),
            saying(Notice::Declined, Action::Sleep { seconds: 5 }),
            saying(
                Notice::Announced { event_name: "B".to_string() },
                Action::Post(RsvpRequest::new("secret", "g1", "b")),
            ),
            saying(Notice::Declined, Action::Sleep { seconds: 5 }),
            quiet(Action::Finish(Ok(()))),
        ]
    );
}

#[test]
fn a_submission_answered_with_429_is_declined() {
    let mut run = run_with_events(vec![event("a", "A", (NOW + 1) * 1000)]);
    assert!(matches!(run.step_at(Input::Resume, NOW).action, Action::Post(_)));
    let reply = Reply { status: 429, retry_after: Some(b"60".to_vec()) };
    assert_eq!(
        run.step_at(Input::Response(Ok(reply)), NOW),
        saying(Notice::Declined, Action::Sleep { seconds: 5 })
    );
}

#[test]
fn a_submission_that_fails_in_transport_is_reported_and_the_run_goes_on() {
    let mut run = run_with_events(vec![
        event("a", "A", (NOW + 1) * 1000),
        event("b", "B", (NOW + 1) * 1000),
    ]);
    assert!(matches!(run.step_at(Input::Resume, NOW).action, Action::Post(_)));
    let failure = Failure::Transport("connection reset".to_string());
    assert_eq!(
        run.step_at(Input::Response(Err(failure)), NOW),
        saying(
            Notice::Trouble {
                group_name: "group1".to_string(),
                error: "connection reset".to_string(),
            },
            Action::Sleep { seconds: 5 },
        )
    );
    assert_eq!(
        run.step_at(Input::Resume, NOW).action,
        Action::Post(RsvpRequest::new("secret", "g1", "b"))
    );
}

#[test]
fn how_a_submission_went_is_told_from_its_outcome() {
    assert_eq!(
        rsvp_outcome("group1", &Ok(Reply { status: 200, retry_after: None })),
        Notice::Accepted
    );
    assert_eq!(
        rsvp_outcome("group1", &Ok(Reply { status: 299, retry_after: None })),
        Notice::Accepted
    );
    assert_eq!(
        rsvp_outcome("group1", &Ok(Reply { status: 300, retry_after: None })),
        Notice::Declined
    );
    assert_eq!(
        rsvp_outcome("group1", &Ok(Reply { status: 404, retry_after: None })),
        Notice::Declined
    );
    assert_eq!(
        rsvp_outcome("group1", &Err(Failure::Transport("timed out".to_string()))),
        Notice::Trouble { group_name: "group1".to_string(), error: "timed out".to_string() }
    );
}

#[test]
fn no_events_end_the_run_at_once() {
    let mut run = run_with_events(Vec::new());
    assert_eq!(run.step_at(Input::Resume, NOW), quiet(Action::Finish(Ok(()))));
    assert!(run.is_done());
}

#[test]
fn rate_limited_events_read_sleeps_as_told_and_submits_nothing() {
    let mut run = GroupRun::new("secret", "group1");
    run.step_at(Input::Begin, NOW);
    run.step_at(ok(200), NOW);
    run.step_at(group("g1", "Group One"), NOW);
    let reply = Reply { status: 429, retry_after: Some(b"10".to_vec()) };
    assert_eq!(
        run.step_at(Input::Response(Ok(reply)), NOW),
        saying(Notice::RateLimited { seconds: 10 }, Action::Sleep { seconds: 10 })
    );
    assert_eq!(run.phase(), Phase::Backoff);
    assert_eq!(run.step_at(Input::Resume, NOW), quiet(Action::Finish(Ok(()))));
    assert!(run.is_done());
}

#[test]
fn rate_limited_read_without_a_usable_header_sleeps_five_seconds() {
    for header in [None, Some(b"later".to_vec()), Some(Vec::new())] {
        let mut run = GroupRun::new("secret", "group1");
        run.step_at(Input::Begin, NOW);
        run.step_at(ok(200), NOW);
        run.step_at(group("g1", "Group One"), NOW);
        let reply = Reply { status: 429, retry_after: header };
        assert_eq!(
            run.step_at(Input::Response(Ok(reply)), NOW),
            saying(Notice::RateLimited { seconds: 5 }, Action::Sleep { seconds: 5 })
        );
    }
}

#[test]
fn rate_limited_group_read_sleeps_as_told_and_ends() {
    let mut run = GroupRun::new("secret", "group1");
    run.step_at(Input::Begin, NOW);
    let reply = Reply { status: 429, retry_after: Some(b"7".to_vec()) };
    assert_eq!(
        run.step_at(Input::Response(Ok(reply)), NOW),
        saying(Notice::RateLimited { seconds: 7 }, Action::Sleep { seconds: 7 })
    );
    assert_eq!(run.step_at(Input::Resume, NOW), quiet(Action::Finish(Ok(()))));
}

#[test]
fn a_run_that_was_told_to_wait_sends_nothing_whatever_it_is_handed() {
    let inputs = || {
        vec![
            Input::Begin,
            ok(200),
            group("g1", "Group One"),
            Input::Events(Ok(vec![event("e1", "Future", i64::MAX)])),
            Input::Resume,
        ]
    };
    for first in inputs() {
        let mut run = GroupRun::new("secret", "group1");
        run.step_at(Input::Begin, NOW);
        run.step_at(Input::Response(Ok(Reply { status: 429, retry_after: None })), NOW);
        assert!(matches!(run.step_at(first, NOW).action, Action::Finish(_)));
        for later in inputs() {
            assert_eq!(
                run.step_at(later, NOW),
                quiet(Action::Finish(Err(Failure::OutOfTurn)))
            );
        }
    }
}

#[test]
fn failed_group_read_is_reported_with_the_group_name_and_ends_the_run() {
    let mut run = GroupRun::new("secret", "group1");
    run.step_at(Input::Begin, NOW);
    let step = run.step_at(ok(500), NOW);
    assert_eq!(
        step,
        saying(
            Notice::Trouble {
                group_name: "group1".to_string(),
                error: "Unknown error".to_string(),
            },
            Action::Finish(Ok(())),
        )
    );
    assert!(step.notices[0].text().contains("group1"));
    assert!(step.notices[0].is_error());
    assert!(run.is_done());
}

#[test]
fn failed_events_read_is_reported_with_the_group_name_and_ends_the_run() {
    let mut run = GroupRun::new("secret", "group1");
    run.step_at(Input::Begin, NOW);
    run.step_at(ok(200), NOW);
    run.step_at(group("g1", "Group One"), NOW);
    assert_eq!(
        run.step_at(ok(404), NOW),
        saying(
            Notice::Trouble {
                group_name: "group1".to_string(),
                error: "Unknown error".to_string(),
            },
            Action::Finish(Ok(())),
        )
    );
}

#[test]
fn a_read_that_fails_in_transport_fails_the_run() {
    let mut run = GroupRun::new("secret", "group1");
    run.step_at(Input::Begin, NOW);
    let failure = Failure::Transport("dns error".to_string());
    assert_eq!(
        run.step_at(Input::Response(Err(failure.clone())), NOW),
        quiet(Action::Finish(Err(failure.clone())))
    );

    let mut run = GroupRun::new("secret", "group1");
    run.step_at(Input::Begin, NOW);
    run.step_at(ok(200), NOW);
    run.step_at(group("g1", "Group One"), NOW);
    assert_eq!(
        run.step_at(Input::Response(Err(failure.clone())), NOW),
        quiet(Action::Finish(Err(failure)))
    );
}

#[test]
fn a_body_of_the_wrong_shape_fails_the_run() {
    let failure = Failure::Decode("missing field `id`".to_string());
    let mut run = GroupRun::new("secret", "group1");
    run.step_at(Input::Begin, NOW);
    run.step_at(ok(200), NOW);
    assert_eq!(
        run.step_at(Input::Group(Err(failure.clone())), NOW),
        quiet(Action::Finish(Err(failure.clone())))
    );

    let mut run = GroupRun::new("secret", "group1");
    run.step_at(Input::Begin, NOW);
    run.step_at(ok(200), NOW);
    run.step_at(group("g1", "Group One"), NOW);
    run.step_at(ok(200), NOW);
    assert_eq!(
        run.step_at(Input::Events(Err(failure.clone())), NOW),
        quiet(Action::Finish(Err(failure)))
    );
    assert!(run.is_done());
}

#[test]
fn an_answer_out_of_turn_ends_the_run() {
    let mut run = GroupRun::new("secret", "group1");
    assert_eq!(run.step_at(Input::Resume, NOW), quiet(Action::Finish(Err(Failure::OutOfTurn))));
    assert!(run.is_done());

    let mut run = GroupRun::new("secret", "group1");
    run.step_at(Input::Begin, NOW);
    assert_eq!(
        run.step_at(group("g1", "Group One"), NOW),
        quiet(Action::Finish(Err(Failure::OutOfTurn)))
    );

    let mut run = run_with_events(vec![event("a", "A", (NOW + 1) * 1000)]);
    assert!(matches!(run.step_at(Input::Resume, NOW).action, Action::Post(_)));
    assert_eq!(
        run.step_at(Input::Resume, NOW),
        quiet(Action::Finish(Err(Failure::OutOfTurn)))
    );
    assert_eq!(
        run.step_at(Input::Resume, NOW),
        quiet(Action::Finish(Err(Failure::OutOfTurn)))
    );
}

#[test]
fn the_resolved_identifier_addresses_the_submissions() {
    let mut run = GroupRun::new("secret", "rust-berlin");
    run.step_at(Input::Begin, NOW);
    run.step_at(ok(200), NOW);
    run.step_at(group("1234567", "Rust Berlin"), NOW);
    run.step_at(ok(200), NOW);
    run.step_at(Input::Events(Ok(vec![event("ev9", "Hack", (NOW + 60) * 1000)])), NOW);
    let step = run.step_at(Input::Resume, NOW);
    match step.action {
        Action::Post(request) => {
            assert_eq!(request.url(), "https://api.meetup.com/1234567/events/ev9/rsvps");
            assert_eq!(request.api_key, "secret");
            assert_eq!(request.response, "yes");
        }
        other => panic!("the run asked for {:?}", other),
    }
}
