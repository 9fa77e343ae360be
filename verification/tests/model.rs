use meetuprsvp::failure::Failure;
use meetuprsvp::model::{MeetupEvent, MeetupGroup};
use meetuprsvp::notice::Notice;
use meetuprsvp::protocol::{Action, Reply, Step};
use meetuprsvp::request::{GetRequest, RsvpRequest};

#[test]
fn a_copy_of_a_record_equals_the_record() {
    let group = MeetupGroup { id: "g1".to_string(), name: "Group One".to_string() };
    assert_eq!(group.clone(), group);
    let event = MeetupEvent { id: "e1".to_string(), name: "Tea".to_string(), time: -5 };
    assert_eq!(event.clone(), event);
}

#[test]
fn a_copy_of_a_failure_equals_the_failure() {
    for failure in [
        Failure::Transport("t".to_string()),
        Failure::Decode("d".to_string()),
        Failure::OutOfTurn,
    ] {
        assert_eq!(failure.clone(), failure);
    }
    assert_ne!(Failure::Transport("x".to_string()), Failure::Decode("x".to_string()));
}

#[test]
fn a_copy_of_a_notice_equals_the_notice() {
    for notice in [
        Notice::Announced { event_name: "Tea".to_string() },
        Notice::Accepted,
        Notice::Declined,
        Notice::RateLimited { seconds: 9 },
        Notice::Trouble { group_name: "g".to_string(), error: "e".to_string() },
    ] {
        assert_eq!(notice.clone(), notice);
    }
}

#[test]
fn a_copy_of_a_request_equals_the_request() {
    let group = GetRequest::for_group("secret", "group1");
    assert_eq!(group.clone(), group);
    let events = GetRequest::for_events("secret", "group1");
    assert_eq!(events.clone(), events);
    assert_eq!(events.clone().query.len(), 2);
    let rsvp = RsvpRequest::new("secret", "g1", "e1");
    assert_eq!(rsvp.clone(), rsvp);
}

#[test]
fn a_copy_of_a_reply_equals_the_reply() {
    let bare = Reply { status: 200, retry_after: None };
    assert_eq!(bare.clone(), bare);
    let told = Reply { status: 429, retry_after: Some(b"120".to_vec()) };
    assert_eq!(told.clone(), told);
    let empty = Reply { status: 429, retry_after: Some(Vec::new()) };
    assert_eq!(empty.clone(), empty);
}

#[test]
fn a_step_is_its_lines_and_its_action() {
    assert_eq!(
        Step::quiet(Action::Continue),
        Step { notices: Vec::new(), action: Action::Continue }
    );
    assert_eq!(
        Step::saying(Notice::Accepted, Action::Sleep { seconds: 5 }),
        Step { notices: vec![Notice::Accepted], action: Action::Sleep { seconds: 5 } }
    );
}
