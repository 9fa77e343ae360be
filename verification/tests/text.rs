use meetuprsvp::decimal::render_decimal;
use meetuprsvp::failure::Failure;
use meetuprsvp::notice::{error_message, rate_limit_message, success_message, Notice};

#[test]
fn numbers_are_written_in_base_ten() {
    assert_eq!(render_decimal(0), "0");
    assert_eq!(render_decimal(5), "5");
    assert_eq!(render_decimal(9), "9");
    assert_eq!(render_decimal(10), "10");
    assert_eq!(render_decimal(1234567890), "1234567890");
    assert_eq!(render_decimal(u64::MAX), "18446744073709551615");
}

#[test]
fn written_numbers_agree_with_the_standard_formatter() {
    for n in 0u64..3000 {
        assert_eq!(render_decimal(n), format!("{}", n));
    }
    let mut n: u64 = 1;
    for _ in 0..19 {
        n *= 10;
        assert_eq!(render_decimal(n), format!("{}", n));
        assert_eq!(render_decimal(n - 1), format!("{}", n - 1));
    }
}

#[test]
fn the_announcement_names_the_event() {
    assert_eq!(
        success_message("Rust Night"),
        "RSVPing for 'Rust Night' - It's going to be awesome!"
    );
    assert_eq!(success_message(""), "RSVPing for '' - It's going to be awesome!");
}

#[test]
fn the_trouble_report_names_group_and_error() {
    assert_eq!(
        error_message("group1", "Unknown error"),
        "Oops! Couldn't get ready for group1: Unknown error. Keep the party spirit high! 🚀"
    );
}

#[test]
fn the_wait_report_names_the_seconds() {
    assert_eq!(
        rate_limit_message(10),
        "Rate limited. Waiting for 10 seconds before retrying..."
    );
    assert_eq!(
        rate_limit_message(5),
        "Rate limited. Waiting for 5 seconds before retrying..."
    );
}

#[test]
fn each_notice_has_its_line() {
    assert_eq!(
        Notice::Announced { event_name: "Tea".to_string() }.text(),
        "RSVPing for 'Tea' - It's going to be awesome!"
    );
    assert_eq!(Notice::Accepted.text(), "Hooray! You're officially in for the event! 🎉");
    assert_eq!(
        Notice::Declined.text(),
        "Uh-oh! Couldn't RSVP for the event. Don't worry, we'll get it next time. 🌈"
    );
    assert_eq!(
        Notice::RateLimited { seconds: 42 }.text(),
        "Rate limited. Waiting for 42 seconds before retrying..."
    );
    assert_eq!(
        Notice::Trouble { group_name: "g".to_string(), error: "boom".to_string() }.text(),
        "Oops! Couldn't get ready for g: boom. Keep the party spirit high! 🚀"
    );
}

#[test]
fn only_trouble_goes_to_the_error_stream() {
    assert!(Notice::Trouble { group_name: "g".to_string(), error: "e".to_string() }.is_error());
    assert!(!Notice::Announced { event_name: "Tea".to_string() }.is_error());
    assert!(!Notice::Accepted.is_error());
    assert!(!Notice::Declined.is_error());
    assert!(!Notice::RateLimited { seconds: 1 }.is_error());
}

#[test]
fn a_failure_is_described_by_its_detail() {
    assert_eq!(Failure::Transport("connection refused".to_string()).text(), "connection refused");
    assert_eq!(Failure::Decode("missing field `id`".to_string()).text(), "missing field `id`");
    assert_eq!(Failure::OutOfTurn.text(), "the run was answered out of turn");
}
