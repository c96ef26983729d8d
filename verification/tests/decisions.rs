//! The decisions one by one, on plain values.

use std::rc::Rc;

use actix_errbit::call::{conclude, plan};
use actix_errbit::middleware::Errbit;
use actix_errbit::outcome::{server_error, Outcome};
use actix_errbit::report::{Failure, Report};
use actix_errbit::{ErrbitError, Error};

struct Caused(anyhow::Error);

impl ErrbitError for Caused {
    fn as_anyhow(&self) -> Option<&anyhow::Error> {
        Some(&self.0)
    }
}

struct Bare;

impl ErrbitError for Bare {
    fn as_anyhow(&self) -> Option<&anyhow::Error> {
        None
    }
}

/// An error that must not be asked for its cause.
struct Untouchable;

impl ErrbitError for Untouchable {
    fn as_anyhow(&self) -> Option<&anyhow::Error> {
        panic!("asked for a cause that nobody reports")
    }
}

#[test]
fn server_error_is_500_to_599() {
    assert!(!server_error(499));
    assert!(server_error(500));
    assert!(server_error(503));
    assert!(server_error(599));
    assert!(!server_error(600));
}

#[test]
fn other_statuses_are_no_server_errors() {
    for status in [100u16, 101, 200, 204, 301, 302, 400, 404, 418, 999] {
        assert!(!server_error(status));
    }
}

#[test]
fn numbers_that_are_no_status_are_no_server_errors() {
    for status in [0u16, 1, 50, 99, 1000, 5000, 5500, u16::MAX] {
        assert!(!server_error(status));
    }
}

#[test]
fn server_error_agrees_with_the_range_on_every_number() {
    for status in 0..=u16::MAX {
        assert_eq!(server_error(status), (500..=599).contains(&status));
    }
}

#[test]
fn responded_keeps_the_error_of_a_server_error() {
    assert!(matches!(Outcome::responded(500, Some("boom")), Outcome::ErrorResponse(Some("boom"))));
    assert!(matches!(Outcome::<&str>::responded(502, None), Outcome::ErrorResponse(None)));
    assert!(matches!(Outcome::responded(599, Some(7u8)), Outcome::ErrorResponse(Some(7))));
}

#[test]
fn responded_is_success_below_and_above_the_server_errors() {
    assert!(matches!(Outcome::responded(200, Some("ignored")), Outcome::Success));
    assert!(matches!(Outcome::responded(499, Some("ignored")), Outcome::Success));
    assert!(matches!(Outcome::responded(600, Some("ignored")), Outcome::Success));
    assert!(matches!(Outcome::<&str>::responded(404, None), Outcome::Success));
}

#[test]
fn dispatch_picks_one_error_or_none() {
    assert_eq!(Outcome::<&str>::Success.dispatch(), None);
    assert_eq!(Outcome::<&str>::ErrorResponse(None).dispatch(), None);
    assert_eq!(Outcome::ErrorResponse(Some("attached")).dispatch(), Some("attached"));
    assert_eq!(Outcome::PropagatedFailure("raised").dispatch(), Some("raised"));
}

#[test]
fn select_goes_the_structured_way_only_with_a_cause() {
    let cause = anyhow::Error::msg("deep down");
    match Report::select("surface", Some(Some(&cause))) {
        Report::Structured(found) => {
            assert!(std::ptr::eq(found, &cause));
            assert_eq!(found.to_string(), "deep down");
        }
        Report::Plain(_) => panic!("the cause was dropped"),
    }
    assert!(matches!(Report::select("surface", Some(None)), Report::Plain("surface")));
    assert!(matches!(Report::select("surface", None), Report::Plain("surface")));
}

#[test]
fn classify_asks_a_capable_error_for_its_cause() {
    let caused = Error::from(Caused(anyhow::Error::msg("deep down")));
    match Report::classify(Failure { value: "surface", capable: Some(&caused) }) {
        Report::Structured(found) => assert_eq!(found.to_string(), "deep down"),
        Report::Plain(_) => panic!("the cause was dropped"),
    }
    let bare = Error::from(Bare);
    assert!(matches!(
        Report::classify(Failure { value: "surface", capable: Some(&bare) }),
        Report::Plain("surface")
    ));
    assert!(matches!(
        Report::classify(Failure { value: "surface", capable: None }),
        Report::Plain("surface")
    ));
}

#[test]
fn as_anyhow_error_gives_the_wrapped_errors_answer() {
    let cause = anyhow::Error::msg("deep down").context("half way");
    let caused = Error::from(Caused(cause));
    let found = caused.as_anyhow_error().unwrap();
    assert_eq!(found.to_string(), "half way");
    assert_eq!(found.root_cause().to_string(), "deep down");
    assert!(Error::from(Bare).as_anyhow_error().is_none());
}

#[test]
fn plan_reports_the_attached_error_of_a_server_error() {
    let outcome = Outcome::responded(500, Some(Failure { value: "boom", capable: None }));
    assert!(matches!(plan(outcome), Some(Report::Plain("boom"))));
}

#[test]
fn plan_reports_nothing_for_a_success() {
    let outcome = Outcome::responded(200, Some(Failure { value: "boom", capable: None }));
    assert!(plan(outcome).is_none());
    assert!(plan(Outcome::<Failure<&str>>::Success).is_none());
}

#[test]
fn plan_reports_nothing_for_a_server_error_without_an_error() {
    assert!(plan(Outcome::<Failure<&str>>::responded(500, None)).is_none());
    assert!(plan(Outcome::<Failure<&str>>::ErrorResponse(None)).is_none());
}

#[test]
fn plan_reports_a_propagated_failure() {
    let caused = Error::from(Caused(anyhow::Error::msg("parse failure: X")));
    let outcome = Outcome::PropagatedFailure(Failure { value: "raised", capable: Some(&caused) });
    match plan(outcome) {
        Some(Report::Structured(found)) => assert_eq!(found.to_string(), "parse failure: X"),
        _ => panic!("the failure was not reported by its cause"),
    }
    let outcome = Outcome::PropagatedFailure(Failure { value: "raised", capable: None });
    assert!(matches!(plan(outcome), Some(Report::Plain("raised"))));
}

#[test]
fn plan_does_not_ask_an_error_that_is_not_reported() {
    let error = Error::from(Untouchable);
    let outcome = Outcome::responded(404, Some(Failure { value: "gone", capable: Some(&error) }));
    assert!(plan(outcome).is_none());
}

#[test]
fn conclude_gives_back_what_the_service_gave() {
    let end = conclude(Ok::<u16, &str>(200), None::<Result<(), String>>);
    assert_eq!(end.returned, Ok(200));
    assert_eq!(end.printed, None);

    let end = conclude(Ok::<u16, &str>(500), Some(Ok::<(), String>(())));
    assert_eq!(end.returned, Ok(500));
    assert_eq!(end.printed, None);

    let end = conclude(Err::<u16, &str>("raised"), Some(Ok::<(), String>(())));
    assert_eq!(end.returned, Err("raised"));
    assert_eq!(end.printed, None);
}

#[test]
fn conclude_keeps_the_trackers_complaint_for_printing() {
    let end = conclude(Ok::<u16, &str>(500), Some(Err::<(), &str>("no route to host")));
    assert_eq!(end.returned, Ok(500));
    assert_eq!(end.printed, Some("no route to host"));

    let end = conclude(Err::<u16, &str>("raised"), Some(Err::<(), &str>("no route to host")));
    assert_eq!(end.returned, Err("raised"));
    assert_eq!(end.printed, Some("no route to host"));
}

#[test]
fn new_wraps_a_client_that_was_made() {
    let handle = Errbit::new(Ok::<&str, String>("client")).ok().unwrap();
    assert_eq!(*handle.notifier(), "client");
}

#[test]
fn new_hands_back_the_fault_of_the_configuration() {
    let fault = Errbit::<&str>::new(Err("no endpoint".to_string())).err().unwrap();
    assert_eq!(fault, "no endpoint");
}

#[test]
fn new_transform_shares_the_client() {
    let client = Rc::new(String::from("client"));
    let handle = Errbit::new(Ok::<Rc<String>, String>(client.clone())).ok().unwrap();
    let first = handle.new_transform("first service");
    let second = handle.new_transform("second service");
    assert_eq!(*first.service(), "first service");
    assert_eq!(*second.service(), "second service");
    assert!(std::ptr::eq(handle.notifier(), first.notifier()));
    assert!(std::ptr::eq(first.notifier(), second.notifier()));
    assert!(std::ptr::eq(first.handle().notifier(), handle.notifier()));
    // one client, however many hold the handle
    assert_eq!(Rc::strong_count(&client), 2);
}
