use request_validation::request::EMAIL_BLANK;
use request_validation::request::NAME_BLANK;
use request_validation::request::NAME_MAX_CHARS;
use request_validation::request::NAME_TOO_LONG;
use request_validation::switch;
use request_validation::Request;

fn accepted() -> Request {
    Request::new("Drew", "Drew@Example.COM").expect("valid")
}

#[test]
fn messages_have_their_exact_text() {
    assert_eq!(NAME_BLANK, "Name must not be blank");
    assert_eq!(NAME_TOO_LONG, "Name must not be more than 50 chars");
    assert_eq!(EMAIL_BLANK, "Email must not be blank");
    assert_eq!(NAME_MAX_CHARS, 50);
}

#[test]
fn messages_are_pairwise_different() {
    assert_ne!(NAME_BLANK, NAME_TOO_LONG);
    assert_ne!(NAME_BLANK, EMAIL_BLANK);
    assert_ne!(NAME_TOO_LONG, EMAIL_BLANK);
}

#[test]
fn err_from_str_carries_the_message() {
    let r = Request::err_from_str("anything at all");
    assert_eq!(r.unwrap_err(), "anything at all");
    let empty = Request::err_from_str("");
    assert_eq!(empty.unwrap_err(), "");
}

#[test]
fn validate_name_passes_an_accepted_request_through() {
    let r = accepted().validate_name().expect("the name is not blank");
    assert_eq!(r.name(), "Drew");
    assert_eq!(r.email(), "drew@example.com");
}

#[test]
fn validate_name_len_passes_an_accepted_request_through() {
    let r = accepted().validate_name_len().expect("the name is short enough");
    assert_eq!(r.name(), "Drew");
    assert_eq!(r.email(), "drew@example.com");
}

#[test]
fn validate_email_passes_an_accepted_request_through() {
    let r = accepted().validate_email().expect("the email is not blank");
    assert_eq!(r.name(), "Drew");
    assert_eq!(r.email(), "drew@example.com");
}

#[test]
fn combined_validation_passes_an_accepted_request_through() {
    let r = accepted().combined_validation().expect("every check passes");
    assert_eq!(r.name(), "Drew");
    assert_eq!(r.email(), "drew@example.com");
}

#[test]
fn usecase_keeps_an_accepted_request() {
    let r = accepted().usecase().expect("every check passes");
    assert_eq!(r.name(), "Drew");
    assert_eq!(r.email(), "drew@example.com");
}

#[test]
fn canonicalize_email_keeps_a_lowercase_email() {
    let r = accepted().canonicalize_email();
    assert_eq!(r.name(), "Drew");
    assert_eq!(r.email(), "drew@example.com");
}

#[test]
fn switch_wraps_the_result_in_ok() {
    let g = switch::<_, i32, i32, String>(|x: i32| x + 1);
    assert_eq!(g(1), Ok(2));
    assert_eq!(g(41), Ok(42));
}

#[test]
fn switch_lifts_a_step_on_requests() {
    let lowered = switch::<_, Request, Request, String>(|r: Request| r.canonicalize_email());
    let r = lowered(accepted()).expect("a lifted step never fails");
    assert_eq!(r.email(), "drew@example.com");
}
