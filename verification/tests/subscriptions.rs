use email_newsletter::domain::NewSubscriber;
use email_newsletter::form::parse_form_body;
use email_newsletter::routes::FormData;
use email_newsletter::routes::StorageError;
use email_newsletter::routes::assemble_record;
use email_newsletter::routes::build_subscription_record;
use email_newsletter::routes::handle_subscription_body;
use email_newsletter::routes::health_check;
use email_newsletter::routes::subscribe_completion;
use email_newsletter::routes::subscribe_decision;

#[test]
fn health_check_reports_success_with_an_empty_body() {
    let (status, body) = health_check();
    assert_eq!(status, 200);
    assert_eq!(body.len(), 0);
}

#[test]
fn a_valid_body_decodes_and_validates() {
    let subscriber =
        handle_subscription_body("name=le%20guin&email=ursula_le_guin%40gmail.com").unwrap();
    assert_eq!(subscriber.email.as_ref(), "ursula_le_guin@gmail.com");
    assert_eq!(subscriber.name.as_ref(), "le guin");
}

#[test]
fn missing_fields_are_rejected_with_400() {
    let cases = [
        ("name=le%20guin", "missing the email"),
        ("email=ursula_le_guin%40gmail.com", "missing the name"),
        ("", "missing both name and email"),
    ];
    for (body, description) in cases {
        assert_eq!(
            handle_subscription_body(body).unwrap_err(),
            400,
            "a body {description} was not rejected"
        );
    }
}

#[test]
fn invalid_fields_are_rejected_with_400() {
    // present but invalid: no `@` in the email, a forbidden character in the name
    assert_eq!(
        handle_subscription_body("name=le%20guin&email=ursula_le_guin%2540gmail.com").unwrap_err(),
        400
    );
    assert_eq!(
        handle_subscription_body("name=le%2Fguin&email=ursula_le_guin%40gmail.com").unwrap_err(),
        400
    );
}

#[test]
fn plus_signs_decode_to_spaces() {
    let form = parse_form_body("name=le+guin&email=ursula_le_guin%40gmail.com").unwrap();
    assert_eq!(form.name, "le guin");
    assert_eq!(form.email, "ursula_le_guin@gmail.com");
}

#[test]
fn lowercase_hex_escapes_decode() {
    let form = parse_form_body("name=le%20guin&email=ursula%40g%6dail.com").unwrap();
    assert_eq!(form.email, "ursula@gmail.com");
}

#[test]
fn multi_byte_escapes_decode_as_utf8() {
    let form = parse_form_body("name=ursula%20%C3%A9&email=ursula%40gmail.com").unwrap();
    assert_eq!(form.name, "ursula \u{e9}");
}

#[test]
fn malformed_escapes_are_rejected() {
    assert_eq!(
        parse_form_body("name=le%2zguin&email=a%40b.com").unwrap_err(),
        400
    );
    assert_eq!(parse_form_body("name=le%2&email=a%40b.com").unwrap_err(), 400);
    assert_eq!(parse_form_body("name=le%").unwrap_err(), 400);
}

#[test]
fn repeated_fields_are_rejected() {
    assert_eq!(
        parse_form_body("name=a&name=b&email=a%40b.com").unwrap_err(),
        400
    );
    assert_eq!(
        parse_form_body("email=a%40b.com&email=c%40d.com&name=a").unwrap_err(),
        400
    );
}

#[test]
fn unknown_fields_are_ignored() {
    let form =
        parse_form_body("plan=monthly&name=le%20guin&email=ursula_le_guin%40gmail.com").unwrap();
    assert_eq!(form.name, "le guin");
    assert_eq!(form.email, "ursula_le_guin@gmail.com");
}

#[test]
fn field_order_does_not_matter() {
    let form = parse_form_body("email=ursula_le_guin%40gmail.com&name=le%20guin").unwrap();
    assert_eq!(form.name, "le guin");
    assert_eq!(form.email, "ursula_le_guin@gmail.com");
}

#[test]
fn decision_validates_the_decoded_form() {
    let accepted = subscribe_decision(FormData {
        email: String::from("ursula_le_guin@gmail.com"),
        name: String::from("le guin"),
    });
    assert!(accepted.is_ok());

    let rejected = subscribe_decision(FormData {
        email: String::from("no-at-sign"),
        name: String::from("le guin"),
    });
    assert_eq!(rejected.unwrap_err(), 400);
}

#[test]
fn completion_maps_insert_outcomes_to_statuses() {
    assert_eq!(subscribe_completion(Ok(())), 200);
    assert_eq!(
        subscribe_completion(Err(StorageError {
            message: String::from("connection refused"),
        })),
        500
    );
}

fn subscriber() -> NewSubscriber {
    NewSubscriber::parse(
        String::from("ursula_le_guin@gmail.com"),
        String::from("le guin"),
    )
    .unwrap()
}

#[test]
fn the_record_carries_the_subscriber_and_the_confirmed_status() {
    let record = build_subscription_record(&subscriber());
    assert_eq!(record.email, "ursula_le_guin@gmail.com");
    assert_eq!(record.name, "le guin");
    assert_eq!(record.status, "confirmed");
    assert_eq!(record.id.len(), 36);
}

#[test]
fn each_record_draws_a_fresh_identifier() {
    let first = build_subscription_record(&subscriber());
    let second = build_subscription_record(&subscriber());
    assert_ne!(first.id, second.id);
}

#[test]
fn assembling_a_record_keeps_identifier_and_timestamp() {
    let record = assemble_record(
        &subscriber(),
        String::from("00000000-0000-4000-8000-000000000000"),
        1_700_000_000_000_000,
    );
    assert_eq!(record.id, "00000000-0000-4000-8000-000000000000");
    assert_eq!(record.subscribed_at_micros, 1_700_000_000_000_000);
    assert_eq!(record.status, "confirmed");
}
