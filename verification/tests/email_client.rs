use email_newsletter::configuration::SecretString;
use email_newsletter::domain::SubscriberEmail;
use email_newsletter::email_client::EmailClient;

fn client() -> EmailClient {
    EmailClient::new(
        String::from("http://localhost:8025"),
        SubscriberEmail::parse(String::from("newsletter@example.com")).unwrap(),
        SecretString::new(String::from("SECRET-REDACTED")),
        10_000,
    )
}

#[test]
fn the_client_records_its_parameters() {
    let client = client();
    assert_eq!(client.base_url, "http://localhost:8025");
    assert_eq!(client.sender.as_ref(), "newsletter@example.com");
    assert_eq!(client.authorization_token.expose_secret(), "SECRET-REDACTED");
    assert_eq!(client.timeout_milliseconds, 10_000);
}

#[test]
fn the_request_posts_to_the_transmissions_path() {
    let recipient = SubscriberEmail::parse(String::from("ursula_le_guin@gmail.com")).unwrap();
    let request = client().transmission_request(
        &recipient,
        "Welcome!",
        "<p>Welcome to our newsletter</p>",
        "Welcome to our newsletter",
    );
    assert_eq!(request.url, "http://localhost:8025/api/v1/transmissions");
    assert_eq!(request.authorization.expose_secret(), "SECRET-REDACTED");
    assert_eq!(request.from, "newsletter@example.com");
    assert_eq!(request.to, "ursula_le_guin@gmail.com");
    assert_eq!(request.subject, "Welcome!");
    assert_eq!(request.html, "<p>Welcome to our newsletter</p>");
    assert_eq!(request.text, "Welcome to our newsletter");
}
