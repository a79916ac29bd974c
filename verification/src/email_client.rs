//! The outbound email-notification client: it holds the transport
//! parameters and lays out the single HTTP request a transactional email
//! becomes. The HTTP call itself is made outside this crate, from the
//! request this module builds.

use vstd::prelude::*;
use vstd::string::StringExecFns;

use crate::configuration::SecretString;
use crate::domain::SubscriberEmail;

verus! {

/// The parameters every outbound transmission shares: where to post,
/// which sender address to claim, which credential to present, and how
/// long to wait.
pub struct EmailClient {
    pub base_url: String,
    pub sender: SubscriberEmail,
    pub authorization_token: SecretString,
    pub timeout_milliseconds: u64,
}

/// One transactional email, fully laid out as the HTTP request to issue:
/// the transmission URL, the credential for the `Authorization` header,
/// and the payload fields `from`, the single recipient, `subject` and the
/// two body variants.
pub struct EmailRequest {
    pub url: String,
    pub authorization: SecretString,
    pub from: String,
    pub to: String,
    pub subject: String,
    pub html: String,
    pub text: String,
}

impl EmailClient {
    /// Record the transport parameters; nothing is contacted.
    pub fn new(
        base_url: String,
        sender: SubscriberEmail,
        authorization_token: SecretString,
        timeout_milliseconds: u64,
    ) -> (r: EmailClient)
        ensures
            r.base_url == base_url,
            r.sender@ == sender@,
            r.authorization_token@ == authorization_token@,
            r.timeout_milliseconds == timeout_milliseconds,
    {
        EmailClient { base_url, sender, authorization_token, timeout_milliseconds }
    }

    /// Lay out the one request a transactional email becomes: it is
    /// posted to the fixed transmission path under the configured base
    /// URL, claims the configured sender, addresses the single recipient,
    /// and carries the subject and both body variants unchanged.
    pub fn transmission_request(
        &self,
        recipient: &SubscriberEmail,
        subject: &str,
        html_content: &str,
        text_content: &str,
    ) -> (r: EmailRequest)
        ensures
            r.url@ == self.base_url@ + "/api/v1/transmissions"@,
            r.authorization@ == self.authorization_token@,
            r.from@ == self.sender@,
            r.to@ == recipient@,
            r.subject@ == subject@,
            r.html@ == html_content@,
            r.text@ == text_content@,
    {
        EmailRequest {
            url: self.base_url.clone().concat("/api/v1/transmissions"),
            authorization: self.authorization_token.clone(),
            from: self.sender.as_ref().to_owned(),
            to: recipient.as_ref().to_owned(),
            subject: subject.to_owned(),
            html: html_content.to_owned(),
            text: text_content.to_owned(),
        }
    }
}

} // verus!
