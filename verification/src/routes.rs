//! The request pipeline behind the two HTTP routes: the health probe and
//! the subscription endpoint. The HTTP listener itself lives outside this
//! crate; it hands raw request values in and carries plain status codes
//! and records back out.

use vstd::prelude::*;
use vstd::string::StringExecFns;

use crate::domain::NewSubscriber;
use crate::domain::email_valid;
use crate::domain::name_valid;

verus! {

/// The raw fields of a decoded subscription form, before validation.
#[derive(Debug)]
pub struct FormData {
    pub email: String,
    pub name: String,
}

/// A failed insert into the subscription store, as reported by the
/// database driver; the endpoint collapses it to a server error and the
/// message is only logged, never sent to the client.
pub struct StorageError {
    pub message: String,
}

/// The health probe: it consults nothing and always reports success with
/// an empty body.
pub fn health_check() -> (r: (u16, String))
    ensures
        r.0 == 200,
        r.1@.len() == 0,
{
    (200, String::new())
}

/// Validate a decoded subscription form, the email address first. A valid
/// form yields the subscriber to persist; an invalid one yields the client
/// error status the endpoint must answer with.
pub fn subscribe_decision(form: FormData) -> (r: Result<NewSubscriber, u16>)
    ensures
        r is Ok <==> email_valid(form.email@) && name_valid(form.name@),
        r matches Ok(n) ==> n.email@ == form.email@ && n.name@ == form.name@,
        r is Err ==> r == Err::<NewSubscriber, u16>(400),
{
    match NewSubscriber::parse(form.email, form.name) {
        Ok(subscriber) => Ok(subscriber),
        Err(_) => Err(400),
    }
}

/// The status the subscription endpoint answers with once the insert has
/// been attempted: success maps to 200, a storage failure to 500.
pub fn subscribe_completion(insert: Result<(), StorageError>) -> (status: u16)
    ensures
        insert is Ok <==> status == 200,
        insert is Err <==> status == 500,
{
    match insert {
        Ok(_) => 200,
        Err(_) => 500,
    }
}

/// The whole per-request pipeline up to the insert: decode the raw body,
/// then validate its fields, the email address first. What comes back is
/// either the subscriber to persist or the client-error status to answer
/// with; the insert and its own failure status follow in
/// [`subscribe_completion`].
pub fn handle_subscription_body(body: &str) -> (r: Result<NewSubscriber, u16>)
    ensures
        r is Ok <==> (crate::form::form_data_of(vstd::utf8::encode_utf8(body@)) matches Some(p)
            && email_valid(p.0) && name_valid(p.1)),
        r matches Ok(s) ==> (crate::form::form_data_of(vstd::utf8::encode_utf8(body@))
            matches Some(p) && s.email@ == p.0 && s.name@ == p.1),
        r is Err ==> r == Err::<NewSubscriber, u16>(400),
{
    let form = match crate::form::parse_form_body(body) {
        Ok(form) => form,
        Err(status) => {
            return Err(status);
        },
    };
    subscribe_decision(form)
}

/// One row of the subscription table, ready for a single-statement insert.
pub struct SubscriptionRecord {
    pub id: String,
    pub email: String,
    pub name: String,
    pub subscribed_at_micros: i64,
    pub status: String,
}

/// Relies on `uuid::Uuid::new_v4` and its `Display` form: a fresh random
/// version-4 UUID rendered in the hyphenated textual form, which is 36
/// characters long. The value itself is random, so nothing more is
/// promised of it.
#[verifier::external_body]
fn fresh_subscription_id() -> (r: String)
    ensures
        r@.len() == 36,
{
    uuid::Uuid::new_v4().to_string()
}

/// Relies on `chrono::Utc::now` and `DateTime::timestamp_micros`: the
/// server clock read at the moment of the call, in microseconds since the
/// Unix epoch. The reading depends on the clock, so nothing is promised of
/// the value.
#[verifier::external_body]
fn current_timestamp_micros() -> (r: i64) {
    chrono::Utc::now().timestamp_micros()
}

/// Lay out the row a validated subscriber produces: the caller-supplied
/// identifier and timestamp, the subscriber's own email address and name,
/// and the fixed status `confirmed` every insert carries in this version.
pub fn assemble_record(subscriber: &NewSubscriber, id: String, subscribed_at_micros: i64) -> (r:
    SubscriptionRecord)
    ensures
        r.id == id,
        r.email@ == subscriber.email@,
        r.name@ == subscriber.name@,
        r.subscribed_at_micros == subscribed_at_micros,
        r.status@ == "confirmed"@,
{
    SubscriptionRecord {
        id,
        email: subscriber.email.as_ref().to_owned(),
        name: subscriber.name.as_ref().to_owned(),
        subscribed_at_micros,
        status: String::from_str("confirmed"),
    }
}

/// The row to insert for a validated subscriber: a freshly generated
/// identifier, the current server clock, the subscriber's fields and the
/// fixed status `confirmed`. Identifier and timestamp are drawn here, so
/// only their shape is promised.
pub fn build_subscription_record(subscriber: &NewSubscriber) -> (r: SubscriptionRecord)
    ensures
        r.email@ == subscriber.email@,
        r.name@ == subscriber.name@,
        r.status@ == "confirmed"@,
        r.id@.len() == 36,
{
    let id = fresh_subscription_id();
    let subscribed_at_micros = current_timestamp_micros();
    assemble_record(subscriber, id, subscribed_at_micros)
}

} // verus!
