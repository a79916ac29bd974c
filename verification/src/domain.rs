//! Domain value objects: subscriber names and email addresses that can
//! only be constructed from input that passed validation, and the
//! aggregate of both that a subscription request produces.

use vstd::prelude::*;
use vstd::string::StrSliceExecFns;

verus! {

/// Rejection of a raw subscriber field; the subscription endpoint maps
/// any such rejection to a client error.
#[derive(Clone, Copy, Debug, PartialEq, Eq, Structural)]
pub enum ValidationError {
    /// The raw email address failed validation.
    InvalidEmail,
    /// The raw subscriber name failed validation.
    InvalidName,
}

/// Whether `c` carries the Unicode `White_Space` property.
pub open spec fn is_whitespace_char(c: char) -> bool {
    let u = c as u32;
    (9 <= u && u <= 13) || u == 32 || u == 0x85 || u == 0xA0 || u == 0x1680 || (0x2000 <= u
        && u <= 0x200A) || u == 0x2028 || u == 0x2029 || u == 0x202F || u == 0x205F || u == 0x3000
}

/// Whether `s` is empty or made of whitespace alone.
pub open spec fn all_whitespace(s: Seq<char>) -> bool {
    forall|i: int| 0 <= i < s.len() ==> is_whitespace_char(s[i])
}

/// Whether `c` is one of the characters a subscriber name may not contain.
pub open spec fn is_forbidden_char(c: char) -> bool {
    c == '/' || c == '(' || c == ')' || c == '"' || c == '<' || c == '>' || c == '\\' || c == '{'
        || c == '}'
}

/// Whether `s` contains a character a subscriber name may not contain.
pub open spec fn contains_forbidden_char(s: Seq<char>) -> bool {
    exists|i: int| 0 <= i < s.len() && is_forbidden_char(s[i])
}

/// Whether `s` contains the character `c`.
pub open spec fn contains_char(s: Seq<char>, c: char) -> bool {
    exists|i: int| 0 <= i < s.len() && s[i] == c
}

/// The number of extended grapheme clusters in `s`: a function of the
/// characters alone, left unspecified here and computed by
/// [`count_graphemes`].
pub uninterp spec fn grapheme_count(s: Seq<char>) -> nat;

/// Whether `s` satisfies the email-address grammar the validator applies:
/// a function of the characters alone, left unspecified here and computed
/// by [`check_email_grammar`].
pub uninterp spec fn email_grammar_ok(s: Seq<char>) -> bool;

/// A valid subscriber name: not whitespace alone, at most 256 grapheme
/// clusters, and free of the forbidden characters.
pub open spec fn name_valid(s: Seq<char>) -> bool {
    !all_whitespace(s) && grapheme_count(s) <= 256 && !contains_forbidden_char(s)
}

/// A valid subscriber email address: non-empty, containing an `@`, and
/// accepted by the email grammar.
pub open spec fn email_valid(s: Seq<char>) -> bool {
    s.len() > 0 && contains_char(s, '@') && email_grammar_ok(s)
}

/// Law: a string without an `@` is never a valid email address, whatever
/// the grammar says of it, so parsing it always fails.
pub proof fn lemma_email_without_at_invalid(s: Seq<char>)
    requires
        !contains_char(s, '@'),
    ensures
        !email_valid(s),
{
}

/// Law: the empty string and strings of whitespace alone are never valid
/// subscriber names, so parsing them always fails.
pub proof fn lemma_whitespace_name_invalid(s: Seq<char>)
    requires
        all_whitespace(s),
    ensures
        !name_valid(s),
{
}

/// Law: a string of more than 256 grapheme clusters is never a valid
/// subscriber name, so parsing it always fails.
pub proof fn lemma_long_name_invalid(s: Seq<char>)
    requires
        grapheme_count(s) > 256,
    ensures
        !name_valid(s),
{
}

/// Law: a string that is not whitespace alone, holds at most 256 grapheme
/// clusters and contains no forbidden character is a valid subscriber
/// name, so parsing it succeeds — and, by the contract of
/// [`SubscriberName::parse`], the parsed name's view round-trips to the
/// very string parsed.
pub proof fn lemma_plain_name_valid(s: Seq<char>)
    requires
        !all_whitespace(s),
        grapheme_count(s) <= 256,
        !contains_forbidden_char(s),
    ensures
        name_valid(s),
{
}

/// Law: a string containing a forbidden character is never a valid
/// subscriber name, so parsing it always fails.
pub proof fn lemma_forbidden_name_invalid(s: Seq<char>, i: int)
    requires
        0 <= i < s.len(),
        is_forbidden_char(s[i]),
    ensures
        !name_valid(s),
{
}

/// Relies on `unicode_segmentation::UnicodeSegmentation::graphemes` with
/// extended grapheme clusters: the count depends on the characters alone.
#[verifier::external_body]
fn count_graphemes(s: &str) -> (n: usize)
    ensures
        n as nat == grapheme_count(s@),
{
    unicode_segmentation::UnicodeSegmentation::graphemes(s, true).count()
}

/// Relies on `validator::ValidateEmail::validate_email` for `&str`: the
/// HTML5 email-address check, whose verdict depends on the characters
/// alone.
#[verifier::external_body]
fn check_email_grammar(s: &str) -> (b: bool)
    ensures
        b == email_grammar_ok(s@),
{
    validator::ValidateEmail::validate_email(&s)
}

fn is_all_whitespace(s: &str) -> (r: bool)
    ensures
        r == all_whitespace(s@),
{
    let n = s.unicode_len();
    let mut i: usize = 0;
    while i < n
        invariant
            i <= n,
            n == s@.len(),
            forall|j: int| 0 <= j < i ==> is_whitespace_char(s@[j]),
        decreases n - i,
    {
        let c = s.get_char(i);
        let u = c as u32;
        let ws = (9 <= u && u <= 13) || u == 32 || u == 0x85 || u == 0xA0 || u == 0x1680 || (0x2000
            <= u && u <= 0x200A) || u == 0x2028 || u == 0x2029 || u == 0x202F || u == 0x205F || u
            == 0x3000;
        if !ws {
            return false;
        }
        i += 1;
    }
    true
}

fn has_forbidden_char(s: &str) -> (r: bool)
    ensures
        r == contains_forbidden_char(s@),
{
    let n = s.unicode_len();
    let mut i: usize = 0;
    while i < n
        invariant
            i <= n,
            n == s@.len(),
            forall|j: int| 0 <= j < i ==> !is_forbidden_char(s@[j]),
        decreases n - i,
    {
        let c = s.get_char(i);
        if c == '/' || c == '(' || c == ')' || c == '"' || c == '<' || c == '>' || c == '\\' || c
            == '{' || c == '}' {
            return true;
        }
        i += 1;
    }
    false
}

fn has_char(s: &str, c: char) -> (r: bool)
    ensures
        r == contains_char(s@, c),
{
    let n = s.unicode_len();
    let mut i: usize = 0;
    while i < n
        invariant
            i <= n,
            n == s@.len(),
            forall|j: int| 0 <= j < i ==> s@[j] != c,
        decreases n - i,
    {
        if s.get_char(i) == c {
            return true;
        }
        i += 1;
    }
    false
}

/// A subscriber name that passed validation; it wraps the raw string
/// unchanged, so its view is exactly the string it was parsed from.
#[derive(Debug)]
pub struct SubscriberName(String);

impl View for SubscriberName {
    type V = Seq<char>;

    closed spec fn view(&self) -> Seq<char> {
        self.0@
    }
}

impl SubscriberName {
    /// Validate a raw subscriber name: it must not be empty or whitespace
    /// alone, must hold at most 256 grapheme clusters, and must contain
    /// none of `/ ( ) " < > \ { }`. A valid name is wrapped unchanged.
    pub fn parse(s: String) -> (r: Result<SubscriberName, ValidationError>)
        ensures
            r is Ok <==> name_valid(s@),
            r matches Ok(n) ==> n@ == s@,
            r is Err ==> r == Err::<SubscriberName, ValidationError>(ValidationError::InvalidName),
    {
        if is_all_whitespace(s.as_str()) {
            return Err(ValidationError::InvalidName);
        }
        if count_graphemes(s.as_str()) > 256 {
            return Err(ValidationError::InvalidName);
        }
        if has_forbidden_char(s.as_str()) {
            return Err(ValidationError::InvalidName);
        }
        Ok(SubscriberName(s))
    }

    /// The wrapped string, unchanged from what was parsed.
    pub fn as_ref(&self) -> (r: &str)
        ensures
            r@ == self@,
    {
        self.0.as_str()
    }
}

/// A subscriber email address that passed validation; it wraps the raw
/// string unchanged, so its view is exactly the string it was parsed from.
#[derive(Debug)]
pub struct SubscriberEmail(String);

impl View for SubscriberEmail {
    type V = Seq<char>;

    closed spec fn view(&self) -> Seq<char> {
        self.0@
    }
}

impl SubscriberEmail {
    /// Validate a raw email address: it must be non-empty, contain an `@`,
    /// and satisfy the email grammar. A valid address is wrapped unchanged;
    /// no normalisation is performed.
    pub fn parse(s: String) -> (r: Result<SubscriberEmail, ValidationError>)
        ensures
            r is Ok <==> email_valid(s@),
            r matches Ok(e) ==> e@ == s@,
            r is Err ==> r == Err::<SubscriberEmail, ValidationError>(
                ValidationError::InvalidEmail,
            ),
    {
        if s.as_str().unicode_len() == 0 {
            return Err(ValidationError::InvalidEmail);
        }
        if !has_char(s.as_str(), '@') {
            return Err(ValidationError::InvalidEmail);
        }
        if !check_email_grammar(s.as_str()) {
            return Err(ValidationError::InvalidEmail);
        }
        Ok(SubscriberEmail(s))
    }

    /// The wrapped string, unchanged from what was parsed.
    pub fn as_ref(&self) -> (r: &str)
        ensures
            r@ == self@,
    {
        self.0.as_str()
    }
}

/// A validated subscription request: a valid email address paired with a
/// valid subscriber name, ready for persistence.
#[derive(Debug)]
pub struct NewSubscriber {
    pub email: SubscriberEmail,
    pub name: SubscriberName,
}

impl NewSubscriber {
    /// Validate both raw fields of a subscription request, the email
    /// address first: the first rejection is returned and nothing is
    /// constructed, so a `NewSubscriber` exists only when both fields
    /// are valid.
    pub fn parse(email: String, name: String) -> (r: Result<NewSubscriber, ValidationError>)
        ensures
            r is Ok <==> email_valid(email@) && name_valid(name@),
            r matches Ok(n) ==> n.email@ == email@ && n.name@ == name@,
            !email_valid(email@) ==> r == Err::<NewSubscriber, ValidationError>(
                ValidationError::InvalidEmail,
            ),
            email_valid(email@) && !name_valid(name@) ==> r == Err::<NewSubscriber,
                ValidationError>(ValidationError::InvalidName),
    {
        let subscriber_email = match SubscriberEmail::parse(email) {
            Ok(e) => e,
            Err(err) => {
                return Err(err);
            },
        };
        let subscriber_name = match SubscriberName::parse(name) {
            Ok(n) => n,
            Err(err) => {
                return Err(err);
            },
        };
        Ok(NewSubscriber { email: subscriber_email, name: subscriber_name })
    }
}

} // verus!
