//! Runtime configuration: the environment profile that selects which
//! configuration files are layered, and the typed settings they produce.

use vstd::prelude::*;
use vstd::string::StrSliceExecFns;
use vstd::string::StringExecFns;

verus! {

/// The deployment profile a process runs under. It selects which
/// environment-specific configuration file is layered over the base file.
#[derive(Clone, Copy, Debug, PartialEq, Eq, Structural)]
pub enum Environment {
    Local,
    Production,
}

/// Case-insensitive equality of two characters, where case folding is the
/// ASCII one: `A`..`Z` and `a`..`z` are identified, all other characters
/// must match exactly.
pub open spec fn chars_eq_ci(a: char, b: char) -> bool {
    let x = a as u32;
    let y = b as u32;
    x == y || (65 <= x <= 90 && y == x + 32) || (65 <= y <= 90 && x == y + 32)
}

/// Case-insensitive equality of two strings, character by character.
pub open spec fn str_eq_ci_spec(s: Seq<char>, t: Seq<char>) -> bool {
    s.len() == t.len() && forall|i: int| 0 <= i < s.len() ==> chars_eq_ci(s[i], t[i])
}

/// The profile a raw `APP_ENVIRONMENT` value names, if any: `local` and
/// `production` are recognised case-insensitively, nothing else is.
pub open spec fn environment_of(s: Seq<char>) -> Option<Environment> {
    if str_eq_ci_spec(s, "local"@) {
        Some(Environment::Local)
    } else if str_eq_ci_spec(s, "production"@) {
        Some(Environment::Production)
    } else {
        None
    }
}

fn char_eq_ci(a: char, b: char) -> (r: bool)
    ensures
        r == chars_eq_ci(a, b),
{
    let x = a as u32;
    let y = b as u32;
    x == y || (65 <= x && x <= 90 && y == x + 32) || (65 <= y && y <= 90 && x == y + 32)
}

fn str_eq_ci(s: &str, t: &str) -> (r: bool)
    ensures
        r == str_eq_ci_spec(s@, t@),
{
    let n = s.unicode_len();
    if n != t.unicode_len() {
        return false;
    }
    let mut i: usize = 0;
    while i < n
        invariant
            i <= n,
            n == s@.len(),
            s@.len() == t@.len(),
            forall|j: int| 0 <= j < i ==> chars_eq_ci(s@[j], t@[j]),
        decreases n - i,
    {
        if !char_eq_ci(s.get_char(i), t.get_char(i)) {
            return false;
        }
        i += 1;
    }
    true
}

impl Environment {
    /// The file-name stem of the profile's configuration file.
    pub fn as_str(&self) -> (r: &str)
        ensures
            *self is Local ==> r@ == "local"@,
            *self is Production ==> r@ == "production"@,
    {
        match self {
            Environment::Local => "local",
            Environment::Production => "production",
        }
    }

    /// Recognise a raw profile name, case-insensitively; any string that
    /// names no known profile is rejected with a diagnostic message.
    pub fn parse(raw: &str) -> (r: Result<Environment, String>)
        ensures
            r is Ok <==> environment_of(raw@) is Some,
            r matches Ok(e) ==> environment_of(raw@) == Some(e),
            r matches Err(m) ==> m@ == raw@
                + " is not a supported environment. Use either `local` or `production`."@,
    {
        if str_eq_ci(raw, "local") {
            Ok(Environment::Local)
        } else if str_eq_ci(raw, "production") {
            Ok(Environment::Production)
        } else {
            Err(raw.to_owned().concat(
                " is not a supported environment. Use either `local` or `production`.",
            ))
        }
    }
}

/// An opaque credential holder: the wrapped value is never rendered or
/// serialised by this crate and is only reachable through the explicit
/// [`SecretString::expose_secret`] accessor, used solely when a transport
/// call is being constructed.
pub struct SecretString {
    secret: String,
}

impl View for SecretString {
    type V = Seq<char>;

    closed spec fn view(&self) -> Seq<char> {
        self.secret@
    }
}

impl Clone for SecretString {
    fn clone(&self) -> (r: Self)
        ensures
            r@ == self@,
    {
        SecretString { secret: self.secret.clone() }
    }
}

impl SecretString {
    /// Wrap a credential; the wrapped value is the view of the holder.
    pub fn new(secret: String) -> (r: SecretString)
        ensures
            r@ == secret@,
    {
        SecretString { secret }
    }

    /// The explicit accessor: the only way back to the wrapped value.
    pub fn expose_secret(&self) -> (r: &str)
        ensures
            r@ == self@,
    {
        self.secret.as_str()
    }
}

/// The character of the decimal digit `d`.
pub open spec fn digit_char(d: int) -> char {
    if d == 0 {
        '0'
    } else if d == 1 {
        '1'
    } else if d == 2 {
        '2'
    } else if d == 3 {
        '3'
    } else if d == 4 {
        '4'
    } else if d == 5 {
        '5'
    } else if d == 6 {
        '6'
    } else if d == 7 {
        '7'
    } else if d == 8 {
        '8'
    } else {
        '9'
    }
}

/// The decimal rendering of `n`, most significant digit first, without
/// leading zeroes (a lone zero for zero itself).
pub open spec fn dec_digits(n: nat) -> Seq<char>
    decreases n,
{
    if n < 10 {
        seq![digit_char(n as int)]
    } else {
        dec_digits(n / 10) + seq![digit_char((n % 10) as int)]
    }
}

fn digit_str(d: u16) -> (r: &'static str)
    requires
        d < 10,
    ensures
        r@ == seq![digit_char(d as int)],
{
    proof {
        reveal_strlit("0");
        reveal_strlit("1");
        reveal_strlit("2");
        reveal_strlit("3");
        reveal_strlit("4");
        reveal_strlit("5");
        reveal_strlit("6");
        reveal_strlit("7");
        reveal_strlit("8");
        reveal_strlit("9");
    }
    match d {
        0 => "0",
        1 => "1",
        2 => "2",
        3 => "3",
        4 => "4",
        5 => "5",
        6 => "6",
        7 => "7",
        8 => "8",
        _ => "9",
    }
}

fn u16_to_decimal(n: u16) -> (r: String)
    ensures
        r@ == dec_digits(n as nat),
    decreases n,
{
    if n < 10 {
        digit_str(n).to_owned()
    } else {
        let rest = u16_to_decimal(n / 10);
        rest.concat(digit_str(n % 10))
    }
}

impl ApplicationSettings {
    /// The `host:port` string the HTTP listener binds, with the port in
    /// its decimal rendering.
    pub fn address(&self) -> (r: String)
        ensures
            r@ == self.host@ + ":"@ + dec_digits(self.port as nat),
    {
        let r = self.host.clone().concat(":").concat(u16_to_decimal(self.port).as_str());
        proof {
            assert(r@ =~= self.host@ + ":"@ + dec_digits(self.port as nat));
        }
        r
    }
}

/// Connection parameters for the subscription store.
pub struct DatabaseSettings {
    pub require_ssl: bool,
    pub username: String,
    pub password: SecretString,
    pub host: String,
    pub port: u16,
    pub database_name: String,
}

/// The address the HTTP listener binds.
pub struct ApplicationSettings {
    pub host: String,
    pub port: u16,
}

/// Parameters of the outbound email client.
pub struct EmailClientSettings {
    pub base_url: String,
    pub sender_email: String,
    pub authorization_token: SecretString,
    pub timeout_milliseconds: u64,
}

/// The full configuration a process runs with, loaded once at startup.
pub struct Settings {
    pub database: DatabaseSettings,
    pub application: ApplicationSettings,
    pub email_client: EmailClientSettings,
}

/// How the database connection negotiates TLS.
#[derive(Clone, Copy, Debug, PartialEq, Eq, Structural)]
pub enum SslMode {
    /// TLS is required; the connection fails without it.
    Require,
    /// TLS is attempted, an unencrypted connection is accepted.
    Prefer,
}

/// Everything the database driver needs to open a connection, as plain
/// values; the driver consumes these outside this crate.
pub struct ConnectionParams {
    pub host: String,
    pub port: u16,
    pub username: String,
    pub password: SecretString,
    pub ssl_mode: SslMode,
    pub database: Option<String>,
}

impl DatabaseSettings {
    /// Connection parameters for the server itself, naming no database:
    /// TLS is required exactly when the settings demand it, preferred
    /// otherwise.
    pub fn without_db(&self) -> (r: ConnectionParams)
        ensures
            r.host@ == self.host@,
            r.port == self.port,
            r.username@ == self.username@,
            r.password@ == self.password@,
            r.ssl_mode == (if self.require_ssl {
                SslMode::Require
            } else {
                SslMode::Prefer
            }),
            r.database is None,
    {
        let ssl_mode = if self.require_ssl {
            SslMode::Require
        } else {
            SslMode::Prefer
        };
        ConnectionParams {
            host: self.host.clone(),
            port: self.port,
            username: self.username.clone(),
            password: self.password.clone(),
            ssl_mode,
            database: None,
        }
    }

    /// Connection parameters naming the configured database, otherwise
    /// identical to [`DatabaseSettings::without_db`].
    pub fn with_db(&self) -> (r: ConnectionParams)
        ensures
            r.host@ == self.host@,
            r.port == self.port,
            r.username@ == self.username@,
            r.password@ == self.password@,
            r.ssl_mode == (if self.require_ssl {
                SslMode::Require
            } else {
                SslMode::Prefer
            }),
            r.database matches Some(d) && d@ == self.database_name@,
    {
        let mut params = self.without_db();
        params.database = Some(self.database_name.clone());
        params
    }
}

impl EmailClientSettings {
    /// The configured sender address, validated like any subscriber
    /// address; a sender that fails validation is a configuration fault.
    pub fn sender(&self) -> (r: Result<
        crate::domain::SubscriberEmail,
        crate::domain::ValidationError,
    >)
        ensures
            r is Ok <==> crate::domain::email_valid(self.sender_email@),
            r matches Ok(e) ==> e@ == self.sender_email@,
    {
        crate::domain::SubscriberEmail::parse(self.sender_email.clone())
    }

    /// The outbound call timeout, in milliseconds.
    pub fn timeout_millis(&self) -> (r: u64)
        ensures
            r == self.timeout_milliseconds,
    {
        self.timeout_milliseconds
    }
}

/// Pick the deployment profile from the raw `APP_ENVIRONMENT` process
/// variable: an unset variable defaults to the local profile, a set one
/// must name a known profile or startup must be abandoned.
pub fn select_environment(raw: Option<String>) -> (r: Result<Environment, String>)
    ensures
        raw is None ==> r == Ok::<Environment, String>(Environment::Local),
        raw matches Some(s) ==> (r is Ok <==> environment_of(s@) is Some),
        raw matches Some(s) ==> (r matches Ok(e) ==> environment_of(s@) == Some(e)),
        raw matches Some(s) ==> (r matches Err(m) ==> m@ == s@
            + " is not a supported environment. Use either `local` or `production`."@),
{
    match raw {
        None => Ok(Environment::Local),
        Some(s) => Environment::parse(s.as_str()),
    }
}

} // verus!
