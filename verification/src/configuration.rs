//! Process configuration: the runtime environment, the application's
//! listen settings, and the database settings with their connection
//! strings.
//!
//! Reading configuration files and environment variables is the
//! embedding application's job; this module holds the values and the
//! logic on them.

use vstd::prelude::*;
use vstd::string::StringExecFns;

verus! {

/// Lowercase folding as the standard library performs it: the result
/// depends on the characters alone.
pub uninterp spec fn lower_of(s: Seq<char>) -> Seq<char>;

/// Relies on `str::to_lowercase`: the Unicode lowercase mapping of the
/// string, a function of its characters alone.
#[verifier::external_body]
fn to_lowercase_str(s: &str) -> (r: String)
    ensures
        r@ == lower_of(s@),
{
    s.to_lowercase()
}

/// The environment the process runs in, selecting which configuration
/// file applies.
#[derive(Clone, Copy, PartialEq, Eq, Structural, Debug)]
pub enum Environment {
    Local,
    Production,
}

impl Environment {
    /// The name of the environment as configuration spells it.
    pub fn as_str(&self) -> (r: &'static str)
        ensures
            *self is Local ==> r@ == "local"@,
            *self is Production ==> r@ == "production"@,
    {
        match self {
            Environment::Local => "local",
            Environment::Production => "production",
        }
    }

    /// Reads an environment name, case-insensitively: accepted exactly
    /// when it folds to one of the two known names, refused with a
    /// diagnostic message otherwise.
    pub fn parse(value: &str) -> (r: Result<Environment, String>)
        ensures
            r is Ok <==> (lower_of(value@) == "local"@ || lower_of(value@) == "production"@),
            lower_of(value@) == "local"@ ==> r == Result::<Environment, String>::Ok(
                Environment::Local,
            ),
            lower_of(value@) == "production"@ ==> r == Result::<Environment, String>::Ok(
                Environment::Production,
            ),
            r is Err ==> r->Err_0@ == lower_of(value@)
                + " is not a supported environment. Use either `local` or `production`."@,
    {
        proof {
            reveal_strlit("local");
            reveal_strlit("production");
            assert("local"@.len() == 5);
            assert("production"@.len() == 10);
        }
        let lowered = to_lowercase_str(value);
        if lowered.eq(&String::from_str("local")) {
            Ok(Environment::Local)
        } else if lowered.eq(&String::from_str("production")) {
            Ok(Environment::Production)
        } else {
            let mut message = lowered;
            message.append(" is not a supported environment. Use either `local` or `production`.");
            Err(message)
        }
    }

    /// The configuration file this environment selects.
    pub fn config_file_name(&self) -> (r: String)
        ensures
            *self is Local ==> r@ == "local.yaml"@,
            *self is Production ==> r@ == "production.yaml"@,
    {
        let mut name = String::from_str(self.as_str());
        name.append(".yaml");
        proof {
            reveal_strlit("local");
            reveal_strlit("production");
            reveal_strlit(".yaml");
            reveal_strlit("local.yaml");
            reveal_strlit("production.yaml");
            if self is Local {
                assert(name@ =~= "local.yaml"@);
            } else {
                assert(name@ =~= "production.yaml"@);
            }
        }
        name
    }
}

/// The application's listen settings.
pub struct AppSettings {
    pub port: u16,
    pub host: String,
}

/// The database settings. The password is held as the plain value the
/// connection string needs; an embedding application that wants it
/// wrapped against accidental logging keeps its own wrapped copy.
pub struct DatabaseSettings {
    pub username: String,
    pub password: String,
    pub host: String,
    pub port: u16,
    pub database_name: String,
}

/// Everything the process is configured with.
pub struct Settings {
    pub database: DatabaseSettings,
    pub app: AppSettings,
}

/// The decimal digit character for one digit value.
pub open spec fn digit_char(d: nat) -> char {
    if d == 0 {
        '0'
    } else if d == 1 {
        '1'
    } else if d == 2 {
        '2'
    } else if d == 3 {
        '3'
    } else if d == 4 {
        '4'
    } else if d == 5 {
        '5'
    } else if d == 6 {
        '6'
    } else if d == 7 {
        '7'
    } else if d == 8 {
        '8'
    } else {
        '9'
    }
}

/// The decimal rendering of a number, most significant digit first,
/// without leading zeros (except for zero itself).
pub open spec fn decimal_digits(n: nat) -> Seq<char>
    decreases n,
{
    if n < 10 {
        seq![digit_char(n)]
    } else {
        decimal_digits(n / 10).push(digit_char(n % 10))
    }
}

fn digit_str(d: u16) -> (r: &'static str)
    requires
        d < 10,
    ensures
        r@ == seq![digit_char(d as nat)],
{
    let r: &'static str = match d {
        0 => "0",
        1 => "1",
        2 => "2",
        3 => "3",
        4 => "4",
        5 => "5",
        6 => "6",
        7 => "7",
        8 => "8",
        _ => "9",
    };
    proof {
        reveal_strlit("0");
        reveal_strlit("1");
        reveal_strlit("2");
        reveal_strlit("3");
        reveal_strlit("4");
        reveal_strlit("5");
        reveal_strlit("6");
        reveal_strlit("7");
        reveal_strlit("8");
        reveal_strlit("9");
        assert(r@ =~= seq![digit_char(d as nat)]);
    }
    r
}

/// Renders a port number in decimal.
fn u16_decimal(n: u16) -> (s: String)
    ensures
        s@ == decimal_digits(n as nat),
    decreases n,
{
    if n < 10 {
        let mut s = String::new();
        s.append(digit_str(n));
        proof {
            assert(s@ =~= decimal_digits(n as nat));
        }
        s
    } else {
        assert(n / 10 < n);
        let mut s = u16_decimal(n / 10);
        s.append(digit_str(n % 10));
        proof {
            assert(s@ =~= decimal_digits(n as nat));
        }
        s
    }
}

/// The connection string for the configured database.
pub open spec fn connection_string_of(
    username: Seq<char>,
    password: Seq<char>,
    host: Seq<char>,
    port: u16,
    database_name: Seq<char>,
) -> Seq<char> {
    "postgres://"@ + username + ":"@ + password + "@"@ + host + ":"@ + decimal_digits(port as nat)
        + "/"@ + database_name
}

/// The connection string for the server alone, without a database.
pub open spec fn server_connection_string_of(
    username: Seq<char>,
    password: Seq<char>,
    host: Seq<char>,
    port: u16,
) -> Seq<char> {
    "postgres://"@ + username + ":"@ + password + "@"@ + host + ":"@ + decimal_digits(port as nat)
}

impl DatabaseSettings {
    /// The connection string naming the configured database.
    pub fn connection_string(&self) -> (r: String)
        ensures
            r@ == connection_string_of(
                self.username@,
                self.password@,
                self.host@,
                self.port,
                self.database_name@,
            ),
    {
        let mut s = self.connection_string_without_db();
        s.append("/");
        s.append(self.database_name.as_str());
        proof {
            assert(s@ =~= connection_string_of(
                self.username@,
                self.password@,
                self.host@,
                self.port,
                self.database_name@,
            ));
        }
        s
    }

    /// The connection string for the server alone, as used to create
    /// or select databases.
    pub fn connection_string_without_db(&self) -> (r: String)
        ensures
            r@ == server_connection_string_of(
                self.username@,
                self.password@,
                self.host@,
                self.port,
            ),
    {
        let mut s = String::from_str("postgres://");
        s.append(self.username.as_str());
        s.append(":");
        s.append(self.password.as_str());
        s.append("@");
        s.append(self.host.as_str());
        s.append(":");
        let port = u16_decimal(self.port);
        s.append(port.as_str());
        proof {
            assert(s@ =~= server_connection_string_of(
                self.username@,
                self.password@,
                self.host@,
                self.port,
            ));
        }
        s
    }
}

} // verus!
