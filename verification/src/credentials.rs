//! Credentials of one mail account.
//!
//! The values come from the environment of the process:
//!
//! ```env
//! DOMAIN=example.com
//! EMAIL=bob@example.com
//! PASSWORD=P@ssw0rd
//! ```
//!
//! Looking the variables up is left to the caller; this module decides what
//! the looked-up values amount to.

use vstd::prelude::*;

verus! {

/// Errors that may occur while assembling the credentials.
#[derive(Debug, PartialEq, Eq)]
pub enum Error {
    /// The `.env` file could not be read; the payload is the reader's message.
    InvalidFile(String),
    /// The provided IMAP port is not a decimal number that fits a port.
    InvalidPort,
    /// The wanted variable is missing from the environment.
    MissingVariable(&'static str),
}

/// Credentials to interact with the mail server.
pub struct Credentials {
    /// Mail domain
    domain_name: String,
    /// Mail address
    email: String,
    /// IMAP encryption protocol (`SSL`, `TLS`, ...)
    imap_encryption_protocol: String,
    /// IMAP port
    imap_port: u16,
    /// Password of the account
    password: String,
}

/// Mathematical content of [`Credentials`].
pub struct CredentialsView {
    pub domain_name: Seq<char>,
    pub email: Seq<char>,
    pub imap_encryption_protocol: Seq<char>,
    pub imap_port: u16,
    pub password: Seq<char>,
}

impl View for Credentials {
    type V = CredentialsView;

    closed spec fn view(&self) -> CredentialsView {
        CredentialsView {
            domain_name: self.domain_name@,
            email: self.email@,
            imap_encryption_protocol: self.imap_encryption_protocol@,
            imap_port: self.imap_port,
            password: self.password@,
        }
    }
}

/// Whether `c` is one of the ten decimal digits.
pub open spec fn is_digit(c: char) -> bool {
    '0' <= c <= '9'
}

/// Value of a decimal digit.
pub open spec fn digit_value(c: char) -> nat {
    (c as nat - '0' as nat) as nat
}

/// Number that a sequence of decimal digits denotes.
pub open spec fn decimal_value(digits: Seq<char>) -> nat
    decreases digits.len(),
{
    if digits.len() == 0 {
        0
    } else {
        decimal_value(digits.drop_last()) * 10 + digit_value(digits.last())
    }
}

/// Digits of a port text: the text without its optional leading `+`.
pub open spec fn port_digits(text: Seq<char>) -> Seq<char> {
    if text.len() > 0 && text[0] == '+' {
        text.skip(1)
    } else {
        text
    }
}

/// A port text is an optional `+`, then at least one decimal digit and
/// nothing else, denoting a number that fits in sixteen bits.
pub open spec fn is_port_text(text: Seq<char>) -> bool {
    let digits = port_digits(text);
    &&& digits.len() > 0
    &&& forall|i: int| 0 <= i < digits.len() ==> is_digit(#[trigger] digits[i])
    &&& decimal_value(digits) <= u16::MAX
}

/// Outcome of reading the port from the value of its variable, if any.
pub open spec fn port_outcome(value: Option<Seq<char>>) -> Result<u16, Error> {
    match value {
        None => Ok(IMAP_PORT_DEFAULT),
        Some(text) => if is_port_text(text) {
            Ok(decimal_value(port_digits(text)) as u16)
        } else {
            Err(Error::InvalidPort)
        },
    }
}

/// Key of the domain variable.
pub const DOMAIN: &'static str = "DOMAIN";

/// Key of the mail address variable.
pub const EMAIL: &'static str = "EMAIL";

/// Key of the IMAP encryption variable.
pub const IMAP_ENCRYPTION_PROTOCOL: &'static str = "IMAP_ENCRYPTION_PROTOCOL";

/// Key of the IMAP port variable.
pub const IMAP_PORT: &'static str = "IMAP_PORT";

/// Port used when the environment names none.
pub const IMAP_PORT_DEFAULT: u16 = 993;

/// Key of the password variable.
pub const PASSWORD: &'static str = "PASSWORD";

/// What was looked up in the environment: the value of each variable that
/// is set.
#[derive(Debug)]
pub struct Variables {
    /// Value of [`DOMAIN`]
    pub domain: Option<String>,
    /// Value of [`EMAIL`]
    pub email: Option<String>,
    /// Value of [`IMAP_PORT`]
    pub imap_port: Option<String>,
    /// Value of [`IMAP_ENCRYPTION_PROTOCOL`]
    pub imap_encryption_protocol: Option<String>,
    /// Value of [`PASSWORD`]
    pub password: Option<String>,
}

/// The credentials that the environment gives, or the first reason why it
/// gives none: the file that was not read, then each variable in turn.
pub open spec fn load_outcome(file: Result<(), String>, variables: Variables) -> Result<
    CredentialsView,
    Error,
> {
    if let Err(message) = file {
        Err(Error::InvalidFile(message))
    } else if variables.domain.is_none() {
        Err(Error::MissingVariable(DOMAIN))
    } else if variables.email.is_none() {
        Err(Error::MissingVariable(EMAIL))
    } else if let Err(error) = port_outcome(variables.imap_port.deep_view()) {
        Err(error)
    } else if variables.imap_encryption_protocol.is_none() {
        Err(Error::MissingVariable(IMAP_ENCRYPTION_PROTOCOL))
    } else if variables.password.is_none() {
        Err(Error::MissingVariable(PASSWORD))
    } else {
        Ok(
            CredentialsView {
                domain_name: variables.domain.unwrap()@,
                email: variables.email.unwrap()@,
                imap_encryption_protocol: variables.imap_encryption_protocol.unwrap()@,
                imap_port: port_outcome(variables.imap_port.deep_view()).unwrap(),
                password: variables.password.unwrap()@,
            },
        )
    }
}

/// Mathematical content of the outcome of loading the credentials.
pub open spec fn credentials_view(outcome: Result<Credentials, Error>) -> Result<
    CredentialsView,
    Error,
> {
    match outcome {
        Ok(credentials) => Ok(credentials@),
        Err(error) => Err(error),
    }
}

/// A longer run of digits denotes a number at least as large as ten times
/// the number of the run without its last digit.
proof fn lemma_decimal_value_step(digits: Seq<char>, i: int)
    requires
        0 <= i < digits.len(),
    ensures
        decimal_value(digits.take(i + 1)) == decimal_value(digits.take(i)) * 10 + digit_value(
            digits[i],
        ),
{
    assert(digits.take(i + 1).drop_last() =~= digits.take(i));
}

/// Once a prefix of a run of digits denotes more than `bound`, so does the
/// whole run.
proof fn lemma_decimal_value_grows(digits: Seq<char>, i: int, bound: nat)
    requires
        0 <= i <= digits.len(),
        decimal_value(digits.take(i)) > bound,
    ensures
        decimal_value(digits) > bound,
    decreases digits.len() - i,
{
    if i < digits.len() {
        lemma_decimal_value_step(digits, i);
        lemma_decimal_value_grows(digits, i + 1, bound);
    } else {
        assert(digits.take(i) =~= digits);
    }
}

impl Credentials {
    /// Assembles credentials from their five parts.
    pub fn new(
        domain_name: String,
        email: String,
        imap_encryption_protocol: String,
        imap_port: u16,
        password: String,
    ) -> (credentials: Self)
        ensures
            credentials@ == (CredentialsView {
                domain_name: domain_name@,
                email: email@,
                imap_encryption_protocol: imap_encryption_protocol@,
                imap_port,
                password: password@,
            }),
    {
        Self { domain_name, email, imap_encryption_protocol, imap_port, password }
    }

    /// Returns the domain
    pub fn as_domain_name(&self) -> (domain_name: &str)
        ensures
            domain_name@ == self@.domain_name,
    {
        self.domain_name.as_str()
    }

    /// Returns the email
    pub fn as_email(&self) -> (email: &str)
        ensures
            email@ == self@.email,
    {
        self.email.as_str()
    }

    /// Returns the socket address
    ///
    /// A socket address is the combination of a hostname and a port.
    pub fn as_imap_socket_address(&self) -> (address: (&str, u16))
        ensures
            address.0@ == self@.domain_name,
            address.1 == self@.imap_port,
    {
        (self.domain_name.as_str(), self.imap_port)
    }

    /// Returns the password
    pub fn as_password(&self) -> (password: &str)
        ensures
            password@ == self@.password,
    {
        self.password.as_str()
    }

    /// Loads the credentials from what was looked up in the environment,
    /// given the outcome of reading the `.env` file into it.
    pub fn load(file: Result<(), String>, variables: Variables) -> (credentials: Result<
        Self,
        Error,
    >)
        ensures
            credentials_view(credentials) == load_outcome(file, variables),
    {
        if let Err(message) = file {
            return Err(Error::InvalidFile(message));
        }
        let Variables { domain, email, imap_port, imap_encryption_protocol, password } = variables;
        let domain_name = match domain {
            Some(value) => value,
            None => { return Err(Error::MissingVariable(DOMAIN)); },
        };
        let email = match email {
            Some(value) => value,
            None => { return Err(Error::MissingVariable(EMAIL)); },
        };
        let port = match &imap_port {
            Some(value) => Self::load_imap_port(Some(value.as_str())),
            None => Self::load_imap_port(None),
        };
        let imap_port = match port {
            Ok(port) => port,
            Err(error) => { return Err(error); },
        };
        let imap_encryption_protocol = match imap_encryption_protocol {
            Some(value) => value,
            None => { return Err(Error::MissingVariable(IMAP_ENCRYPTION_PROTOCOL)); },
        };
        let password = match password {
            Some(value) => value,
            None => { return Err(Error::MissingVariable(PASSWORD)); },
        };
        Ok(Self { domain_name, email, imap_encryption_protocol, imap_port, password })
    }

    /// Reads the IMAP port from the value of its variable.
    ///
    /// The port defaults to [`IMAP_PORT_DEFAULT`] if the variable is not set.
    pub fn load_imap_port(value: Option<&str>) -> (port: Result<u16, Error>)
        ensures
            port == port_outcome(
                match value {
                    Some(text) => Some(text@),
                    None => None,
                },
            ),
    {
        let text = match value {
            Some(text) => text,
            None => { return Ok(IMAP_PORT_DEFAULT); },
        };
        let len: usize = text.unicode_len();
        let start: usize = if len > 0 && text.get_char(0) == '+' {
            1
        } else {
            0
        };
        let ghost digits = port_digits(text@);
        if len == start {
            return Err(Error::InvalidPort);
        }
        let mut number: u32 = 0;
        let mut i: usize = start;
        while i < len
            invariant
                value == Some(text),
                start <= i <= len,
                len == text@.len(),
                digits == port_digits(text@),
                digits.len() == len - start,
                forall|j: int| 0 <= j < digits.len() ==> digits[j] == text@[j + start],
                forall|j: int| 0 <= j < i - start ==> is_digit(#[trigger] digits[j]),
                number == decimal_value(digits.take(i - start)),
                number <= u16::MAX,
            decreases len - i,
        {
            let c: char = text.get_char(i);
            if !('0' <= c && c <= '9') {
                assert(!is_digit(digits[i - start]));
                return Err(Error::InvalidPort);
            }
            let digit: u32 = c as u32 - '0' as u32;
            proof {
                lemma_decimal_value_step(digits, i - start);
            }
            number = number * 10 + digit;
            if number > 65535 {
                proof {
                    lemma_decimal_value_grows(digits, i - start + 1, u16::MAX as nat);
                }
                return Err(Error::InvalidPort);
            }
            i += 1;
        }
        assert(digits.take(i - start) =~= digits);
        Ok(number as u16)
    }
}

} // verus!
