//! Session configuration: the command-line arguments, the parsed server
//! address, and the session identity line.

use vstd::prelude::*;
use crate::text::trim_str;
use crate::text::trimmed;

verus! {

#[verifier::external_type_specification]
#[verifier::external_body]
pub struct ExUrl(url::Url);

#[verifier::external_type_specification]
#[verifier::external_body]
pub struct ExParseError(url::ParseError);

/// Whether a string parses as an absolute URL per the WHATWG URL standard;
/// `url::Url::parse` succeeds on exactly these strings.
pub uninterp spec fn url_parses(s: Seq<char>) -> bool;

/// Relies on url::Url::parse: parses an absolute URL from a string per the
/// WHATWG URL standard, returning the parsed URL or a parse error. Whether
/// parsing succeeds depends on the string alone, named `url_parses`. The
/// parsed URL is only carried through to the connection; nothing is read
/// out of it here.
#[verifier::external_body]
fn parse_url(s: &str) -> (r: Result<url::Url, url::ParseError>)
    ensures
        r is Ok <==> url_parses(s@),
{
    url::Url::parse(s)
}

/// The greeting for a username: the trimmed name followed by `: `.
pub open spec fn greeting_of(username: Seq<char>) -> Seq<char> {
    trimmed(username) + seq![':', ' ']
}

/// The session identity line sent as the first text message of a session:
/// the trimmed username followed by `: `.
pub fn session_greeting(username: &str) -> (r: String)
    ensures
        r@ == greeting_of(username@),
{
    let mut s = String::from_str(trim_str(username));
    s.append(": ");
    proof {
        reveal_strlit(": ");
        assert(": "@ =~= seq![':', ' ']);
    }
    s
}

/// Why launching could not produce a session configuration.
#[derive(Clone, Copy, Debug, PartialEq, Eq, Structural)]
pub enum ConfigError {
    /// No server address argument was given.
    MissingAddress,
    /// No username argument was given.
    MissingUsername,
    /// The server address does not parse as a URL.
    BadAddress,
}

/// Everything a session needs from the command line.
#[derive(Debug)]
pub struct Config {
    /// The parsed server address.
    pub url: url::Url,
    /// The session identity text: the trimmed username followed by `: `.
    pub greeting: String,
}

/// Build the session configuration from the process arguments (program name
/// first, then the server address, then the username). Each missing or bad
/// argument yields its own error; with both arguments present the result is
/// the parsed address and the greeting exactly when the address parses, and
/// `BadAddress` exactly when it does not.
pub fn build_config(args: &Vec<String>) -> (r: Result<Config, ConfigError>)
    ensures
        args@.len() < 2 ==> r == Err::<Config, ConfigError>(ConfigError::MissingAddress),
        args@.len() == 2 ==> r == Err::<Config, ConfigError>(ConfigError::MissingUsername),
        args@.len() >= 3 ==> (r is Ok <==> url_parses(args@[1]@)),
        args@.len() >= 3 ==> match r {
            Ok(c) => c.greeting@ == greeting_of(args@[2]@),
            Err(e) => e == ConfigError::BadAddress,
        },
{
    if args.len() < 2 {
        Err(ConfigError::MissingAddress)
    } else if args.len() == 2 {
        Err(ConfigError::MissingUsername)
    } else {
        match parse_url(args[1].as_str()) {
            Ok(u) => Ok(Config { url: u, greeting: session_greeting(args[2].as_str()) }),
            Err(_) => Err(ConfigError::BadAddress),
        }
    }
}

} // verus!
