//! The four secrets that sign a request.

use vstd::prelude::*;
use vstd::string::*;
use crate::args::{BaseArgs, Parsed};
use crate::error::TwitterError;

verus! {

/// The consumer key and secret of the application and the access token and
/// secret of the user.
#[derive(Debug, PartialEq, Eq)]
pub struct Credentials {
    pub api_key: String,
    pub api_key_secret: String,
    pub access_token: String,
    pub access_token_secret: String,
}

/// The contents of a credentials file without profiles.
#[derive(Debug, PartialEq, Eq)]
pub struct CredentialsFile {
    pub default: Credentials,
}

impl Credentials {
    /// Whether none of the four values is empty.
    pub open spec fn complete(&self) -> bool {
        &&& self.api_key@.len() > 0
        &&& self.api_key_secret@.len() > 0
        &&& self.access_token@.len() > 0
        &&& self.access_token_secret@.len() > 0
    }
}

/// Tells whether any of the four values is empty.
pub fn is_any_empty(credentials: &Credentials) -> (r: bool)
    ensures
        r == !credentials.complete(),
{
    credentials.api_key.as_str().is_empty() || credentials.api_key_secret.as_str().is_empty()
        || credentials.access_token.as_str().is_empty()
        || credentials.access_token_secret.as_str().is_empty()
}

/// Where the credentials are: the name of the file and the profile in it.
#[derive(Debug, PartialEq, Eq)]
pub struct Args {
    pub credentials_file: String,
    pub profile: Option<String>,
}

/// The name of the credentials file that the arguments give: the value of
/// `credentials` or of `c`, else `.twitter_credentials.toml`.
pub open spec fn wanted_file(p: Parsed) -> Seq<char> {
    if p.named.contains_key("credentials"@) {
        p.named["credentials"@]
    } else if p.named.contains_key("c"@) {
        p.named["c"@]
    } else {
        ".twitter_credentials.toml"@
    }
}

/// The profile that the arguments give: the value of `profile` or of `p`.
pub open spec fn wanted_profile(p: Parsed) -> Option<Seq<char>> {
    if p.named.contains_key("profile"@) {
        Some(p.named["profile"@])
    } else if p.named.contains_key("p"@) {
        Some(p.named["p"@])
    } else {
        None
    }
}

/// Reads from the arguments where the credentials are.
pub fn parse(args: &BaseArgs) -> (out: Args)
    ensures
        out.credentials_file@ == wanted_file(args@),
        out.profile is Some <==> wanted_profile(args@) is Some,
        out.profile matches Some(name) ==> wanted_profile(args@) == Some(name@),
{
    let credentials_file = args.get("credentials", "c", ".twitter_credentials.toml".to_owned());
    let profile = args.get_option("profile", "p");
    Args { credentials_file, profile }
}

/// The text of a value that a profile may lack: empty where it is lacking.
pub open spec fn text_or_empty(value: Option<String>) -> Seq<char> {
    match value {
        Some(s) => s@,
        None => Seq::empty(),
    }
}

fn or_empty(value: Option<String>) -> (out: String)
    ensures
        out@ == text_or_empty(value),
{
    match value {
        Some(s) => s,
        None => String::new(),
    }
}

impl Credentials {
    /// The credentials of a profile, from the four values as far as the
    /// profile has them as texts. A value that it has not is empty.
    pub fn from_fields(
        api_key: Option<String>,
        api_key_secret: Option<String>,
        access_token: Option<String>,
        access_token_secret: Option<String>,
    ) -> (out: Credentials)
        ensures
            out.api_key@ == text_or_empty(api_key),
            out.api_key_secret@ == text_or_empty(api_key_secret),
            out.access_token@ == text_or_empty(access_token),
            out.access_token_secret@ == text_or_empty(access_token_secret),
    {
        Credentials {
            api_key: or_empty(api_key),
            api_key_secret: or_empty(api_key_secret),
            access_token: or_empty(access_token),
            access_token_secret: or_empty(access_token_secret),
        }
    }
}

/// The credentials of a named profile, given what the file holds under
/// that name: an error where it holds nothing, and an error where a value
/// is empty.
pub fn select_profile(profile: &str, found: Option<Credentials>) -> (out: Result<
    Credentials,
    TwitterError,
>)
    ensures
        match out {
            Ok(c) => found == Some(c) && c.complete(),
            Err(e) => match found {
                None => e matches TwitterError::ProfileNotFound(name) && name@ == profile@,
                Some(c) => !c.complete() && (e matches TwitterError::Invalid(what) && what@
                    == "Profile "@ + profile@
                    + " has empty fields! Please ensure all values are present and non-empty"@),
            },
        },
{
    match found {
        None => Err(TwitterError::ProfileNotFound(profile.to_owned())),
        Some(c) => {
            if is_any_empty(&c) {
                Err(
                    TwitterError::Invalid(
                        "Profile ".to_owned().concat(profile).concat(
                            " has empty fields! Please ensure all values are present and non-empty",
                        ),
                    ),
                )
            } else {
                Ok(c)
            }
        },
    }
}

} // verus!
