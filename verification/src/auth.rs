//! Authentication strategies and the HTTP Basic credentials header. The
//! strategy is a closed sum: no auth, Basic, or AWS SigV4 header signing
//! (the signing itself lives in the sigv4 module).

use vstd::prelude::*;
use vstd::string::StringSliceAdditionalSpecFns;
use crate::base64::{base64_of, push_base64};
use crate::text::{push_char, push_str};

verus! {

#[derive(Debug, Clone)]
pub struct BasicAuth {
    pub username: String,
    pub password: Option<String>,
}

#[derive(Debug, Clone)]
pub struct AwsSigv4 {
    pub region: String,
    pub profile: Option<String>,
}

#[derive(Debug)]
pub enum Auth {
    BASIC(BasicAuth),
    AWS(AwsSigv4),
}

pub struct SpecBasicAuth {
    pub username: Seq<char>,
    pub password: Option<Seq<char>>,
}

pub struct SpecAwsSigv4 {
    pub region: Seq<char>,
    pub profile: Option<Seq<char>>,
}

pub enum SpecAuth {
    Basic(SpecBasicAuth),
    Aws(SpecAwsSigv4),
}

/// The view of an optional string.
pub open spec fn spec_opt_str(s: Option<String>) -> Option<Seq<char>> {
    match s {
        Some(t) => Some(t@),
        None => None,
    }
}

impl View for BasicAuth {
    type V = SpecBasicAuth;

    open spec fn view(&self) -> SpecBasicAuth {
        SpecBasicAuth { username: self.username@, password: spec_opt_str(self.password) }
    }
}

impl View for AwsSigv4 {
    type V = SpecAwsSigv4;

    open spec fn view(&self) -> SpecAwsSigv4 {
        SpecAwsSigv4 { region: self.region@, profile: spec_opt_str(self.profile) }
    }
}

impl View for Auth {
    type V = SpecAuth;

    open spec fn view(&self) -> SpecAuth {
        match self {
            Auth::BASIC(b) => SpecAuth::Basic(b@),
            Auth::AWS(a) => SpecAuth::Aws(a@),
        }
    }
}

/// The choice a connection-settings form offers; `auth_from_choice` turns it
/// into a strategy.
#[derive(Debug, Default, Clone, Copy, Eq, PartialEq, Structural)]
pub enum AuthChoice {
    Basic,
    AWSSigV4,
    #[default]
    NoAuth,
}

/// The strategy selected by a choice, given the data entered for each kind.
pub fn auth_from_choice(choice: AuthChoice, basic: BasicAuth, aws: AwsSigv4) -> (r: Option<Auth>)
    ensures
        match choice {
            AuthChoice::Basic => r == Some(Auth::BASIC(basic)),
            AuthChoice::AWSSigV4 => r == Some(Auth::AWS(aws)),
            AuthChoice::NoAuth => r is None,
        },
{
    match choice {
        AuthChoice::Basic => Some(Auth::BASIC(basic)),
        AuthChoice::AWSSigV4 => Some(Auth::AWS(aws)),
        AuthChoice::NoAuth => None,
    }
}

/// The text whose base64 form goes after "Basic ": the username, a colon,
/// and the password where one is set.
pub open spec fn basic_credentials(username: Seq<char>, password: Option<Seq<char>>) -> Seq<char> {
    username + ":"@ + (match password {
        Some(p) => p,
        None => Seq::empty(),
    })
}

/// The value of the Authorization header under HTTP Basic authentication.
pub open spec fn basic_auth_value(username: Seq<char>, password: Option<Seq<char>>) -> Seq<char> {
    "Basic "@ + base64_of(vstd::utf8::encode_utf8(basic_credentials(username, password)))
}

/// Renders the Authorization value for a Basic strategy.
pub fn basic_auth_header_value(auth: &BasicAuth) -> (r: String)
    ensures
        r@ == basic_auth_value(auth@.username, auth@.password),
{
    let mut creds = auth.username.clone();
    push_char(&mut creds, ':');
    proof {
        reveal_strlit(":");
        assert(creds@ =~= auth.username@ + ":"@);
    }
    match &auth.password {
        Some(p) => {
            push_str(&mut creds, p.as_str());
        },
        None => {},
    }
    proof {
        assert(creds@ =~= basic_credentials(auth@.username, auth@.password));
    }
    let bytes = creds.as_str().as_bytes_vec();
    let mut value = String::new();
    push_str(&mut value, "Basic ");
    push_base64(&mut value, &bytes, 0);
    proof {
        assert(bytes@.skip(0) =~= bytes@);
        assert(value@ =~= basic_auth_value(auth@.username, auth@.password));
    }
    value
}

} // verus!
