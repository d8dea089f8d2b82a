//! The modem's address and credentials, and the addresses of its pages derived
//! from them once, when the configuration is built.

use crate::page::opt_view;
use vstd::prelude::*;
use vstd::string::*;

verus! {

/// Base64 (standard alphabet, padded) of the UTF-8 bytes of `s`.
pub uninterp spec fn base64_of(s: Seq<char>) -> Seq<char>;

/// The serialization of `s` parsed as an absolute URL; `None` where it does not parse.
pub uninterp spec fn parsed_url(s: Seq<char>) -> Option<Seq<char>>;

/// The serialization of the URL `url` with its query replaced by `query`; `None`
/// where `url` does not parse.
pub uninterp spec fn url_with_query(url: Seq<char>, query: Seq<char>) -> Option<Seq<char>>;

/// Relies on base64's `encode` (standard alphabet, with padding): the encoding
/// depends on the bytes alone.
#[verifier::external_body]
#[allow(deprecated)]
fn encode_base64(s: &str) -> (r: String)
    ensures
        r@ == base64_of(s@),
{
    base64::encode(s)
}

/// Relies on url's `Url::parse` and the `String` it converts into.
#[verifier::external_body]
fn parse_url(s: &str) -> (r: Option<String>)
    ensures
        opt_view(r) == parsed_url(s@),
{
    url::Url::parse(s).ok().map(String::from)
}

/// Relies on url's `Url::parse` and `Url::set_query`.
#[verifier::external_body]
pub(crate) fn set_url_query(url: &str, query: &str) -> (r: Option<String>)
    ensures
        opt_view(r) == url_with_query(url@, query@),
{
    let mut parsed = url::Url::parse(url).ok()?;
    parsed.set_query(Some(query));
    Some(String::from(parsed))
}

/// How the session token from the login answer is handed to the status page.
#[derive(Clone, Copy, Debug, PartialEq, Eq, Structural)]
pub enum TokenTransport {
    /// As the query `ct_<token>` of the status page's address.
    Query,
    /// As the cookie `credential=<token>`, after a `Host` header.
    Cookie,
}

/// What went wrong in the configuration.
#[derive(Clone, Copy, Debug, PartialEq, Eq, Structural)]
pub enum ConfigError {
    /// No password is configured: the modem cannot be logged in to.
    MissingPassword,
    /// An address derived from the configuration is no URL.
    InvalidUrl,
}

/// The modem to check: its address, the administrator's credentials, the token
/// transport its firmware wants, and the addresses of its pages.
#[derive(Debug)]
pub struct ModemConfig {
    pub address: String,
    pub user: String,
    pub password: Option<String>,
    pub transport: TokenTransport,
    /// The login page, with the credentials in its query; `None` without a password
    /// or where it is no URL.
    pub login_url: Option<String>,
    pub status_url: Option<String>,
    pub logout_url: Option<String>,
}

pub open spec fn login_target(address: Seq<char>, user: Seq<char>, password: Seq<char>) -> Seq<
    char,
> {
    "https://"@ + address + "/cmconnectionstatus.html?login_"@ + base64_of(
        user + ":"@ + password,
    )
}

pub open spec fn status_target(address: Seq<char>) -> Seq<char> {
    "https://"@ + address + "/cmconnectionstatus.html"@
}

pub open spec fn logout_target(address: Seq<char>) -> Seq<char> {
    "https://"@ + address + "/logout.html"@
}

impl ModemConfig {
    /// The derived addresses are those of the address and credentials.
    pub open spec fn wf(&self) -> bool {
        &&& opt_view(self.login_url) == match self.password {
            Some(p) => parsed_url(login_target(self.address@, self.user@, p@)),
            None => None,
        }
        &&& opt_view(self.status_url) == parsed_url(status_target(self.address@))
        &&& opt_view(self.logout_url) == parsed_url(logout_target(self.address@))
    }

    pub fn new(
        address: String,
        user: String,
        password: Option<String>,
        transport: TokenTransport,
    ) -> (r: ModemConfig)
        ensures
            r.wf(),
            r.address@ == address@,
            r.user@ == user@,
            opt_view(r.password) == opt_view(password),
            r.transport == transport,
    {
        let login_url = match &password {
            Some(p) => {
                let mut credentials = user.clone();
                credentials.append(":");
                credentials.append(p.as_str());
                let mut target = String::from_str("https://");
                target.append(address.as_str());
                target.append("/cmconnectionstatus.html?login_");
                target.append(encode_base64(credentials.as_str()).as_str());
                parse_url(target.as_str())
            },
            None => None,
        };
        let mut status = String::from_str("https://");
        status.append(address.as_str());
        status.append("/cmconnectionstatus.html");
        let mut logout = String::from_str("https://");
        logout.append(address.as_str());
        logout.append("/logout.html");
        let status_url = parse_url(status.as_str());
        let logout_url = parse_url(logout.as_str());
        ModemConfig { address, user, password, transport, login_url, status_url, logout_url }
    }
}

} // verus!
