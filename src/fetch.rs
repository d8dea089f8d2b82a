//! One fetch attempt against the modem: log in, fetch the status page with the
//! session token, map it, log out. The attempt is a state machine: the caller
//! sends each `Request` it asks for and hands back the `Reply`.

use crate::config::{set_url_query, ConfigError, ModemConfig, TokenTransport, url_with_query};
use crate::page::{
    all_present, first_missing, map_status_page, opt_view, page_cells, procedure_matches,
    ExtractionError, StartupProcedure, FIRST_STAGE_ROW,
};
use vstd::prelude::*;
use vstd::string::*;

verus! {

/// A GET request to the modem.
#[derive(Debug)]
pub struct Request {
    pub url: String,
    /// Headers to set, in this order: the modem reads them in the order they come.
    pub headers: Vec<(String, String)>,
    /// User and password for HTTP basic authentication.
    pub basic_auth: Option<(String, String)>,
}

pub open spec fn headers_view(h: Seq<(String, String)>) -> Seq<(Seq<char>, Seq<char>)> {
    h.map_values(|p: (String, String)| (p.0@, p.1@))
}

/// What came back for a request.
#[derive(Debug)]
pub enum Reply {
    /// A success status, with the whole body.
    Body(String),
    /// The modem answered with this status, not a success.
    Status(u16),
    /// The modem could not be reached, or the body could not be read.
    Transport(String),
}

/// Why an attempt failed.
#[derive(Debug)]
pub enum FetchError {
    Config(ConfigError),
    /// The modem could not be reached; the cause.
    Network(String),
    /// The modem answered with this status, not a success.
    Server(u16),
    /// The page that came back is not the status page.
    Extraction(ExtractionError),
}

/// Where an attempt stands: which request is out.
#[derive(Debug)]
pub enum Stage {
    LoggingIn,
    FetchingStatus,
    /// The status was read; the logout request is out.
    LoggingOut(StartupProcedure),
}

#[derive(Debug)]
pub enum AttemptStep {
    /// Send the request, then hand its reply to `attempt_step` with the stage.
    Continue(Stage, Request),
    Done(Result<StartupProcedure, FetchError>),
}

pub open spec fn form_content_type() -> Seq<char> {
    "application/x-www-form-urlencoded; charset=utf-8"@
}

pub open spec fn is_login_request(req: Request, cfg: ModemConfig) -> bool {
    &&& cfg.login_url matches Some(u) && req.url@ == u@
    &&& headers_view(req.headers@) == seq![("Content-Type"@, form_content_type())]
    &&& cfg.password matches Some(p) && req.basic_auth matches Some(a) && a.0@ == cfg.user@ && a.1@
        == p@
}

/// The address and headers of the status request that carries `token`.
pub open spec fn status_request_of(cfg: ModemConfig, token: Seq<char>) -> Option<
    (Seq<char>, Seq<(Seq<char>, Seq<char>)>),
> {
    match opt_view(cfg.status_url) {
        Some(u) => match cfg.transport {
            TokenTransport::Query => match url_with_query(u, "ct_"@ + token) {
                Some(v) => Some((v, Seq::empty())),
                None => None,
            },
            TokenTransport::Cookie => Some(
                (u, seq![("Host"@, cfg.address@), ("Cookie"@, "credential="@ + token)]),
            ),
        },
        None => None,
    }
}

pub open spec fn is_logout_request(req: Request, cfg: ModemConfig) -> bool {
    &&& cfg.logout_url matches Some(u) && req.url@ == u@
    &&& req.headers@.len() == 0
    &&& req.basic_auth is None
}

/// How an attempt starts.
pub open spec fn begin_ok(cfg: ModemConfig, r: AttemptStep) -> bool {
    match cfg.password {
        None => r == AttemptStep::Done(Err(FetchError::Config(ConfigError::MissingPassword))),
        Some(_) => match cfg.login_url {
            None => r == AttemptStep::Done(Err(FetchError::Config(ConfigError::InvalidUrl))),
            Some(_) => r matches AttemptStep::Continue(Stage::LoggingIn, req) && is_login_request(
                req,
                cfg,
            ),
        },
    }
}

/// The step after the login answer gave `token`.
pub open spec fn token_step_ok(cfg: ModemConfig, token: Seq<char>, r: AttemptStep) -> bool {
    match status_request_of(cfg, token) {
        Some((url, headers)) => r matches AttemptStep::Continue(Stage::FetchingStatus, req) && req.url@
            == url && headers_view(req.headers@) == headers && req.basic_auth is None,
        None => r == AttemptStep::Done(Err(FetchError::Config(ConfigError::InvalidUrl))),
    }
}

/// The step after the status page `html` came back.
pub open spec fn page_step_ok(cfg: ModemConfig, html: Seq<char>, r: AttemptStep) -> bool {
    if all_present(page_cells(html)) {
        match cfg.logout_url {
            Some(_) => r matches AttemptStep::Continue(Stage::LoggingOut(p), req) && procedure_matches(
                p@,
                page_cells(html),
            ) && is_logout_request(req, cfg),
            None => r matches AttemptStep::Done(Ok(p)) && procedure_matches(p@, page_cells(html)),
        }
    } else {
        r matches AttemptStep::Done(Err(FetchError::Extraction(e))) && first_missing(
            page_cells(html),
            e.row - FIRST_STAGE_ROW,
        )
    }
}

/// A failed request ends the attempt with the matching error.
pub open spec fn failed_reply_ok(reply: Reply, r: AttemptStep) -> bool {
    match reply {
        Reply::Body(_) => false,
        Reply::Status(c) => r == AttemptStep::Done(Err(FetchError::Server(c))),
        Reply::Transport(m) => r == AttemptStep::Done(Err(FetchError::Network(m))),
    }
}

/// How an attempt goes on from `stage` when `reply` comes back.
pub open spec fn step_ok(cfg: ModemConfig, stage: Stage, reply: Reply, r: AttemptStep) -> bool {
    match stage {
        Stage::LoggingIn => match reply {
            Reply::Body(token) => token_step_ok(cfg, token@, r),
            _ => failed_reply_ok(reply, r),
        },
        Stage::FetchingStatus => match reply {
            Reply::Body(html) => page_step_ok(cfg, html@, r),
            _ => failed_reply_ok(reply, r),
        },
        Stage::LoggingOut(p) => r matches AttemptStep::Done(Ok(q)) && q@ == p@,
    }
}

/// Starts an attempt: asks for the login request, or fails at once, sending
/// nothing, where the configuration cannot log in.
pub fn attempt_begin(cfg: &ModemConfig) -> (r: AttemptStep)
    ensures
        begin_ok(*cfg, r),
{
    match &cfg.password {
        None => AttemptStep::Done(Err(FetchError::Config(ConfigError::MissingPassword))),
        Some(p) => match &cfg.login_url {
            None => AttemptStep::Done(Err(FetchError::Config(ConfigError::InvalidUrl))),
            Some(u) => {
                let mut headers: Vec<(String, String)> = Vec::new();
                headers.push(
                    (
                        String::from_str("Content-Type"),
                        String::from_str("application/x-www-form-urlencoded; charset=utf-8"),
                    ),
                );
                let req = Request {
                    url: u.clone(),
                    headers,
                    basic_auth: Some((cfg.user.clone(), p.clone())),
                };
                assert(headers_view(req.headers@) =~= seq![
                    ("Content-Type"@, form_content_type()),
                ]);
                AttemptStep::Continue(Stage::LoggingIn, req)
            },
        },
    }
}

fn status_step(cfg: &ModemConfig, token: String) -> (r: AttemptStep)
    ensures
        token_step_ok(*cfg, token@, r),
{
    let base = match &cfg.status_url {
        Some(u) => u,
        None => {
            return AttemptStep::Done(Err(FetchError::Config(ConfigError::InvalidUrl)));
        },
    };
    match cfg.transport {
        TokenTransport::Query => {
            let mut query = String::from_str("ct_");
            query.append(token.as_str());
            match set_url_query(base.as_str(), query.as_str()) {
                Some(url) => {
                    let req = Request { url, headers: Vec::new(), basic_auth: None };
                    assert(headers_view(req.headers@) =~= Seq::empty());
                    AttemptStep::Continue(Stage::FetchingStatus, req)
                },
                None => AttemptStep::Done(Err(FetchError::Config(ConfigError::InvalidUrl))),
            }
        },
        TokenTransport::Cookie => {
            let mut cookie = String::from_str("credential=");
            cookie.append(token.as_str());
            // The modem's header parser wants `Host` before `Cookie`.
            let mut headers: Vec<(String, String)> = Vec::new();
            headers.push((String::from_str("Host"), cfg.address.clone()));
            headers.push((String::from_str("Cookie"), cookie));
            let req = Request { url: base.clone(), headers, basic_auth: None };
            assert(headers_view(req.headers@) =~= seq![
                ("Host"@, cfg.address@),
                ("Cookie"@, "credential="@ + token@),
            ]);
            AttemptStep::Continue(Stage::FetchingStatus, req)
        },
    }
}

fn page_step(cfg: &ModemConfig, html: String) -> (r: AttemptStep)
    ensures
        page_step_ok(*cfg, html@, r),
{
    match map_status_page(html.as_str()) {
        Ok(p) => match &cfg.logout_url {
            Some(u) => {
                let req = Request { url: u.clone(), headers: Vec::new(), basic_auth: None };
                AttemptStep::Continue(Stage::LoggingOut(p), req)
            },
            None => AttemptStep::Done(Ok(p)),
        },
        Err(e) => AttemptStep::Done(Err(FetchError::Extraction(e))),
    }
}

/// Goes on with an attempt at `stage` once `reply` has come back. A failed
/// request ends the attempt with its error; the logout's reply, whatever it is,
/// ends it with the status that was read.
pub fn attempt_step(cfg: &ModemConfig, stage: Stage, reply: Reply) -> (r: AttemptStep)
    ensures
        step_ok(*cfg, stage, reply, r),
{
    match stage {
        Stage::LoggingIn => match reply {
            Reply::Body(token) => status_step(cfg, token),
            Reply::Status(c) => AttemptStep::Done(Err(FetchError::Server(c))),
            Reply::Transport(m) => AttemptStep::Done(Err(FetchError::Network(m))),
        },
        Stage::FetchingStatus => match reply {
            Reply::Body(html) => page_step(cfg, html),
            Reply::Status(c) => AttemptStep::Done(Err(FetchError::Server(c))),
            Reply::Transport(m) => AttemptStep::Done(Err(FetchError::Network(m))),
        },
        Stage::LoggingOut(p) => AttemptStep::Done(Ok(p)),
    }
}

/// Once the status page `html` has been read and the logout request is out, the
/// attempt ends with the procedure mapped from that page, whatever the logout's
/// reply: a failed logout never fails the attempt.
pub proof fn logout_is_best_effort(
    cfg: ModemConfig,
    html: String,
    after_page: AttemptStep,
    logout_reply: Reply,
    after_logout: AttemptStep,
)
    requires
        step_ok(cfg, Stage::FetchingStatus, Reply::Body(html), after_page),
        after_page matches AttemptStep::Continue(stage, _) && step_ok(
            cfg,
            stage,
            logout_reply,
            after_logout,
        ),
    ensures
        all_present(page_cells(html@)),
        after_logout matches AttemptStep::Done(Ok(p)) && procedure_matches(p@, page_cells(html@)),
{
}

} // verus!
