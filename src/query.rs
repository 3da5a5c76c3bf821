//! Classification of one probe's outcome into a verdict, and the per-site
//! records that carry outcomes and results.
use vstd::prelude::*;
use vstd::string::StringExecFns;
use std::sync::Arc;
use std::time::Duration;
use crate::sherlock_target_manifest::{ErrorCode, ErrorMsg, ErrorType, TargetInfo};
use crate::waf::{is_waf_page, waf_hit};

verus! {

/// Why a probe produced no usable response.
#[derive(Debug, Clone, PartialEq, Eq)]
pub enum QueryError {
    /// The username does not match the site's validity pattern.
    InvalidUsernameError,
    /// The request failed in transport (timeout, DNS, TLS, refused, ...).
    RequestError,
    /// The site's validity pattern could not be compiled or evaluated; holds
    /// the pattern engine's message.
    RegexError(String),
}

impl QueryError {
    /// The description carried as a result's context.
    pub open spec fn message_spec(&self) -> Seq<char> {
        match self {
            QueryError::InvalidUsernameError => "Invalid username"@,
            QueryError::RequestError => "Request error"@,
            QueryError::RegexError(m) => m@,
        }
    }

    pub fn message(&self) -> (r: String)
        ensures
            r@ == self.message_spec(),
    {
        match self {
            QueryError::InvalidUsernameError => String::from_str("Invalid username"),
            QueryError::RequestError => String::from_str("Request error"),
            QueryError::RegexError(m) => m.clone(),
        }
    }
}

/// The verdict for one site.
#[derive(Debug, Clone, Copy, PartialEq, Eq, Structural)]
pub enum QueryStatus {
    /// username detected
    Claimed,
    /// username not detected
    Available,
    /// error occurred while trying to detect username
    Unknown,
    /// username not allowed for this site
    Illegal,
    /// request blocked by a bot-defense layer
    Waf,
}

impl QueryStatus {
    pub open spec fn name_spec(&self) -> Seq<char> {
        match self {
            QueryStatus::Claimed => "Claimed"@,
            QueryStatus::Available => "Available"@,
            QueryStatus::Unknown => "Unknown"@,
            QueryStatus::Illegal => "Illegal"@,
            QueryStatus::Waf => "Waf"@,
        }
    }

    /// The verdict's name, as shown in reports.
    pub fn name(&self) -> (r: &'static str)
        ensures
            r@ == self.name_spec(),
    {
        match self {
            QueryStatus::Claimed => "Claimed",
            QueryStatus::Available => "Available",
            QueryStatus::Unknown => "Unknown",
            QueryStatus::Illegal => "Illegal",
            QueryStatus::Waf => "Waf",
        }
    }
}

/// A response as the classifier reads it: its status code and body text.
#[derive(Debug, Clone)]
pub struct HttpReply {
    pub status: u16,
    pub body: String,
}

/// The raw outcome of probing one site.
#[derive(Debug)]
pub struct RequestResult {
    pub username: String,
    pub site: String,
    pub info: Arc<TargetInfo>,
    /// The resolved profile URL.
    pub url: String,
    /// The resolved URL that was probed.
    pub url_probe: String,
    pub response: Result<HttpReply, QueryError>,
    pub query_time: Duration,
}

/// The classified result for one site.
#[derive(Debug)]
pub struct QueryResult {
    pub username: String,
    pub site_name: String,
    pub info: Arc<TargetInfo>,
    pub site_url_user: String,
    pub status: QueryStatus,
    pub http_status: Option<u16>,
    pub query_time: Duration,
    pub context: Option<String>,
}

/// What the `Debug` formatting of a string gives: the text quoted, with
/// special characters escaped.
pub uninterp spec fn debug_quoted(s: Seq<char>) -> Seq<char>;

/// Relies on the `Debug` impl of `str`, which depends on the text alone.
#[verifier::external_body]
fn quote_debug(s: &str) -> (r: String)
    ensures
        r@ == debug_quoted(s@),
{
    format!("{:?}", s)
}

impl QueryResult {
    /// The verdict's name, followed by the quoted context where there is one:
    /// `Unknown ("Request error")`.
    pub fn summary(&self) -> (r: String)
        ensures
            r@ == match self.context {
                Some(c) => self.status.name_spec() + " ("@ + debug_quoted(c@) + ")"@,
                None => self.status.name_spec(),
            },
    {
        let mut s = String::from_str(self.status.name());
        match &self.context {
            Some(c) => {
                s.append(" (");
                let quoted = quote_debug(c.as_str());
                s.append(quoted.as_str());
                s.append(")");
            },
            None => {},
        }
        s
    }
}

/// Verdict of a status-code rule: with explicit not-found codes, Available
/// iff the status is one of them; without, Available iff the status lies
/// outside 200 to 399.
pub open spec fn status_code_verdict(codes: Option<ErrorCode>, status: u16) -> QueryStatus {
    match codes {
        Some(c) => if c.codes().contains(status) {
            QueryStatus::Available
        } else {
            QueryStatus::Claimed
        },
        None => if 200 <= status <= 399 {
            QueryStatus::Claimed
        } else {
            QueryStatus::Available
        },
    }
}

/// Verdict of a response-URL rule: Claimed iff the final status lies in 200
/// to 299.
pub open spec fn response_url_verdict(status: u16) -> QueryStatus {
    if 200 <= status <= 299 {
        QueryStatus::Claimed
    } else {
        QueryStatus::Available
    }
}

/// Verdict for a response with the given status and body: a challenge page
/// is Waf whatever the rule; otherwise the rule decides.
pub open spec fn reply_verdict(rule: ErrorType, status: u16, body: Seq<char>) -> QueryStatus {
    if is_waf_page(body) {
        QueryStatus::Waf
    } else {
        match rule {
            ErrorType::Message { msg } => if msg.found_in(body) {
                QueryStatus::Available
            } else {
                QueryStatus::Claimed
            },
            ErrorType::StatusCode { codes } => status_code_verdict(codes, status),
            ErrorType::ResponseUrl { .. } => response_url_verdict(status),
        }
    }
}

/// Verdict for a failed probe: a rejected username is Illegal, any other
/// failure Unknown.
pub open spec fn failure_verdict(e: QueryError) -> QueryStatus {
    match e {
        QueryError::InvalidUsernameError => QueryStatus::Illegal,
        _ => QueryStatus::Unknown,
    }
}

/// Verdict for a probe outcome under the site's rule.
pub open spec fn outcome_verdict(rule: ErrorType, response: Result<HttpReply, QueryError>) -> QueryStatus {
    match response {
        Ok(reply) => reply_verdict(rule, reply.status, reply.body@),
        Err(e) => failure_verdict(e),
    }
}

/// `q` is the result that classifying `r` yields: it keeps the site's
/// identity, URL and timing, takes the verdict of `r`'s outcome, and records
/// the HTTP status of a response or the description of a failure.
pub open spec fn describes(r: RequestResult, q: QueryResult) -> bool {
    &&& q.username == r.username
    &&& q.site_name == r.site
    &&& q.info == r.info
    &&& q.site_url_user == r.url
    &&& q.query_time == r.query_time
    &&& q.status == outcome_verdict(r.info.error_type, r.response)
    &&& match r.response {
        Ok(reply) => q.http_status == Some(reply.status) && q.context is None,
        Err(e) => q.http_status is None && q.context is Some && q.context->0@ == e.message_spec(),
    }
}

/// Classifies a response under a site's rule.
pub fn classify_reply(rule: &ErrorType, status: u16, body: &str) -> (r: QueryStatus)
    ensures
        r == reply_verdict(*rule, status, body@),
{
    if waf_hit(body) {
        return QueryStatus::Waf;
    }
    match rule {
        ErrorType::Message { msg } => {
            if msg.is_in(body) {
                QueryStatus::Available
            } else {
                QueryStatus::Claimed
            }
        },
        ErrorType::StatusCode { codes } => {
            match codes {
                Some(error_codes) => {
                    if error_codes.contains(&status) {
                        QueryStatus::Available
                    } else {
                        QueryStatus::Claimed
                    }
                },
                None => {
                    if 200 <= status && status <= 399 {
                        QueryStatus::Claimed
                    } else {
                        QueryStatus::Available
                    }
                },
            }
        },
        ErrorType::ResponseUrl { .. } => {
            if 200 <= status && status <= 299 {
                QueryStatus::Claimed
            } else {
                QueryStatus::Available
            }
        },
    }
}

/// Classifies a failed probe.
pub fn classify_failure(e: &QueryError) -> (r: QueryStatus)
    ensures
        r == failure_verdict(*e),
{
    match e {
        QueryError::InvalidUsernameError => QueryStatus::Illegal,
        _ => QueryStatus::Unknown,
    }
}

/// Turns one probe outcome into the site's result.
pub fn to_query_result(result: RequestResult) -> (q: QueryResult)
    ensures
        describes(result, q),
{
    let RequestResult { username, site, info, url, url_probe: _, response, query_time } = result;
    match response {
        Err(e) => {
            let status = classify_failure(&e);
            let context = e.message();
            QueryResult {
                username,
                site_name: site,
                info,
                site_url_user: url,
                status,
                http_status: None,
                query_time,
                context: Some(context),
            }
        },
        Ok(reply) => {
            let status = classify_reply(&info.error_type, reply.status, reply.body.as_str());
            QueryResult {
                username,
                site_name: site,
                info,
                site_url_user: url,
                status,
                http_status: Some(reply.status),
                query_time,
                context: None,
            }
        },
    }
}

/// A response that carries a challenge fingerprint is Waf, whatever the
/// site's rule and the status code.
pub proof fn lemma_waf_overrides_rule(rule: ErrorType, status: u16, body: Seq<char>)
    requires
        is_waf_page(body),
    ensures
        reply_verdict(rule, status, body) == QueryStatus::Waf,
{
}

/// Under a message rule, a response (not a challenge page) is Available iff
/// its body contains one of the rule's messages, else Claimed; the status
/// code plays no part.
pub proof fn lemma_message_rule(msg: ErrorMsg, status: u16, body: Seq<char>)
    requires
        !is_waf_page(body),
    ensures
        msg.found_in(body) ==> reply_verdict(ErrorType::Message { msg }, status, body) == QueryStatus::Available,
        !msg.found_in(body) ==> reply_verdict(ErrorType::Message { msg }, status, body) == QueryStatus::Claimed,
{
}

/// Under a status-code rule without explicit codes, a response (not a
/// challenge page) is Claimed iff its status lies in 200 to 399: 404 and 500
/// are Available, 200 and 301 Claimed.
pub proof fn lemma_status_code_rule_default(body: Seq<char>)
    requires
        !is_waf_page(body),
    ensures
        forall|status: u16|
            #[trigger] reply_verdict(ErrorType::StatusCode { codes: None }, status, body)
                == if 200 <= status <= 399 { QueryStatus::Claimed } else { QueryStatus::Available },
        reply_verdict(ErrorType::StatusCode { codes: None }, 404, body) == QueryStatus::Available,
        reply_verdict(ErrorType::StatusCode { codes: None }, 200, body) == QueryStatus::Claimed,
        reply_verdict(ErrorType::StatusCode { codes: None }, 301, body) == QueryStatus::Claimed,
        reply_verdict(ErrorType::StatusCode { codes: None }, 500, body) == QueryStatus::Available,
{
}

/// Under a status-code rule with the explicit codes {204}, a response (not
/// a challenge page) is Available iff its status is 204: 204 is Available,
/// 200 Claimed.
pub proof fn lemma_status_code_rule_explicit(codes: ErrorCode, body: Seq<char>)
    requires
        !is_waf_page(body),
        codes.codes() == seq![204u16],
    ensures
        forall|status: u16|
            #[trigger] reply_verdict(ErrorType::StatusCode { codes: Some(codes) }, status, body)
                == if status == 204 { QueryStatus::Available } else { QueryStatus::Claimed },
        reply_verdict(ErrorType::StatusCode { codes: Some(codes) }, 204, body) == QueryStatus::Available,
        reply_verdict(ErrorType::StatusCode { codes: Some(codes) }, 200, body) == QueryStatus::Claimed,
{
    assert forall|status: u16|
        #[trigger] reply_verdict(ErrorType::StatusCode { codes: Some(codes) }, status, body)
            == if status == 204 { QueryStatus::Available } else { QueryStatus::Claimed } by {
        if status == 204 {
            assert(codes.codes()[0] == status);
        }
    }
}

/// Under a response-URL rule, a response (not a challenge page) is Claimed
/// iff its status lies in 200 to 299: 200 and 299 are Claimed, 300 and 404
/// Available.
pub proof fn lemma_response_url_rule(url: String, body: Seq<char>)
    requires
        !is_waf_page(body),
    ensures
        forall|status: u16|
            #[trigger] reply_verdict(ErrorType::ResponseUrl { url }, status, body)
                == if 200 <= status <= 299 { QueryStatus::Claimed } else { QueryStatus::Available },
        reply_verdict(ErrorType::ResponseUrl { url }, 200, body) == QueryStatus::Claimed,
        reply_verdict(ErrorType::ResponseUrl { url }, 299, body) == QueryStatus::Claimed,
        reply_verdict(ErrorType::ResponseUrl { url }, 300, body) == QueryStatus::Available,
        reply_verdict(ErrorType::ResponseUrl { url }, 404, body) == QueryStatus::Available,
{
}

} // verus!
