//! The rules of the request interceptor: which requests are retried, when an
//! answer reaches the client, how attempts are counted and logged, where a
//! request is forwarded to, and which headers pass.
use vstd::prelude::*;
use crate::state::{bounded_push, log_entry, opt_view, time_of_day, AppState, ProxyPool};
use crate::text::{
    append_decimal, contains, dec, has_substring, lowercase_of, same_text, to_lowercase,
};

verus! {

/// The service that requests without a host are sent to.
pub open spec fn upstream() -> Seq<char> {
    "https://api.minimax.chat"@
}

/// A chat or text completion: the requests that are retried until they succeed.
pub open spec fn completion_path(path: Seq<char>) -> bool {
    has_substring(path, "/completions"@) || has_substring(path, "/chat/completions"@)
}

/// A status after which the request is tried again through another pool:
/// a rate limit or a server-side failure.
pub open spec fn retryable(status: u16) -> bool {
    status == 429 || status >= 500
}

/// Name for the reason phrase that the `http` crate's status table gives a
/// code (`None` for codes it does not list).
pub uninterp spec fn canonical_reason_of(code: u16) -> Option<Seq<char>>;

/// How a status code is written given its reason phrase: the code, a
/// space, the phrase (or a placeholder when the code has none).
pub open spec fn status_text_with(code: u16, reason: Option<Seq<char>>) -> Seq<char> {
    dec(code as nat) + " "@ + match reason {
        Some(reason) => reason,
        None => "<unknown status code>"@,
    }
}

/// How a status code is written in the log.
pub open spec fn status_text(code: u16) -> Seq<char> {
    status_text_with(code, canonical_reason_of(code))
}

/// Whether a request header with this lower-case name is passed on.
pub open spec fn forwarded_lowercase(lower: Seq<char>) -> bool {
    lower != "host"@
}

/// Whether an answer header with this lower-case name is passed back.
pub open spec fn kept_lowercase(lower: Seq<char>) -> bool {
    lower != "transfer-encoding"@ && lower != "content-encoding"@
}

pub open spec fn success_message(attempt: usize) -> Seq<char> {
    if attempt > 1 {
        "OK: Request succeeded on attempt "@ + dec(attempt as nat)
    } else {
        "OK: Request succeeded on first try"@
    }
}

pub open spec fn failure_message(status: u16, attempt: usize) -> Seq<char> {
    "FAIL ("@ + status_text(status) + ") on attempt "@ + dec(attempt as nat)
        + " - switching pool..."@
}

pub open spec fn unwrap_or_text(o: Option<Seq<char>>, default: Seq<char>) -> Seq<char> {
    match o {
        Some(s) => s,
        None => default,
    }
}

/// Where a request is sent: its own scheme (HTTPS for the upstream host,
/// HTTP when it has none), host, path and query; the upstream service when
/// it names no host.
pub open spec fn target_url_spec(
    host: Option<Seq<char>>,
    scheme: Option<Seq<char>>,
    path_and_query: Option<Seq<char>>,
) -> Seq<char> {
    let pq = unwrap_or_text(path_and_query, ""@);
    match host {
        Some(h) => {
            let s = if has_substring(h, "api.minimax.chat"@) {
                "https"@
            } else {
                unwrap_or_text(scheme, "http"@)
            };
            s + "://"@ + h + pq
        },
        None => upstream() + pq,
    }
}

/// What happens to an attempt's answer.
#[derive(Debug, PartialEq, Eq, Structural)]
pub enum AttemptVerdict {
    /// The answer goes to the client.
    Deliver,
    /// The request is tried again after a pool switch.
    Retry,
}

/// What a `CONNECT` request is answered.
#[derive(Debug, PartialEq, Eq)]
pub enum ConnectReply {
    /// `200 OK`, then a tunnel to the given authority.
    Tunnel(String),
    /// `400 Bad Request`: the request names no authority.
    BadRequest,
}

/// Calls `hyper::StatusCode::from_u16` and then `StatusCode::canonical_reason`.
/// Claims that the result is the named reason phrase of `code` and, as
/// `from_u16` rejects codes outside 100..=999, that there is none there.
#[verifier::external_body]
fn canonical_reason(code: u16) -> (r: Option<String>)
    ensures
        opt_view(r) == canonical_reason_of(code),
        code < 100 || code > 999 ==> r is None,
{
    match hyper::StatusCode::from_u16(code) {
        Ok(status) => match status.canonical_reason() {
            Some(reason) => Some(reason.to_string()),
            None => None,
        },
        Err(_) => None,
    }
}

/// Whether a request path is a completion, which is retried until it succeeds.
pub fn is_completion_path(path: &str) -> (r: bool)
    ensures
        r == completion_path(path@),
{
    contains(path, "/completions") || contains(path, "/chat/completions")
}

/// Whether an answer with this status is retried through another pool.
pub fn is_retryable_status(status: u16) -> (r: bool)
    ensures
        r == retryable(status),
{
    status == 429 || status >= 500
}

/// The status as the log writes it, given its reason phrase.
pub fn describe_status_with(code: u16, reason: Option<&str>) -> (r: String)
    ensures
        r@ == status_text_with(
            code,
            match reason {
                Some(t) => Some(t@),
                None => None,
            },
        ),
{
    let mut s = String::new();
    append_decimal(&mut s, code as u64);
    s.append(" ");
    match reason {
        Some(t) => s.append(t),
        None => s.append("<unknown status code>"),
    }
    s
}

/// The status as the log writes it.
pub fn describe_status(code: u16) -> (r: String)
    ensures
        r@ == status_text(code),
{
    let reason = canonical_reason(code);
    match reason {
        Some(t) => describe_status_with(code, Some(t.as_str())),
        None => describe_status_with(code, None),
    }
}

/// Where a request is forwarded to.
pub fn target_url(host: Option<&str>, scheme: Option<&str>, path_and_query: Option<&str>) -> (r:
    String)
    ensures
        r@ == target_url_spec(
            match host {
                Some(h) => Some(h@),
                None => None,
            },
            match scheme {
                Some(s) => Some(s@),
                None => None,
            },
            match path_and_query {
                Some(p) => Some(p@),
                None => None,
            },
        ),
{
    let mut url = String::new();
    match host {
        Some(h) => {
            if contains(h, "api.minimax.chat") {
                url.append("https");
            } else {
                match scheme {
                    Some(s) => url.append(s),
                    None => url.append("http"),
                }
            }
            url.append("://");
            url.append(h);
        },
        None => {
            url.append("https://api.minimax.chat");
        },
    }
    match path_and_query {
        Some(p) => url.append(p),
        None => url.append(""),
    }
    url
}

/// Whether a request header is passed on: all but `Host`, in any case.
pub fn forwards_request_header(name: &str) -> (r: bool)
    ensures
        r == forwarded_lowercase(lowercase_of(name@)),
{
    let lower = to_lowercase(name);
    forwards_lowercase_header(lower.as_str())
}

/// Whether a request header whose name, in lower case, is `lower` is passed on.
pub fn forwards_lowercase_header(lower: &str) -> (r: bool)
    ensures
        r == forwarded_lowercase(lower@),
{
    !same_text(lower, "host")
}

/// Whether an answer header whose name, in lower case, is `lower` is passed back.
pub fn keeps_lowercase_header(lower: &str) -> (r: bool)
    ensures
        r == kept_lowercase(lower@),
{
    !same_text(lower, "transfer-encoding") && !same_text(lower, "content-encoding")
}

/// Whether an answer header is passed back: all but the transfer and
/// content encodings, in any case.
pub fn keeps_response_header(name: &str) -> (r: bool)
    ensures
        r == kept_lowercase(lowercase_of(name@)),
{
    let lower = to_lowercase(name);
    keeps_lowercase_header(lower.as_str())
}

/// The proxy that a request goes through: the pool's URL, unless there is
/// no pool or its URL is empty.
pub fn proxy_url_for(pool: &Option<ProxyPool>) -> (r: Option<String>)
    ensures
        match pool {
            Some(p) => if p.url@.len() > 0 {
                opt_view(r) == Some(p.url@)
            } else {
                r is None
            },
            None => r is None,
        },
{
    match pool {
        Some(p) => if p.url.unicode_len() > 0 {
            Some(p.url.clone())
        } else {
            None
        },
        None => None,
    }
}

/// What a `CONNECT` request is answered: a tunnel to its authority, or a
/// bad request when it names none.
pub fn connect_reply(authority: Option<&str>) -> (r: ConnectReply)
    ensures
        match authority {
            Some(a) => r matches ConnectReply::Tunnel(t) && t@ == a@,
            None => r == ConnectReply::BadRequest,
        },
{
    match authority {
        Some(a) => ConnectReply::Tunnel(String::from_str(a)),
        None => ConnectReply::BadRequest,
    }
}

impl AppState {
    /// Counts a new attempt of a completion request; gives its number.
    pub fn begin_attempt(&mut self, attempt: usize) -> (n: usize)
        requires
            attempt < usize::MAX,
            old(self).total_requests < usize::MAX,
        ensures
            n == attempt + 1,
            final(self).total_requests == old(self).total_requests + 1,
            final(self).total_retries == old(self).total_retries,
            final(self).proxy_pools == old(self).proxy_pools,
            final(self).active_pool_index == old(self).active_pool_index,
            final(self).active_tab == old(self).active_tab,
            final(self).last_error == old(self).last_error,
            final(self).logs == old(self).logs,
            final(self).warp_instances == old(self).warp_instances,
    {
        self.total_requests = self.total_requests + 1;
        attempt + 1
    }

    /// Settles an attempt by its answer's status: an answer that is no rate
    /// limit and no server failure goes to the client and is logged as a
    /// success; any other is counted as a retry and logged as a failure.
    pub fn settle_attempt(&mut self, attempt: usize, status: u16) -> (r: AttemptVerdict)
        requires
            retryable(status) ==> old(self).total_retries < usize::MAX,
        ensures
            r == AttemptVerdict::Deliver <==> !retryable(status),
            final(self).total_retries == old(self).total_retries + if retryable(status) {
                1int
            } else {
                0int
            },
            final(self).total_requests == old(self).total_requests,
            final(self).proxy_pools == old(self).proxy_pools,
            final(self).active_pool_index == old(self).active_pool_index,
            final(self).active_tab == old(self).active_tab,
            final(self).last_error == old(self).last_error,
            final(self).warp_instances == old(self).warp_instances,
            exists|stamp: Seq<char>|
                time_of_day(stamp) && final(self).log_lines() == bounded_push(
                    old(self).log_lines(),
                    log_entry(
                        stamp,
                        if retryable(status) {
                            failure_message(status, attempt)
                        } else {
                            success_message(attempt)
                        },
                    ),
                ),
            old(self).wf() ==> final(self).wf(),
    {
        if !is_retryable_status(status) {
            let mut msg = String::new();
            if attempt > 1 {
                msg.append("OK: Request succeeded on attempt ");
                append_decimal(&mut msg, attempt as u64);
            } else {
                msg.append("OK: Request succeeded on first try");
            }
            assert(msg@ =~= success_message(attempt));
            self.log(msg);
            AttemptVerdict::Deliver
        } else {
            self.total_retries = self.total_retries + 1;
            let mut msg = String::from_str("FAIL (");
            let text = describe_status(status);
            msg.append(text.as_str());
            msg.append(") on attempt ");
            append_decimal(&mut msg, attempt as u64);
            msg.append(" - switching pool...");
            assert(msg@ =~= failure_message(status, attempt));
            self.log(msg);
            AttemptVerdict::Retry
        }
    }

    /// Logs that no pool could be switched to.
    pub fn record_switch_failure(&mut self)
        ensures
            exists|stamp: Seq<char>|
                time_of_day(stamp) && final(self).log_lines() == bounded_push(
                    old(self).log_lines(),
                    log_entry(stamp, "CRITICAL: Failed to switch pool. Waiting 2s..."@),
                ),
            final(self).same_except_logs(old(self)),
            old(self).wf() ==> final(self).wf(),
    {
        self.log(String::from_str("CRITICAL: Failed to switch pool. Waiting 2s..."));
    }
}


/// The client never gets a rate limit or a server failure from a
/// completion: what is delivered is neither 429 nor 5xx.
pub proof fn lemma_delivered_is_clean(status: u16)
    requires
        !retryable(status),
    ensures
        status != 429,
        status < 500,
{
}


/// The loopback port the interceptor listens on.
pub const LISTEN_PORT: u16 = 20131;

impl AppState {
    /// Logs that the interceptor listens, or why it could not bind its port.
    pub fn record_bind(&mut self, failure: Option<&str>)
        ensures
            exists|stamp: Seq<char>|
                time_of_day(stamp) && final(self).log_lines() == bounded_push(
                    old(self).log_lines(),
                    log_entry(
                        stamp,
                        match failure {
                            Some(e) => "Failed to bind interceptor port: "@ + e@,
                            None => "Unified Interceptor listening on 127.0.0.1:20131"@,
                        },
                    ),
                ),
            final(self).same_except_logs(old(self)),
            old(self).wf() ==> final(self).wf(),
    {
        let msg = match failure {
            Some(e) => {
                let mut m = String::from_str("Failed to bind interceptor port: ");
                m.append(e);
                m
            },
            None => String::from_str("Unified Interceptor listening on 127.0.0.1:20131"),
        };
        self.log(msg);
    }
}


/// The answer sent back when the request could not be sent on: `502 Bad
/// Gateway` with the reason in the body.
pub fn proxy_error_reply(error: &str) -> (r: (u16, String))
    ensures
        r.0 == 502,
        r.1@ == "Proxy error: "@ + error@,
{
    let mut body = String::from_str("Proxy error: ");
    body.append(error);
    (502, body)
}


/// An answer is tried again exactly when it is a rate limit (429) or a
/// server-side failure (5xx): every success, redirect and client error other
/// than 429 goes to the client as it is.
pub proof fn lemma_retry_rule(status: u16)
    ensures
        retryable(status) <==> (status == 429 || status >= 500),
        100 <= status < 400 ==> !retryable(status),
        400 <= status < 500 && status != 429 ==> !retryable(status),
        500 <= status ==> retryable(status),
{
}

/// Every request header is passed on except `Host`; every answer header is
/// passed back except the transfer and content encodings.
pub proof fn lemma_header_rules(lower: Seq<char>)
    ensures
        forwarded_lowercase(lower) <==> lower != "host"@,
        kept_lowercase(lower) <==> (lower != "transfer-encoding"@ && lower
            != "content-encoding"@),
{
}

/// A path naming completions, chat or plain, is retried; any other is
/// passed through once.
pub proof fn lemma_completion_paths(path: Seq<char>)
    ensures
        has_substring(path, "/completions"@) ==> completion_path(path),
        has_substring(path, "/chat/completions"@) ==> completion_path(path),
        !has_substring(path, "/completions"@) && !has_substring(path, "/chat/completions"@)
            ==> !completion_path(path),
{
}

/// A status is written as its code, a space and its reason phrase, or the
/// placeholder when it has none.
pub proof fn lemma_status_text(code: u16, reason: Option<Seq<char>>)
    ensures
        status_text_with(code, reason).subrange(0, dec(code as nat).len() + 1int) == dec(
            code as nat,
        ) + " "@,
        reason matches Some(t) ==> status_text_with(code, reason) == dec(code as nat) + " "@ + t,
        reason is None ==> status_text_with(code, reason) == dec(code as nat) + " "@
            + "<unknown status code>"@,
{
    reveal_strlit(" ");
    let s = status_text_with(code, reason);
    let p = dec(code as nat) + " "@;
    assert(s.subrange(0, p.len() as int) =~= p);
}

/// Where a request goes: a request naming a host keeps its host, path and
/// query, and its scheme (HTTP when it names none) unless the host is the
/// upstream service, which is always reached over HTTPS; a request naming
/// no host goes to the upstream service with its path and query.
pub proof fn lemma_target_url(
    host: Option<Seq<char>>,
    scheme: Option<Seq<char>>,
    path_and_query: Option<Seq<char>>,
)
    ensures
        host matches Some(h) ==> has_substring(h, "api.minimax.chat"@) ==> target_url_spec(
            host,
            scheme,
            path_and_query,
        ) == "https"@ + "://"@ + h + unwrap_or_text(path_and_query, ""@),
        host matches Some(h) ==> !has_substring(h, "api.minimax.chat"@) ==> target_url_spec(
            host,
            scheme,
            path_and_query,
        ) == unwrap_or_text(scheme, "http"@) + "://"@ + h + unwrap_or_text(path_and_query, ""@),
        host is None ==> target_url_spec(host, scheme, path_and_query) == "https://api.minimax.chat"@
            + unwrap_or_text(path_and_query, ""@),
{
}

} // verus!
