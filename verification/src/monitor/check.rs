//! One health check of a service: what to send, and how the answer becomes
//! a check result.
use vstd::prelude::*;
use crate::monitor::config::{clone_headers, clone_opt, opt_view, HeaderPair, ServiceConfig};
use crate::monitor::safety::{is_safe_url, is_safe_url_spec};
use crate::monitor::store::{current_time, is_utc_stamp, CheckResult};
use crate::text::{chars_equal, chars_of, decimal, owned, push_decimal, push_str};

verus! {

/// The HTTP method of a check request.
#[derive(PartialEq, Eq, Structural, Clone, Copy, Debug)]
pub enum CheckMethod {
    Get,
    Post,
    Put,
    Head,
    Delete,
    Patch,
    Options,
}

/// The request method for a configured method name; names other than the
/// supported ones are sent as `GET`.
pub open spec fn method_for(m: Seq<char>) -> CheckMethod {
    if m == "POST"@ {
        CheckMethod::Post
    } else if m == "PUT"@ {
        CheckMethod::Put
    } else if m == "HEAD"@ {
        CheckMethod::Head
    } else if m == "DELETE"@ {
        CheckMethod::Delete
    } else if m == "PATCH"@ {
        CheckMethod::Patch
    } else if m == "OPTIONS"@ {
        CheckMethod::Options
    } else {
        CheckMethod::Get
    }
}

fn is(m: &[char], lit: &str) -> (r: bool)
    ensures
        r == (m@ == lit@),
{
    let l = chars_of(lit);
    chars_equal(m, l.as_slice())
}

/// The request method for a configured method name.
pub fn request_method(method: &str) -> (r: CheckMethod)
    ensures
        r == method_for(method@),
{
    let m = chars_of(method);
    let m = m.as_slice();
    if is(m, "POST") {
        CheckMethod::Post
    } else if is(m, "PUT") {
        CheckMethod::Put
    } else if is(m, "HEAD") {
        CheckMethod::Head
    } else if is(m, "DELETE") {
        CheckMethod::Delete
    } else if is(m, "PATCH") {
        CheckMethod::Patch
    } else if is(m, "OPTIONS") {
        CheckMethod::Options
    } else {
        CheckMethod::Get
    }
}

/// The HTTP request of a check.
pub struct CheckRequest {
    pub method: CheckMethod,
    pub url: String,
    /// The request timeout: the configured one, but at least one second.
    pub timeout_secs: u64,
    pub headers: Vec<HeaderPair>,
    pub body: Option<String>,
}

/// What to do for a check: refuse it with a ready result, or send a request.
pub enum CheckPlan {
    Refuse(CheckResult),
    Send(CheckRequest),
}

/// `r` is the result of a check of `svc` with these outcome fields.
pub open spec fn is_result_of(
    r: CheckResult,
    svc: ServiceConfig,
    status: u16,
    healthy: bool,
    elapsed_ms: u64,
    error: Option<Seq<char>>,
) -> bool {
    &&& r.service_id@ == svc.id@
    &&& r.name@ == svc.name@
    &&& r.url@ == svc.url@
    &&& r.status == status
    &&& r.healthy == healthy
    &&& r.response_time_ms == elapsed_ms
    &&& opt_view(r.error) == error
}

/// The check result for a service, stamped with the given time.
pub fn make_result_at(
    svc: &ServiceConfig,
    status: u16,
    healthy: bool,
    elapsed_ms: u64,
    error: Option<String>,
    checked_at: String,
) -> (r: CheckResult)
    ensures
        is_result_of(r, *svc, status, healthy, elapsed_ms, opt_view(error)),
        r.checked_at == checked_at,
{
    CheckResult {
        service_id: svc.id.clone(),
        name: svc.name.clone(),
        url: svc.url.clone(),
        status,
        healthy,
        response_time_ms: elapsed_ms,
        error,
        checked_at,
    }
}

/// The check result for a service, stamped with the current time in RFC 3339
/// form (UTC).
pub fn make_result(svc: &ServiceConfig, status: u16, healthy: bool, elapsed_ms: u64, error: Option<String>) -> (r:
    CheckResult)
    ensures
        is_result_of(r, *svc, status, healthy, elapsed_ms, opt_view(error)),
        is_utc_stamp(r.checked_at@),
{
    let now = current_time();
    let ghost (secs, nanos) = (now.secs, now.nanos);
    let r = make_result_at(svc, status, healthy, elapsed_ms, error, now.rfc3339);
    assert(crate::monitor::store::stamps(r.checked_at@, secs, nanos, 0));
    r
}

/// The error of a check refused because its URL is not safe to request.
pub open spec fn refused_message() -> Seq<char> {
    "不允许监控内网地址"@
}

/// Plans the check of a service: a service whose URL is not safe gets a
/// refused, unhealthy result with status 0; otherwise the request to send.
pub fn plan_check(svc: &ServiceConfig) -> (p: CheckPlan)
    ensures
        !is_safe_url_spec(svc.url@) ==> (p matches CheckPlan::Refuse(r) && is_result_of(
            r,
            *svc,
            0,
            false,
            0,
            Some(refused_message()),
        ) && is_utc_stamp(r.checked_at@)),
        is_safe_url_spec(svc.url@) ==> (p matches CheckPlan::Send(req) && req.method == method_for(
            svc.method@,
        ) && req.url@ == svc.url@ && req.timeout_secs == (if svc.timeout_secs > 1 {
            svc.timeout_secs
        } else {
            1
        }) && req.headers@ == svc.headers@ && opt_view(req.body) == opt_view(svc.body)),
{
    if !is_safe_url(svc.url.as_str()) {
        return CheckPlan::Refuse(make_result(svc, 0, false, 0, Some(owned("不允许监控内网地址"))));
    }
    CheckPlan::Send(
        CheckRequest {
            method: request_method(svc.method.as_str()),
            url: svc.url.clone(),
            timeout_secs: if svc.timeout_secs > 1 {
                svc.timeout_secs
            } else {
                1
            },
            headers: clone_headers(&svc.headers),
            body: clone_opt(&svc.body),
        },
    )
}

/// The error of a check answered with an unexpected status.
pub open spec fn status_mismatch_message(expected: u16, actual: u16) -> Seq<char> {
    "期望状态 "@ + decimal(expected as nat) + ", 实际 "@ + decimal(actual as nat)
}

/// The result of a sent check: healthy exactly when the answer has the
/// expected status; a failed request is unhealthy with status 0 and its error.
pub fn check_outcome(svc: &ServiceConfig, response: Result<u16, String>, elapsed_ms: u64) -> (r: CheckResult)
    ensures
        match response {
            Ok(status) => is_result_of(
                r,
                *svc,
                status,
                status == svc.expected_status,
                elapsed_ms,
                if status == svc.expected_status {
                    None
                } else {
                    Some(status_mismatch_message(svc.expected_status, status))
                },
            ),
            Err(e) => is_result_of(r, *svc, 0, false, elapsed_ms, Some(e@)),
        },
        is_utc_stamp(r.checked_at@),
{
    match response {
        Ok(status) => {
            let healthy = status == svc.expected_status;
            let error = if !healthy {
                let mut m = owned("期望状态 ");
                push_decimal(&mut m, svc.expected_status as u64);
                push_str(&mut m, ", 实际 ");
                push_decimal(&mut m, status as u64);
                Some(m)
            } else {
                None
            };
            make_result(svc, status, healthy, elapsed_ms, error)
        },
        Err(e) => make_result(svc, 0, false, elapsed_ms, Some(e)),
    }
}

/// Each supported method name is sent as the request method of that name;
/// only other names are sent as `GET`.
pub proof fn lemma_method_names(m: Seq<char>)
    ensures
        method_for("GET"@) == CheckMethod::Get,
        method_for("POST"@) == CheckMethod::Post,
        method_for("PUT"@) == CheckMethod::Put,
        method_for("HEAD"@) == CheckMethod::Head,
        method_for("DELETE"@) == CheckMethod::Delete,
        method_for("PATCH"@) == CheckMethod::Patch,
        method_for("OPTIONS"@) == CheckMethod::Options,
        (m != "POST"@ && m != "PUT"@ && m != "HEAD"@ && m != "DELETE"@ && m != "PATCH"@ && m
            != "OPTIONS"@) ==> method_for(m) == CheckMethod::Get,
{
    reveal_strlit("GET");
    reveal_strlit("POST");
    reveal_strlit("PUT");
    reveal_strlit("HEAD");
    reveal_strlit("DELETE");
    reveal_strlit("PATCH");
    reveal_strlit("OPTIONS");
    assert("GET"@.len() == 3 && "GET"@[0] == 'G');
    assert("POST"@.len() == 4 && "POST"@[0] == 'P');
    assert("PUT"@.len() == 3 && "PUT"@[0] == 'P');
    assert("HEAD"@.len() == 4 && "HEAD"@[0] == 'H');
    assert("DELETE"@.len() == 6 && "DELETE"@[0] == 'D');
    assert("PATCH"@.len() == 5 && "PATCH"@[0] == 'P');
    assert("OPTIONS"@.len() == 7 && "OPTIONS"@[0] == 'O');
}

} // verus!
