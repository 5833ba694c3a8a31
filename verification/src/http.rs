//! Interpretation of provider HTTP responses and the request headers that
//! carry an API key.
use vstd::prelude::*;
use crate::error::{AppError, AppErrorView};
use crate::text::{chars_of, decimal, first_chars, owned, push_decimal, push_first_chars, push_str};

verus! {

/// How many characters of a response body an error message quotes.
pub const BODY_EXCERPT_CHARS: usize = 200;

/// The error that a response status stands for (`None` for a 2xx success).
/// Client and server errors quote at most the first 200 characters of the body.
pub open spec fn status_error(status: u16, body: Seq<char>) -> Option<AppErrorView> {
    if 200 <= status <= 299 {
        None
    } else if status == 401 {
        Some(AppErrorView::Unauthorized)
    } else if status == 429 {
        Some(AppErrorView::RateLimited)
    } else if 400 <= status <= 499 {
        Some(AppErrorView::Api { status, message: "Client error: "@ + first_chars(body, 200) })
    } else if 500 <= status <= 599 {
        Some(AppErrorView::Api { status, message: "Server error: "@ + first_chars(body, 200) })
    } else {
        Some(AppErrorView::Unknown("Unexpected status: "@ + decimal(status as nat)))
    }
}

/// Maps an HTTP status and response body to success or the matching error.
pub fn handle_response_status(status: u16, body: &str) -> (r: Result<(), AppError>)
    ensures
        match status_error(status, body@) {
            None => r is Ok,
            Some(e) => r matches Err(x) && x@ == e,
        },
{
    if 200 <= status && status <= 299 {
        Ok(())
    } else if status == 401 {
        Err(AppError::Unauthorized)
    } else if status == 429 {
        Err(AppError::RateLimited)
    } else if 400 <= status && status <= 499 {
        let mut message = owned("Client error: ");
        push_first_chars(&mut message, body, BODY_EXCERPT_CHARS);
        Err(AppError::Api { status, message })
    } else if 500 <= status && status <= 599 {
        let mut message = owned("Server error: ");
        push_first_chars(&mut message, body, BODY_EXCERPT_CHARS);
        Err(AppError::Api { status, message })
    } else {
        let mut message = owned("Unexpected status: ");
        push_decimal(&mut message, status as u64);
        Err(AppError::Unknown(message))
    }
}

/// A character that may stand in an HTTP header value: every byte of its
/// UTF-8 encoding is a tab or at least 32 and not 127. Characters beyond
/// ASCII encode to bytes of 128 and more, so they are all allowed.
pub open spec fn is_header_value_char(c: char) -> bool {
    let n = c as u32;
    n == 9 || (n >= 32 && n != 127)
}

/// A text that may be used as an HTTP header value.
pub open spec fn is_header_value(s: Seq<char>) -> bool {
    forall|k: int| 0 <= k < s.len() ==> is_header_value_char(#[trigger] s[k])
}

/// The headers that authenticate a request to a provider.
#[derive(Debug)]
pub struct AuthHeaders {
    /// The `Authorization` header value.
    pub authorization: String,
    /// The `Content-Type` header value.
    pub content_type: String,
}

/// The message of the error for an API key that cannot stand in a header.
pub open spec fn invalid_token_message() -> Seq<char> {
    "Invalid token format: failed to parse header value"@
}

/// The bearer-token headers for an API key: `Authorization: Bearer <token>` and
/// `Content-Type: application/json`. A key holding a control character (other
/// than tab) cannot form a header value and yields an `Unknown` error.
pub fn auth_headers(token: &str) -> (r: Result<AuthHeaders, AppError>)
    ensures
        is_header_value(token@) ==> (r matches Ok(h) && h.authorization@ == "Bearer "@ + token@
            && h.content_type@ == "application/json"@),
        !is_header_value(token@) ==> (r matches Err(e) && e@ == AppErrorView::Unknown(
            invalid_token_message(),
        )),
{
    let chars = chars_of(token);
    let mut i: usize = 0;
    while i < chars.len()
        invariant
            chars@ == token@,
            i <= chars@.len(),
            forall|k: int| 0 <= k < i ==> is_header_value_char(#[trigger] chars@[k]),
        decreases chars@.len() - i,
    {
        let n = chars[i] as u32;
        if !(n == 9 || (n >= 32 && n != 127)) {
            assert(!is_header_value_char(token@[i as int]));
            return Err(AppError::Unknown(owned("Invalid token format: failed to parse header value")));
        }
        i = i + 1;
    }
    let mut authorization = owned("Bearer ");
    push_str(&mut authorization, token);
    Ok(AuthHeaders { authorization, content_type: owned("application/json") })
}

/// How every status is answered: a 2xx status succeeds; 401 is
/// `Unauthorized` and 429 `RateLimited`; every other 4xx and every 5xx status
/// is an `Api` error carrying that status and the message `Client error: ` or
/// `Server error: ` followed by the body, cut to its first 200 characters;
/// any other status is `Unknown` naming the status.
pub proof fn lemma_status_classes(status: u16, body: Seq<char>)
    ensures
        ({
            let excerpt = if body.len() <= 200 {
                body
            } else {
                body.take(200)
            };
            &&& (200 <= status < 300 <==> status_error(status, body) is None)
            &&& status == 401 ==> status_error(status, body) == Some(AppErrorView::Unauthorized)
            &&& status == 429 ==> status_error(status, body) == Some(AppErrorView::RateLimited)
            &&& (400 <= status < 500 && status != 401 && status != 429) ==> status_error(status, body)
                == Some(AppErrorView::Api { status, message: "Client error: "@ + excerpt })
            &&& 500 <= status < 600 ==> status_error(status, body) == Some(
                AppErrorView::Api { status, message: "Server error: "@ + excerpt },
            )
            &&& (status < 200 || (300 <= status < 400) || status >= 600) ==> status_error(status, body)
                == Some(AppErrorView::Unknown("Unexpected status: "@ + decimal(status as nat)))
        }),
{
}

} // verus!
