//! Which URLs the monitor may request, and validation of service settings
//! entered by the user.
use vstd::prelude::*;
use crate::monitor::config::{opt_view, HeaderPair, ServiceConfig, ServiceConfigView};
use crate::text::{
    blank, chars_equal, chars_of, contains_char, ends_with, has_prefix, has_suffix, is_blank, owned,
    push_str, starts_with,
};

verus! {

/// What `url::Url::parse` makes of a text: `None` when it is no absolute URL,
/// otherwise the URL's scheme and its host (as `Url::host_str` renders it).
pub uninterp spec fn url_parts(input: Seq<char>) -> Option<(Seq<char>, Option<Seq<char>>)>;

/// The parts of a parsed URL that the safety rules read.
pub struct ParsedUrl {
    pub scheme: String,
    pub host: Option<String>,
}

/// Parses an absolute URL with `url::Url::parse` and reads back its
/// `Url::scheme` and `Url::host_str`; `None` when parsing fails. The contract
/// ties the result to `url_parts` of the input and claims nothing else.
#[verifier::external_body]
pub(crate) fn parse_url(input: &str) -> (r: Option<ParsedUrl>)
    ensures
        match url_parts(input@) {
            None => r is None,
            Some(parts) => r matches Some(p) && p.scheme@ == parts.0 && opt_view(p.host) == parts.1,
        },
{
    match url::Url::parse(input) {
        Ok(u) => Some(
            ParsedUrl {
                scheme: u.scheme().to_string(),
                host: match u.host_str() {
                    Some(h) => Some(h.to_string()),
                    None => None,
                },
            },
        ),
        Err(_) => None,
    }
}

/// `c` equals the lowercase ASCII character `p`, ignoring ASCII case.
pub open spec fn ascii_ci_eq(c: char, p: char) -> bool {
    c == p || ((97u32 <= (p as u32) <= 122u32) && (c as u32) + 32 == p as u32)
}

/// `s` begins with the lowercase ASCII text `p`, ignoring ASCII case. For the
/// prefixes used here this is the same as `s.to_lowercase()` beginning with
/// `p`: no character outside ASCII lowercases to one of their characters.
pub open spec fn has_prefix_ci(s: Seq<char>, p: Seq<char>) -> bool {
    p.len() <= s.len() && forall|i: int| 0 <= i < p.len() ==> ascii_ci_eq(#[trigger] s[i], p[i])
}

fn starts_with_ci(s: &[char], p: &[char]) -> (r: bool)
    ensures
        r == has_prefix_ci(s@, p@),
{
    if p.len() > s.len() {
        return false;
    }
    let mut i: usize = 0;
    while i < p.len()
        invariant
            p@.len() <= s@.len(),
            i <= p@.len(),
            forall|k: int| 0 <= k < i ==> ascii_ci_eq(#[trigger] s@[k], p@[k]),
        decreases p@.len() - i,
    {
        let c = s[i];
        let q = p[i];
        if !(c == q || (97u32 <= (q as u32) && (q as u32) <= 122u32 && (c as u32) == (q as u32) - 32)) {
            return false;
        }
        i = i + 1;
    }
    true
}

/// The value of a text of ASCII digits.
pub open spec fn digits_value(s: Seq<char>) -> nat
    decreases s.len(),
{
    if s.len() == 0 {
        0
    } else {
        digits_value(s.drop_last()) * 10 + ((s.last() as u32) - ('0' as u32)) as nat
    }
}

/// Every character is an ASCII digit.
pub open spec fn all_digits(s: Seq<char>) -> bool {
    forall|i: int| 0 <= i < s.len() ==> '0' <= #[trigger] s[i] <= '9'
}

/// What `str::parse::<u8>` accepts: an optional `+`, then one or more ASCII
/// digits whose value is at most 255.
pub open spec fn parse_u8(s: Seq<char>) -> Option<nat> {
    let digits = if s.len() > 0 && s[0] == '+' {
        s.skip(1)
    } else {
        s
    };
    if digits.len() == 0 || !all_digits(digits) || digits_value(digits) > 255 {
        None
    } else {
        Some(digits_value(digits))
    }
}

/// The text before the first `.` (all of it when there is none).
pub open spec fn first_label(s: Seq<char>) -> Seq<char>
    decreases s.len(),
{
    if s.len() == 0 {
        s
    } else if s[0] == '.' {
        Seq::empty()
    } else {
        seq![s[0]] + first_label(s.skip(1))
    }
}

/// Hosts that are always refused: loopback and unspecified addresses in their
/// usual spellings, private IPv4 ranges 10/8, 192.168/16 and the link-local
/// 169.254/16, and the `.local` and `.internal` names.
pub open spec fn is_named_internal_host(h: Seq<char>) -> bool {
    ||| h == "localhost"@
    ||| h == "127.0.0.1"@
    ||| has_prefix(h, "127."@)
    ||| h == "::1"@
    ||| h == "0.0.0.0"@
    ||| h == "::"@
    ||| h == "::ffff:7f00:1"@
    ||| h == "::ffff:127.0.0.1"@
    ||| h == "[::1]"@
    ||| h == "[::]"@
    ||| h == "[::ffff:7f00:1]"@
    ||| h == "[::ffff:127.0.0.1]"@
    ||| has_prefix(h, "10."@)
    ||| has_prefix(h, "192.168."@)
    ||| has_prefix(h, "169.254."@)
    ||| has_suffix(h, ".local"@)
    ||| has_suffix(h, ".internal"@)
}

/// A host in 172.16.0.0/12: it begins with `172.` and the next label is a
/// number from 16 to 31.
pub open spec fn is_private_172_host(h: Seq<char>) -> bool {
    has_prefix(h, "172."@) && match parse_u8(first_label(h.skip(4))) {
        Some(n) => 16 <= n <= 31,
        None => false,
    }
}

/// An IPv6 address literal: bracketed, or holding a `:` (a domain name or an
/// IPv4 address holds neither).
pub open spec fn is_ipv6_literal(h: Seq<char>) -> bool {
    (h.len() > 0 && h[0] == '[') || h.contains(':')
}

/// An IPv6 address literal in the unique-local range fc00::/7 or the
/// link-local range fe80::/10, by its leading characters (an opening `[` is
/// ignored, and so is ASCII case). Domain names such as `fdic.gov` are not
/// IPv6 literals and are not matched.
pub open spec fn is_private_ipv6_host(h: Seq<char>) -> bool {
    let body = if h.len() > 0 && h[0] == '[' {
        h.skip(1)
    } else {
        h
    };
    &&& is_ipv6_literal(h)
    &&& {
    ||| has_prefix_ci(body, "fc"@)
    ||| has_prefix_ci(body, "fd"@)
    ||| has_prefix_ci(body, "fe8"@)
    ||| has_prefix_ci(body, "fe9"@)
    ||| has_prefix_ci(body, "fea"@)
    ||| has_prefix_ci(body, "feb"@)
    }
}

/// A host that the monitor must not reach.
pub open spec fn is_internal_host(h: Seq<char>) -> bool {
    is_named_internal_host(h) || is_private_172_host(h) || is_private_ipv6_host(h)
}

/// A URL the monitor may request: it parses, its scheme is `http` or `https`,
/// and its host (when it has one) is not internal.
pub open spec fn is_safe_url_spec(url: Seq<char>) -> bool {
    match url_parts(url) {
        None => false,
        Some(parts) => (parts.0 == "http"@ || parts.0 == "https"@) && match parts.1 {
            None => true,
            Some(h) => !is_internal_host(h),
        },
    }
}

fn lit_eq(s: &[char], lit: &str) -> (r: bool)
    ensures
        r == (s@ == lit@),
{
    let l = chars_of(lit);
    chars_equal(s, l.as_slice())
}

fn lit_prefix(s: &[char], lit: &str) -> (r: bool)
    ensures
        r == has_prefix(s@, lit@),
{
    let l = chars_of(lit);
    starts_with(s, l.as_slice())
}

fn lit_suffix(s: &[char], lit: &str) -> (r: bool)
    ensures
        r == has_suffix(s@, lit@),
{
    let l = chars_of(lit);
    ends_with(s, l.as_slice())
}

fn lit_prefix_ci(s: &[char], lit: &str) -> (r: bool)
    ensures
        r == has_prefix_ci(s@, lit@),
{
    let l = chars_of(lit);
    starts_with_ci(s, l.as_slice())
}

fn is_named_internal(h: &[char]) -> (r: bool)
    ensures
        r == is_named_internal_host(h@),
{
    lit_eq(h, "localhost") || lit_eq(h, "127.0.0.1") || lit_prefix(h, "127.") || lit_eq(h, "::1")
        || lit_eq(h, "0.0.0.0") || lit_eq(h, "::") || lit_eq(h, "::ffff:7f00:1") || lit_eq(
        h,
        "::ffff:127.0.0.1",
    ) || lit_eq(h, "[::1]") || lit_eq(h, "[::]") || lit_eq(h, "[::ffff:7f00:1]") || lit_eq(
        h,
        "[::ffff:127.0.0.1]",
    ) || lit_prefix(h, "10.") || lit_prefix(h, "192.168.") || lit_prefix(h, "169.254.")
        || lit_suffix(h, ".local") || lit_suffix(h, ".internal")
}

proof fn lemma_first_label(s: Seq<char>, i: int)
    requires
        0 <= i <= s.len(),
        forall|k: int| 0 <= k < i ==> s[k] != '.',
    ensures
        i == s.len() ==> first_label(s) == s,
        i < s.len() && s[i] == '.' ==> first_label(s) == s.take(i),
    decreases s.len(),
{
    if s.len() > 0 && i > 0 {
        lemma_first_label(s.skip(1), i - 1);
        assert(s =~= seq![s[0]] + s.skip(1));
        if i < s.len() && s[i] == '.' {
            assert(s.take(i) =~= seq![s[0]] + s.skip(1).take(i - 1));
        }
    } else if s.len() > 0 {
        assert(s.take(0) =~= Seq::<char>::empty());
    }
}

/// The first label of `s[start..]`.
fn first_label_of(s: &[char], start: usize) -> (r: Vec<char>)
    requires
        start <= s@.len(),
    ensures
        r@ == first_label(s@.skip(start as int)),
{
    let ghost rest = s@.skip(start as int);
    let mut r: Vec<char> = Vec::new();
    let mut i: usize = start;
    while i < s.len() && s[i] != '.'
        invariant
            start <= i <= s@.len(),
            rest == s@.skip(start as int),
            r@ == rest.take(i - start),
            forall|k: int| 0 <= k < i - start ==> rest[k] != '.',
        decreases s@.len() - i,
    {
        r.push(s[i]);
        i = i + 1;
        assert(r@ =~= rest.take(i - start));
    }
    proof {
        lemma_first_label(rest, i - start);
        if i == s.len() {
            assert(rest.take(i - start) =~= rest);
        }
    }
    r
}

fn parse_u8_of(s: &[char]) -> (r: Option<u8>)
    ensures
        match parse_u8(s@) {
            Some(n) => r matches Some(v) && v == n,
            None => r is None,
        },
{
    let start: usize = if s.len() > 0 && s[0] == '+' {
        1
    } else {
        0
    };
    let ghost digits = s@.skip(start as int);
    assert(digits =~= (if s@.len() > 0 && s@[0] == '+' { s@.skip(1) } else { s@ }));
    if start == s.len() {
        assert(digits.len() == 0);
        return None;
    }
    let mut acc: u64 = 0;
    let mut i: usize = start;
    while i < s.len()
        invariant
            start <= i <= s@.len(),
            digits == s@.skip(start as int),
            digits == (if s@.len() > 0 && s@[0] == '+' { s@.skip(1) } else { s@ }),
            all_digits(digits.take(i - start)),
            acc <= 256,
            acc <= 255 ==> acc == digits_value(digits.take(i - start)),
            acc == 256 ==> digits_value(digits.take(i - start)) > 255,
        decreases s@.len() - i,
    {
        let c = s[i];
        if !('0' <= c && c <= '9') {
            assert(!all_digits(digits)) by {
                assert(digits[i - start] == c);
            }
            return None;
        }
        let d = (c as u32 - '0' as u32) as u64;
        let ghost pre = digits.take(i - start);
        let ghost next = digits.take(i - start + 1);
        assert(next.drop_last() =~= pre);
        assert(next.last() == c);
        assert(all_digits(next)) by {
            assert forall|k: int| 0 <= k < next.len() implies '0' <= #[trigger] next[k] <= '9' by {
                if k < pre.len() {
                    assert(next[k] == pre[k]);
                }
            }
        }
        if acc <= 255 {
            let v = acc * 10 + d;
            acc = if v > 255 {
                256
            } else {
                v
            };
        }
        i = i + 1;
    }
    assert(digits.take(digits.len() as int) =~= digits);
    if acc <= 255 {
        Some(acc as u8)
    } else {
        None
    }
}

fn is_private_172(h: &[char]) -> (r: bool)
    ensures
        r == is_private_172_host(h@),
{
    if !lit_prefix(h, "172.") {
        return false;
    }
    proof {
        reveal_strlit("172.");
    }
    let label = first_label_of(h, 4);
    match parse_u8_of(label.as_slice()) {
        Some(n) => 16 <= n && n <= 31,
        None => false,
    }
}

fn is_private_ipv6(h: &[char]) -> (r: bool)
    ensures
        r == is_private_ipv6_host(h@),
{
    let body: Vec<char> = if h.len() > 0 && h[0] == '[' {
        first_label_of_all(h, 1)
    } else {
        first_label_of_all(h, 0)
    };
    let b = body.as_slice();
    assert(b@ == (if h@.len() > 0 && h@[0] == '[' { h@.skip(1) } else { h@ }));
    let literal = (h.len() > 0 && h[0] == '[') || contains_char(h, ':');
    literal && (lit_prefix_ci(b, "fc") || lit_prefix_ci(b, "fd") || lit_prefix_ci(b, "fe8") || lit_prefix_ci(
        b,
        "fe9",
    ) || lit_prefix_ci(b, "fea") || lit_prefix_ci(b, "feb"))
}

/// The characters of `s[start..]`.
fn first_label_of_all(s: &[char], start: usize) -> (r: Vec<char>)
    requires
        start <= s@.len(),
    ensures
        r@ == s@.skip(start as int),
{
    let mut r: Vec<char> = Vec::new();
    let mut i: usize = start;
    while i < s.len()
        invariant
            start <= i <= s@.len(),
            r@ == s@.subrange(start as int, i as int),
        decreases s@.len() - i,
    {
        r.push(s[i]);
        i = i + 1;
        assert(r@ =~= s@.subrange(start as int, i as int));
    }
    assert(s@.subrange(start as int, s@.len() as int) =~= s@.skip(start as int));
    r
}

/// Whether the host is one the monitor must not reach.
pub fn is_internal(host: &str) -> (r: bool)
    ensures
        r == is_internal_host(host@),
{
    let h = chars_of(host);
    is_named_internal(h.as_slice()) || is_private_172(h.as_slice()) || is_private_ipv6(h.as_slice())
}

/// Basic protection against requests to internal addresses: only `http` and
/// `https` URLs are allowed, and not towards loopback, private or link-local
/// hosts. A text that does not parse as a URL is refused.
pub fn is_safe_url(url: &str) -> (r: bool)
    ensures
        r == is_safe_url_spec(url@),
{
    proof {
        reveal_strlit("http");
        reveal_strlit("https");
    }
    match parse_url(url) {
        None => false,
        Some(parsed) => {
            let scheme = chars_of(parsed.scheme.as_str());
            if !(lit_eq(scheme.as_slice(), "http") || lit_eq(scheme.as_slice(), "https")) {
                return false;
            }
            match &parsed.host {
                None => true,
                Some(h) => !is_internal(h.as_str()),
            }
        },
    }
}


/// The HTTP methods a service may be checked with.
pub open spec fn is_supported_method(m: Seq<char>) -> bool {
    ||| m == "GET"@
    ||| m == "POST"@
    ||| m == "PUT"@
    ||| m == "HEAD"@
    ||| m == "DELETE"@
    ||| m == "PATCH"@
    ||| m == "OPTIONS"@
}

/// The complaint about the first bad header: an empty (or blank) key, or a
/// line break in a key or value.
pub open spec fn header_error(headers: Seq<HeaderPair>) -> Option<Seq<char>>
    decreases headers.len(),
{
    if headers.len() == 0 {
        None
    } else if is_blank(headers[0].key@) {
        Some("Header key 不能为空"@)
    } else if headers[0].key@.contains('\r') || headers[0].key@.contains('\n')
        || headers[0].value@.contains('\r') || headers[0].value@.contains('\n') {
        Some("Header 不能包含换行符"@)
    } else {
        header_error(headers.skip(1))
    }
}

/// The largest request body a service may send, in bytes.
pub const MAX_BODY_BYTES: usize = 1048576;

/// The complaint about a service's settings, checked in this order: name,
/// URL (present, well formed, not internal), method, interval, timeout,
/// expected status, headers, body size (in UTF-8 bytes). `None` when valid.
pub open spec fn service_error(svc: ServiceConfigView) -> Option<Seq<char>> {
    if is_blank(svc.name) {
        Some("服务名称不能为空"@)
    } else if is_blank(svc.url) {
        Some("URL 不能为空"@)
    } else if url_parts(svc.url) is None {
        Some("URL 格式无效: "@ + svc.url)
    } else if !is_safe_url_spec(svc.url) {
        Some("不允许监控内网地址"@)
    } else if !is_supported_method(svc.method) {
        Some("不支持的 HTTP 方法: "@ + svc.method)
    } else if svc.interval_secs < 5 {
        Some("检测间隔不能小于 5 秒"@)
    } else if svc.timeout_secs < 1 || svc.timeout_secs > 120 {
        Some("超时时间须在 1-120 秒之间"@)
    } else if !(100 <= svc.expected_status <= 599) {
        Some("期望状态码须在 100-599 之间"@)
    } else if header_error(svc.headers) is Some {
        header_error(svc.headers)
    } else if svc.body matches Some(b) && vstd::utf8::encode_utf8(b).len() > 1048576 {
        Some("请求体不能超过 1MB"@)
    } else {
        None
    }
}

fn has_line_break(s: &str) -> (r: bool)
    ensures
        r == (s@.contains('\r') || s@.contains('\n')),
{
    let c = chars_of(s);
    contains_char(c.as_slice(), '\r') || contains_char(c.as_slice(), '\n')
}

fn check_headers(headers: &Vec<HeaderPair>) -> (r: Option<String>)
    ensures
        match header_error(headers@) {
            None => r is None,
            Some(m) => r matches Some(e) && e@ == m,
        },
{
    let mut i: usize = 0;
    assert(headers@.skip(0) =~= headers@);
    while i < headers.len()
        invariant
            i <= headers@.len(),
            header_error(headers@) == header_error(headers@.skip(i as int)),
        decreases headers@.len() - i,
    {
        let ghost rest = headers@.skip(i as int);
        assert(rest[0] == headers@[i as int]);
        assert(rest.skip(1) =~= headers@.skip(i + 1));
        let h = &headers[i];
        let key = chars_of(h.key.as_str());
        if blank(key.as_slice()) {
            return Some(owned("Header key 不能为空"));
        }
        if has_line_break(h.key.as_str()) || has_line_break(h.value.as_str()) {
            return Some(owned("Header 不能包含换行符"));
        }
        i = i + 1;
    }
    assert(headers@.skip(i as int).len() == 0);
    None
}

fn is_supported(method: &str) -> (r: bool)
    ensures
        r == is_supported_method(method@),
{
    let m = chars_of(method);
    let m = m.as_slice();
    lit_eq(m, "GET") || lit_eq(m, "POST") || lit_eq(m, "PUT") || lit_eq(m, "HEAD") || lit_eq(
        m,
        "DELETE",
    ) || lit_eq(m, "PATCH") || lit_eq(m, "OPTIONS")
}

/// Checks the settings of a service before it is added or updated; the error
/// names the first problem found.
pub fn validate_service(svc: &ServiceConfig) -> (r: Result<(), String>)
    ensures
        match service_error(svc@) {
            None => r is Ok,
            Some(m) => r matches Err(e) && e@ == m,
        },
{
    let name = chars_of(svc.name.as_str());
    if blank(name.as_slice()) {
        return Err(owned("服务名称不能为空"));
    }
    let url = chars_of(svc.url.as_str());
    if blank(url.as_slice()) {
        return Err(owned("URL 不能为空"));
    }
    if parse_url(svc.url.as_str()).is_none() {
        let mut e = owned("URL 格式无效: ");
        push_str(&mut e, svc.url.as_str());
        return Err(e);
    }
    if !is_safe_url(svc.url.as_str()) {
        return Err(owned("不允许监控内网地址"));
    }
    if !is_supported(svc.method.as_str()) {
        let mut e = owned("不支持的 HTTP 方法: ");
        push_str(&mut e, svc.method.as_str());
        return Err(e);
    }
    if svc.interval_secs < 5 {
        return Err(owned("检测间隔不能小于 5 秒"));
    }
    if svc.timeout_secs < 1 || svc.timeout_secs > 120 {
        return Err(owned("超时时间须在 1-120 秒之间"));
    }
    if !(100 <= svc.expected_status && svc.expected_status <= 599) {
        return Err(owned("期望状态码须在 100-599 之间"));
    }
    match check_headers(&svc.headers) {
        Some(e) => {
            return Err(e);
        },
        None => {},
    }
    match &svc.body {
        Some(body) => {
            if body.as_str().as_bytes().len() > MAX_BODY_BYTES {
                return Err(owned("请求体不能超过 1MB"));
            }
        },
        None => {},
    }
    Ok(())
}


/// The characters of an IPv4 address in dotted form: digits and dots only.
pub open spec fn is_dotted_digits(h: Seq<char>) -> bool {
    forall|k: int| 0 <= k < h.len() ==> h[k] == '.' || (48 <= (#[trigger] h[k]) as u32 <= 57)
}

proof fn lemma_prefix_gives_first_label(h: Seq<char>, lit: Seq<char>, n: int)
    requires
        has_prefix(h, lit),
        0 <= n < lit.len(),
        lit[n] == '.',
        forall|k: int| 0 <= k < n ==> lit[k] != '.',
    ensures
        first_label(h) == lit.take(n),
{
    assert forall|k: int| 0 <= k <= n implies h[k] == lit[k] by {
        assert(h.subrange(0, lit.len() as int)[k] == lit[k]);
    }
    lemma_first_label(h, n);
    assert(h.take(n) =~= lit.take(n));
}

/// An IPv4 address in dotted form is refused only for the internal ranges,
/// which its first number picks out: unless that number is 10, 127, 169, 172
/// or 192, or the address is 0.0.0.0, it may be monitored (so public
/// addresses such as 104.16.132.229 or 100.20.0.1 are allowed). Every address
/// whose first number is exactly 10 is refused.
pub proof fn lemma_ipv4_refused_only_by_first_number(h: Seq<char>)
    ensures
        is_dotted_digits(h) && first_label(h) != "10"@ && first_label(h) != "127"@ && first_label(h)
            != "169"@ && first_label(h) != "172"@ && first_label(h) != "192"@ && h != "0.0.0.0"@
            ==> !is_internal_host(h),
        is_dotted_digits(h) && first_label(h) == "10"@ && h.len() > 2 ==> is_internal_host(h),
{
    reveal_strlit("localhost");
    reveal_strlit("127.0.0.1");
    reveal_strlit("127.");
    reveal_strlit("127");
    reveal_strlit("::1");
    reveal_strlit("0.0.0.0");
    reveal_strlit("::");
    reveal_strlit("::ffff:7f00:1");
    reveal_strlit("::ffff:127.0.0.1");
    reveal_strlit("[::1]");
    reveal_strlit("[::]");
    reveal_strlit("[::ffff:7f00:1]");
    reveal_strlit("[::ffff:127.0.0.1]");
    reveal_strlit("10.");
    reveal_strlit("10");
    reveal_strlit("192.168.");
    reveal_strlit("192");
    reveal_strlit("169.254.");
    reveal_strlit("169");
    reveal_strlit("172.");
    reveal_strlit("172");
    reveal_strlit(".local");
    reveal_strlit(".internal");
    if is_dotted_digits(h) && first_label(h) != "10"@ && first_label(h) != "127"@ && first_label(h)
        != "169"@ && first_label(h) != "172"@ && first_label(h) != "192"@ && h != "0.0.0.0"@ {
        if h.len() > 0 {
            assert(h[0] == '.' || (48 <= (h[0] as u32) <= 57));
        }
        assert(h != "localhost"@) by {
            if h == "localhost"@ {
                assert(h[0] == 'l');
            }
        }
        assert(h != "127.0.0.1"@) by {
            if h == "127.0.0.1"@ {
                assert(has_prefix(h, "127."@)) by {
                    assert(h.subrange(0, 4) =~= "127."@);
                }
                lemma_prefix_gives_first_label(h, "127."@, 3);
                assert("127."@.take(3) =~= "127"@);
            }
        }
        assert(!has_prefix(h, "127."@)) by {
            if has_prefix(h, "127."@) {
                lemma_prefix_gives_first_label(h, "127."@, 3);
                assert("127."@.take(3) =~= "127"@);
            }
        }
        assert(!has_prefix(h, "10."@)) by {
            if has_prefix(h, "10."@) {
                lemma_prefix_gives_first_label(h, "10."@, 2);
                assert("10."@.take(2) =~= "10"@);
            }
        }
        assert(!has_prefix(h, "192.168."@)) by {
            if has_prefix(h, "192.168."@) {
                lemma_prefix_gives_first_label(h, "192.168."@, 3);
                assert("192.168."@.take(3) =~= "192"@);
            }
        }
        assert(!has_prefix(h, "169.254."@)) by {
            if has_prefix(h, "169.254."@) {
                lemma_prefix_gives_first_label(h, "169.254."@, 3);
                assert("169.254."@.take(3) =~= "169"@);
            }
        }
        assert(!has_prefix(h, "172."@)) by {
            if has_prefix(h, "172."@) {
                lemma_prefix_gives_first_label(h, "172."@, 3);
                assert("172."@.take(3) =~= "172"@);
            }
        }
        assert(!has_suffix(h, ".local"@)) by {
            if has_suffix(h, ".local"@) {
                assert(h.subrange(h.len() - 6, h.len() as int)[5] == ".local"@[5]);
                assert(h[h.len() - 1] == 'l');
            }
        }
        assert(!has_suffix(h, ".internal"@)) by {
            if has_suffix(h, ".internal"@) {
                assert(h.subrange(h.len() - 9, h.len() as int)[8] == ".internal"@[8]);
                assert(h[h.len() - 1] == 'l');
            }
        }
        assert(!h.contains(':')) by {
            if h.contains(':') {
                let k = choose|k: int| 0 <= k < h.len() && h[k] == ':';
                assert(h[k] == '.' || (48 <= (h[k] as u32) <= 57));
            }
        }
        assert(h != "::1"@ && h != "::"@ && h != "::ffff:7f00:1"@ && h != "::ffff:127.0.0.1"@) by {
            if h == "::1"@ || h == "::"@ || h == "::ffff:7f00:1"@ || h == "::ffff:127.0.0.1"@ {
                assert(h[0] == ':');
            }
        }
        assert(h != "[::1]"@ && h != "[::]"@ && h != "[::ffff:7f00:1]"@ && h != "[::ffff:127.0.0.1]"@)
            by {
            if h == "[::1]"@ || h == "[::]"@ || h == "[::ffff:7f00:1]"@ || h == "[::ffff:127.0.0.1]"@ {
                assert(h[0] == '[');
            }
        }
    }
    if is_dotted_digits(h) && first_label(h) == "10"@ && h.len() > 2 {
        assert(h[0] == '1' && h[1] == '0') by {
            lemma_first_label_take(h);
        }
        assert(h[2] == '.') by {
            lemma_first_label_take(h);
        }
        assert(h.subrange(0, 3) =~= "10."@);
    }
}

proof fn lemma_first_label_take(h: Seq<char>)
    ensures
        first_label(h).len() <= h.len(),
        forall|k: int| 0 <= k < first_label(h).len() ==> first_label(h)[k] == h[k] && h[k] != '.',
        first_label(h).len() < h.len() ==> h[first_label(h).len() as int] == '.',
    decreases h.len(),
{
    if h.len() > 0 && h[0] != '.' {
        lemma_first_label_take(h.skip(1));
        let rest = first_label(h.skip(1));
        assert(first_label(h) == seq![h[0]] + rest);
        assert forall|k: int| 0 <= k < first_label(h).len() implies first_label(h)[k] == h[k] && h[k] != '.' by {
            if k > 0 {
                assert(first_label(h)[k] == rest[k - 1]);
                assert(h.skip(1)[k - 1] == h[k]);
            }
        }
        if first_label(h).len() < h.len() {
            assert(h.skip(1)[rest.len() as int] == h[rest.len() as int + 1]);
        }
    }
}

/// A service that passes validation has a URL that is safe to check.
pub proof fn lemma_valid_service_is_safe(svc: ServiceConfigView)
    requires
        service_error(svc) is None,
    ensures
        is_safe_url_spec(svc.url),
        is_supported_method(svc.method),
        svc.interval_secs >= 5,
        1 <= svc.timeout_secs <= 120,
{
}

} // verus!
