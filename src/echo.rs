//! Renders a request as an equivalent `curl` command for operators.

use vstd::prelude::*;
use vstd::string::*;
use crate::remote::{json_string_of, json_string_text};

verus! {

/// `s` without its trailing `/` characters.
pub open spec fn trim_trailing_slashes(s: Seq<char>) -> Seq<char>
    decreases s.len(),
{
    if s.len() > 0 && s.last() == '/' {
        trim_trailing_slashes(s.drop_last())
    } else {
        s
    }
}

/// `s` begins with `prefix`.
pub open spec fn has_prefix(s: Seq<char>, prefix: Seq<char>) -> bool {
    prefix.len() <= s.len() && s.subrange(0, prefix.len() as int) == prefix
}

/// `s` with its leading `scheme` replaced by `http://`.
pub open spec fn with_http_scheme(s: Seq<char>, scheme: Seq<char>) -> Seq<char> {
    "http://"@ + s.subrange(scheme.len() as int, s.len() as int)
}

/// The address that the diagnostic command posts to: the endpoint without
/// trailing slashes, a leading `wss://`, `https://` or `ws://` scheme replaced
/// by the plain `http://`, and the rest of the address as it is.
pub open spec fn echo_url(api_url: Seq<char>) -> Seq<char> {
    let t = trim_trailing_slashes(api_url);
    if has_prefix(t, "wss://"@) {
        with_http_scheme(t, "wss://"@)
    } else if has_prefix(t, "https://"@) {
        with_http_scheme(t, "https://"@)
    } else if has_prefix(t, "ws://"@) {
        with_http_scheme(t, "ws://"@)
    } else {
        t
    }
}

/// The JSON-RPC envelope that carries one request, keys in sorted order as
/// serde_json writes an object; the method is a JSON string.
pub open spec fn rpc_body(method: Seq<char>, request_json: Seq<char>) -> Seq<char> {
    "{\"id\":0,\"jsonrpc\":\"2.0\",\"method\":"@ + json_string_text(method) + ",\"params\":["@
        + request_json + "]}"@
}

/// A `curl` command that posts `body` to `url`.
pub open spec fn curl_command(url: Seq<char>, body: Seq<char>) -> Seq<char> {
    "curl -X POST \""@ + url + "\" -H \"Content-Type: application/json\" -d '"@ + body
        + "' -k"@
}

/// The diagnostic command for a call of `method` with `request_json` on `api_url`.
pub open spec fn echo_command(api_url: Seq<char>, method: Seq<char>, request_json: Seq<char>) -> Seq<
    char,
> {
    curl_command(echo_url(api_url), rpc_body(method, request_json))
}

fn trim_slashes(s: &str) -> (r: &str)
    ensures
        r@ == trim_trailing_slashes(s@),
{
    let mut n: usize = s.unicode_len();
    assert(s@.subrange(0, n as int) =~= s@);
    while n > 0 && s.get_char(n - 1) == '/'
        invariant
            n <= s@.len(),
            trim_trailing_slashes(s@) == trim_trailing_slashes(s@.subrange(0, n as int)),
        decreases n,
    {
        assert(s@.subrange(0, n as int).drop_last() =~= s@.subrange(0, n - 1));
        n = n - 1;
    }
    s.substring_char(0, n)
}

fn strip_prefix<'a>(s: &'a str, prefix: &str) -> (r: Option<&'a str>)
    ensures
        match r {
            Some(rest) => has_prefix(s@, prefix@) && rest@ == s@.subrange(
                prefix@.len() as int,
                s@.len() as int,
            ),
            None => !has_prefix(s@, prefix@),
        },
{
    let len: usize = s.unicode_len();
    let plen: usize = prefix.unicode_len();
    if plen > len {
        return None;
    }
    let mut i: usize = 0;
    while i < plen
        invariant
            plen == prefix@.len(),
            len == s@.len(),
            plen <= len,
            i <= plen,
            forall|j: int| 0 <= j < i ==> s@[j] == prefix@[j],
        decreases plen - i,
    {
        if s.get_char(i) != prefix.get_char(i) {
            assert(s@.subrange(0, plen as int)[i as int] != prefix@[i as int]);
            return None;
        }
        i = i + 1;
    }
    assert(s@.subrange(0, plen as int) =~= prefix@);
    Some(s.substring_char(plen, len))
}

fn http_with_rest(rest: &str) -> (r: String)
    ensures
        r@ == "http://"@ + rest@,
{
    let mut out = String::from_str("http://");
    out.append(rest);
    out
}

/// The address that the diagnostic command posts to.
pub fn echo_url_of(api_url: &str) -> (r: String)
    ensures
        r@ == echo_url(api_url@),
{
    let t = trim_slashes(api_url);
    if let Some(rest) = strip_prefix(t, "wss://") {
        http_with_rest(rest)
    } else if let Some(rest) = strip_prefix(t, "https://") {
        http_with_rest(rest)
    } else if let Some(rest) = strip_prefix(t, "ws://") {
        http_with_rest(rest)
    } else {
        String::from_str(t)
    }
}

/// Renders the call of `method` with `request_json` on `api_url` as a `curl`
/// command that an operator can run to reproduce it.
pub fn render_echo(api_url: &str, method: &str, request_json: &str) -> (r: String)
    ensures
        r@ == echo_command(api_url@, method@, request_json@),
{
    let url = echo_url_of(api_url);
    let mut out = String::from_str("curl -X POST \"");
    out.append(url.as_str());
    out.append("\" -H \"Content-Type: application/json\" -d '");
    out.append("{\"id\":0,\"jsonrpc\":\"2.0\",\"method\":");
    let quoted = json_string_of(method);
    out.append(quoted.as_str());
    out.append(",\"params\":[");
    out.append(request_json);
    out.append("]}");
    out.append("' -k");
    out
}

} // verus!
