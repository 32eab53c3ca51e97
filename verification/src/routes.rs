//! HTTP routes outside the RPC services: health, the OAuth callback stub
//! and the email-verification handoff. They are answered ahead of the
//! RPC stack; every other request falls through to it.

use vstd::prelude::*;

use crate::text::{find_char, str_eq, substring};

verus! {

/// A plain-text answer: the status code and the body.
#[derive(Debug)]
pub struct TextResponse {
    pub status: u16,
    pub body: String,
}

/// The name-value pairs of a query string in the
/// `application/x-www-form-urlencoded` syntax, percent-decoded.
pub uninterp spec fn form_pairs(query: Seq<char>) -> Seq<(Seq<char>, Seq<char>)>;

pub open spec fn pairs_view(v: Seq<(String, String)>) -> Seq<(Seq<char>, Seq<char>)> {
    v.map_values(|p: (String, String)| (p.0@, p.1@))
}

/// form_urlencoded's `parse`, read to the end: the pairs of the query in
/// order, named `form_pairs`.
#[verifier::external_body]
fn parse_query(query: &str) -> (r: Vec<(String, String)>)
    ensures
        pairs_view(r@) == form_pairs(query@),
{
    url::form_urlencoded::parse(query.as_bytes()).into_owned().collect()
}

/// The value of the last pair named `key`, if any.
pub open spec fn last_value(pairs: Seq<(Seq<char>, Seq<char>)>, key: Seq<char>) -> Option<Seq<char>>
    decreases pairs.len(),
{
    if pairs.len() == 0 {
        None
    } else if pairs.last().0 == key {
        Some(pairs.last().1)
    } else {
        last_value(pairs.drop_last(), key)
    }
}

fn last_value_of(pairs: &Vec<(String, String)>, key: &str) -> (r: Option<String>)
    ensures
        match r {
            Some(v) => last_value(pairs_view(pairs@), key@) == Some(v@),
            None => last_value(pairs_view(pairs@), key@) is None,
        },
{
    let mut found: Option<String> = None;
    let mut i: usize = 0;
    while i < pairs.len()
        invariant
            i <= pairs@.len(),
            match found {
                Some(v) => last_value(pairs_view(pairs@.subrange(0, i as int)), key@) == Some(v@),
                None => last_value(pairs_view(pairs@.subrange(0, i as int)), key@) is None,
            },
        decreases pairs.len() - i,
    {
        let ghost before = pairs_view(pairs@.subrange(0, i as int));
        if str_eq(pairs[i].0.as_str(), key) {
            found = Some(pairs[i].1.clone());
        }
        proof {
            let after = pairs_view(pairs@.subrange(0, i + 1));
            assert(after.drop_last() =~= before);
            assert(after.last() == (pairs@[i as int].0@, pairs@[i as int].1@));
        }
        i = i + 1;
    }
    assert(pairs@.subrange(0, pairs@.len() as int) =~= pairs@);
    found
}

pub open spec fn missing_code_message() -> Seq<char> {
    "missing `code` query parameter; pass through Auth.SsoComplete instead"@
}

/// The OAuth callback stub: 400 without a `code`; otherwise it echoes the
/// code and state (the last of each) and points at SSO completion.
pub open spec fn oauth_callback_response(query: Seq<char>) -> (u16, Seq<char>) {
    let pairs = form_pairs(query);
    match last_value(pairs, "code"@) {
        None => (400, missing_code_message()),
        Some(code) => (
            200,
            "OAuth callback received: code="@ + code + ", state="@ + (match last_value(pairs, "state"@) {
                Some(s) => s,
                None => Seq::empty(),
            }) + ".\nFor the demo this is a stub \u{2014} call Auth.SsoComplete with the same `state`."@,
        ),
    }
}

pub fn oauth_callback(query: Option<&str>) -> (r: TextResponse)
    ensures
        (r.status, r.body@) == oauth_callback_response(
            match query {
                Some(q) => q@,
                None => Seq::empty(),
            },
        ),
{
    let q = match query {
        Some(q) => q,
        None => "",
    };
    proof {
        reveal_strlit("");
    }
    let pairs = parse_query(q);
    let code = last_value_of(&pairs, "code");
    let state = last_value_of(&pairs, "state");
    let ghost qv = match query {
        Some(q) => q@,
        None => Seq::empty(),
    };
    assert(q@ == qv);
    match code {
        None => {
            let body = String::from_str("missing `code` query parameter; pass through Auth.SsoComplete instead");
            assert(body@ == missing_code_message());
            assert(last_value(form_pairs(qv), "code"@) is None);
            TextResponse { status: 400, body }
        },
        Some(code) => {
            let mut body = String::from_str("OAuth callback received: code=");
            body.append(code.as_str());
            body.append(", state=");
            match &state {
                Some(s) => body.append(s.as_str()),
                None => {},
            }
            body.append(".\nFor the demo this is a stub \u{2014} call Auth.SsoComplete with the same `state`.");
            TextResponse { status: 200, body }
        },
    }
}

pub open spec fn verify_email_message() -> Seq<char> {
    "email verification is bypassed in this build; flip ENFORCE_EMAIL_VERIFICATION to enable"@
}

/// The email-verification handoff: verification is treated as done at
/// signup, so this only says so.
pub fn verify_email_stub(query: Option<&str>) -> (r: TextResponse)
    ensures
        r.status == 200,
        r.body@ == verify_email_message(),
{
    TextResponse {
        status: 200,
        body: String::from_str(
            "email verification is bypassed in this build; flip ENFORCE_EMAIL_VERIFICATION to enable",
        ),
    }
}

pub fn healthz() -> (r: TextResponse)
    ensures
        r.status == 200,
        r.body@ == "ok"@,
{
    TextResponse { status: 200, body: String::from_str("ok") }
}

/// A request target split at its first `?` into the path and the query.
pub open spec fn target_parts(target: Seq<char>) -> (Seq<char>, Option<Seq<char>>) {
    match crate::text::first_index_of(target, '?') {
        Some(i) => (target.subrange(0, i), Some(target.subrange(i + 1, target.len() as int))),
        None => (target, None),
    }
}

/// Which route answers a request: `GET /healthz`, `GET /oauth/callback`
/// and `GET /verify-email`; anything else goes to the RPC stack.
pub open spec fn route_of(method: Seq<char>, target: Seq<char>) -> Option<(u16, Seq<char>)> {
    let (path, query) = target_parts(target);
    if method != "GET"@ {
        None
    } else if path == "/healthz"@ {
        Some((200, "ok"@))
    } else if path == "/oauth/callback"@ {
        Some(
            oauth_callback_response(
                match query {
                    Some(q) => q,
                    None => Seq::empty(),
                },
            ),
        )
    } else if path == "/verify-email"@ {
        Some((200, verify_email_message()))
    } else {
        None
    }
}

/// Answer a request for one of these routes, or `None` to let the RPC
/// stack have it. `target` is the request target, path and query.
pub fn try_handle(method: &str, target: &str) -> (r: Option<TextResponse>)
    ensures
        match r {
            Some(resp) => route_of(method@, target@) == Some((resp.status, resp.body@)),
            None => route_of(method@, target@) is None,
        },
{
    let (path, query) = match find_char(target, '?') {
        Some(i) => {
            let n = target.unicode_len();
            (substring(target, 0, i), Some(substring(target, i + 1, n)))
        },
        None => (String::from_str(target), None),
    };
    if !str_eq(method, "GET") {
        return None;
    }
    if str_eq(path.as_str(), "/healthz") {
        Some(healthz())
    } else if str_eq(path.as_str(), "/oauth/callback") {
        let q = match &query {
            Some(q) => Some(q.as_str()),
            None => None,
        };
        Some(oauth_callback(q))
    } else if str_eq(path.as_str(), "/verify-email") {
        let q = match &query {
            Some(q) => Some(q.as_str()),
            None => None,
        };
        Some(verify_email_stub(q))
    } else {
        None
    }
}

} // verus!
