//! The usage snapshot, the one request that fetches it, and what a response
//! means. Sending the request is the caller's part.
use vstd::prelude::*;
use vstd::string::StringExecFns;
use crate::credential::{Credential, origin_is_oauth, opt_text};

verus! {

/// One rate window. Usage is held in hundredths of a percent (`4500` is
/// 45.00%); either field may be unknown.
#[derive(Clone, Copy, Debug, PartialEq, Eq, Structural)]
pub struct RateWindow {
    pub used_bp: Option<u64>,
    pub reset_after_seconds: Option<u64>,
}

/// The usage the service reports; every field may be missing.
#[derive(Clone, Debug)]
pub struct UsageSnapshot {
    pub plan_type: Option<String>,
    pub primary_window: Option<RateWindow>,
    pub secondary_window: Option<RateWindow>,
    pub limit_reached: Option<bool>,
}

/// One request header.
#[derive(Clone, Debug)]
pub struct Header {
    pub name: String,
    pub value: String,
}

/// The GET request to send.
#[derive(Clone, Debug)]
pub struct UsageRequest {
    pub url: String,
    pub headers: Vec<Header>,
}

#[derive(Clone, Debug)]
pub enum UsageError {
    /// A plain API key cannot read usage; nothing was sent.
    ApiKeyUnsupported,
    /// The token was refused (401 or 403).
    Unauthorized { status: u16 },
    /// Any other status outside 2xx, with the body as received.
    ApiError { status: u16, body: String },
    /// A 2xx body that is not a usage snapshot, as received.
    MalformedResponse { raw: String },
}

/// The usage endpoint.
pub open spec fn usage_url() -> Seq<char> {
    "https://chatgpt.com/backend-api/wham/usage"@
}

/// The user agent the request carries.
pub open spec fn user_agent() -> Seq<char> {
    "Mozilla/5.0 (compatible; codex-usage/0.1)"@
}

/// Names and values of a list of headers.
pub open spec fn headers_view(hs: Seq<Header>) -> Seq<(Seq<char>, Seq<char>)> {
    hs.map_values(|h: Header| (h.name@, h.value@))
}

/// The headers a request for this credential carries, in order.
pub open spec fn request_headers(token: Seq<char>, account_id: Option<Seq<char>>) -> Seq<(Seq<char>, Seq<char>)> {
    let base = seq![
        ("Authorization"@, "Bearer "@ + token),
        ("Content-Type"@, "application/json"@),
        ("Accept"@, "application/json"@),
        ("User-Agent"@, user_agent()),
    ];
    match account_id {
        Some(a) => base.push(("chatgpt-account-id"@, a)),
        None => base,
    }
}

fn push_header(hs: &mut Vec<Header>, name: &str, value: String)
    ensures
        headers_view(final(hs)@) == headers_view(old(hs)@).push((name@, value@)),
{
    let ghost before = hs@;
    hs.push(Header { name: String::from_str(name), value });
    assert(headers_view(hs@) =~= headers_view(before).push((name@, value@)));
}

/// The request that reads usage with this credential. A plain API key is
/// refused with `ApiKeyUnsupported` and no request is made.
pub fn usage_request(cred: &Credential) -> (r: Result<UsageRequest, UsageError>)
    ensures
        r is Err <==> !origin_is_oauth(cred.origin),
        r matches Err(e) ==> e is ApiKeyUnsupported,
        r matches Ok(req) ==> req.url@ == usage_url() && headers_view(req.headers@)
            == request_headers(cred.token@, opt_text(cred.account_id)),
{
    if !cred.is_oauth() {
        return Err(UsageError::ApiKeyUnsupported);
    }
    let mut headers: Vec<Header> = Vec::new();
    let mut bearer = String::from_str("Bearer ");
    bearer.append(cred.token.as_str());
    push_header(&mut headers, "Authorization", bearer);
    push_header(&mut headers, "Content-Type", String::from_str("application/json"));
    push_header(&mut headers, "Accept", String::from_str("application/json"));
    push_header(&mut headers, "User-Agent", String::from_str("Mozilla/5.0 (compatible; codex-usage/0.1)"));
    if let Some(account_id) = &cred.account_id {
        push_header(&mut headers, "chatgpt-account-id", account_id.clone());
    }
    proof {
        assert(headers_view(headers@) =~= request_headers(cred.token@, opt_text(cred.account_id)));
    }
    Ok(UsageRequest { url: String::from_str("https://chatgpt.com/backend-api/wham/usage"), headers })
}

/// Whether a status is a success (2xx).
pub open spec fn is_success(status: u16) -> bool {
    200 <= status < 300
}

/// What a response means: 401 and 403 are `Unauthorized`; any other status
/// outside 2xx is `ApiError` with the body verbatim; a 2xx is the snapshot
/// parsed from the body, or `MalformedResponse` with the body verbatim where
/// the body did not parse (`parsed` is `None`).
pub fn usage_from_response(status: u16, body: String, parsed: Option<UsageSnapshot>) -> (r: Result<UsageSnapshot, UsageError>)
    ensures
        (status == 401 || status == 403) ==> (r matches Err(UsageError::Unauthorized { status: s }) && s == status),
        (status != 401 && status != 403 && !is_success(status)) ==> (r matches Err(UsageError::ApiError { status: s, body: b })
            && s == status && b@ == body@),
        is_success(status) && parsed is None ==> (r matches Err(UsageError::MalformedResponse { raw }) && raw@ == body@),
        is_success(status) && parsed is Some ==> r == Ok::<UsageSnapshot, UsageError>(parsed->0),
{
    if status == 401 || status == 403 {
        return Err(UsageError::Unauthorized { status });
    }
    if !(200 <= status && status < 300) {
        return Err(UsageError::ApiError { status, body });
    }
    match parsed {
        Some(snapshot) => Ok(snapshot),
        None => Err(UsageError::MalformedResponse { raw: body }),
    }
}

} // verus!
