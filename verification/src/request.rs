//! What a request to the music service carries, before it is encrypted and sent.

use vstd::prelude::*;
use crate::text::{contains, contains_text, replace, replace_text, str_eq};
use crate::crypto::{linuxapi, linuxapi_body, secret_key_of, weapi, weapi_body};
use crate::user_agent::{agent_range, choose_user_agent, LINUX_USER_AGENT, USER_AGENT_LIST};

verus! {

/// A call of the service as an endpoint asks for it: the HTTP method, the
/// kind of user agent, the encryption scheme, the address and the parameters
/// (as JSON text).
pub struct ApiCall {
    pub method: String,
    pub ua: String,
    pub crypto: String,
    pub url: String,
    pub payload: String,
}

/// The texts of an `ApiCall`.
pub struct ApiCallView {
    pub method: Seq<char>,
    pub ua: Seq<char>,
    pub crypto: Seq<char>,
    pub url: Seq<char>,
    pub payload: Seq<char>,
}

impl View for ApiCall {
    type V = ApiCallView;

    open spec fn view(&self) -> ApiCallView {
        ApiCallView {
            method: self.method@,
            ua: self.ua@,
            crypto: self.crypto@,
            url: self.url@,
            payload: self.payload@,
        }
    }
}

impl ApiCall {
    /// A call from its five texts.
    pub fn new(method: &str, ua: &str, crypto: &str, url: &str, payload: &str) -> (c: ApiCall)
        ensures
            c@ == (ApiCallView {
                method: method@,
                ua: ua@,
                crypto: crypto@,
                url: url@,
                payload: payload@,
            }),
    {
        ApiCall {
            method: method.to_owned(),
            ua: ua.to_owned(),
            crypto: crypto.to_owned(),
            url: url.to_owned(),
            payload: payload.to_owned(),
        }
    }
}

/// How the body of a request is encrypted.
#[derive(PartialEq, Eq, Structural, Clone, Copy, Debug)]
pub enum Encryption {
    /// The web API scheme.
    Weapi,
    /// The Linux client scheme.
    Linuxapi,
}

/// A request ready to be encrypted and sent by POST.
pub struct RequestPlan {
    /// Header names and values, in the order they are set.
    pub headers: Vec<(String, String)>,
    pub encryption: Encryption,
    /// The text that is encrypted into the body.
    pub text: String,
    /// Where the request goes.
    pub url: String,
}

pub struct RequestPlanView {
    pub headers: Seq<(Seq<char>, Seq<char>)>,
    pub encryption: Encryption,
    pub text: Seq<char>,
    pub url: Seq<char>,
}

impl View for RequestPlan {
    type V = RequestPlanView;

    open spec fn view(&self) -> RequestPlanView {
        RequestPlanView {
            headers: self.headers@.map_values(|h: (String, String)| (h.0@, h.1@)),
            encryption: self.encryption,
            text: self.text@,
            url: self.url@,
        }
    }
}

/// The address that the Linux client API forwards from.
pub open spec fn linux_forward_url() -> Seq<char> {
    "https://music.163.com/api/linux/forward"@
}

/// The scheme that a `crypto` text selects: `linuxapi`, or else the web one.
pub open spec fn encryption_of(crypto: Seq<char>) -> Encryption {
    if crypto == "linuxapi"@ {
        Encryption::Linuxapi
    } else {
        Encryption::Weapi
    }
}

/// What the Linux client API encrypts: the method, the address with `weapi`
/// turned into `api`, and the parameters, as one JSON object.
pub open spec fn linux_text(method: Seq<char>, url: Seq<char>, params: Seq<char>) -> Seq<char> {
    "{\"method\":\""@ + method + "\",\"url\":\""@ + replace_text(url, "weapi"@, "api"@)
        + "\",\"params\":"@ + params + "}"@
}

/// The headers of a request: a form content type for a POST, the site as
/// referer for its own addresses, the text encoding, and the user agent.
pub open spec fn plan_headers(method_upper: Seq<char>, url: Seq<char>, agent: Seq<char>) -> Seq<
    (Seq<char>, Seq<char>),
> {
    let h1: Seq<(Seq<char>, Seq<char>)> = if method_upper == "POST"@ {
        seq![("content-type"@, "application/x-www-form-urlencoded"@)]
    } else {
        Seq::empty()
    };
    let h2: Seq<(Seq<char>, Seq<char>)> = if contains_text(url, "music.163.com"@) {
        seq![("referer"@, "https://music.163.com"@)]
    } else {
        Seq::empty()
    };
    h1 + h2 + seq![("content-encoding"@, "utf-8"@), ("user-agent"@, agent)]
}

/// The plan of a request, given the method in upper case and the user agent
/// chosen for it.
pub open spec fn plan_spec(
    method: Seq<char>,
    method_upper: Seq<char>,
    agent: Seq<char>,
    crypto: Seq<char>,
    url: Seq<char>,
    params: Seq<char>,
) -> RequestPlanView {
    if encryption_of(crypto) == Encryption::Linuxapi {
        RequestPlanView {
            headers: plan_headers(method_upper, url, LINUX_USER_AGENT@),
            encryption: Encryption::Linuxapi,
            text: linux_text(method, url, params),
            url: linux_forward_url(),
        }
    } else {
        RequestPlanView {
            headers: plan_headers(method_upper, url, agent),
            encryption: Encryption::Weapi,
            text: params,
            url: url,
        }
    }
}

fn header(name: &str, value: &str) -> (h: (String, String))
    ensures
        h.0@ == name@,
        h.1@ == value@,
{
    (name.to_owned(), value.to_owned())
}

/// Lays out a request, given the method in upper case and the user agent
/// that the web scheme is to claim.
pub fn plan_with_agent(
    method: &str,
    method_upper: &str,
    agent: &str,
    crypto: &str,
    url: &str,
    params: &str,
) -> (p: RequestPlan)
    ensures
        p@ == plan_spec(method@, method_upper@, agent@, crypto@, url@, params@),
{
    let linux = str_eq(crypto, "linuxapi");
    let mut headers: Vec<(String, String)> = Vec::new();
    if str_eq(method_upper, "POST") {
        headers.push(header("content-type", "application/x-www-form-urlencoded"));
    }
    if contains(url, "music.163.com") {
        headers.push(header("referer", "https://music.163.com"));
    }
    headers.push(header("content-encoding", "utf-8"));
    if linux {
        headers.push(header("user-agent", LINUX_USER_AGENT));
    } else {
        headers.push(header("user-agent", agent));
    }
    let ghost hv = headers@.map_values(|h: (String, String)| (h.0@, h.1@));
    assert(hv == plan_headers(method_upper@, url@, if linux { LINUX_USER_AGENT@ } else { agent@ }));
    if linux {
        proof {
            reveal_strlit("weapi");
        }
        let mut text = "{\"method\":\"".to_owned();
        text.append(method);
        text.append("\",\"url\":\"");
        let short = replace(url, "weapi", "api");
        text.append(short.as_str());
        text.append("\",\"params\":");
        text.append(params);
        text.append("}");
        RequestPlan {
            headers,
            encryption: Encryption::Linuxapi,
            text,
            url: "https://music.163.com/api/linux/forward".to_owned(),
        }
    } else {
        RequestPlan { headers, encryption: Encryption::Weapi, text: params.to_owned(), url: url.to_owned() }
    }
}

/// The name for what `str::to_uppercase` gives.
pub uninterp spec fn upper_case(s: Seq<char>) -> Seq<char>;

/// A text with each of `a` to `z` turned into `A` to `Z` and every other
/// character kept.
pub open spec fn ascii_upper(s: Seq<char>) -> Seq<char> {
    Seq::new(
        s.len(),
        |i: int| if 'a' <= s[i] <= 'z' { ((s[i] as int) - 32) as char } else { s[i] },
    )
}

/// `str::to_uppercase`: the text with every character in upper case, by the
/// Unicode rules. On an ASCII text that is `a` to `z` turned into `A` to `Z`
/// and every other character kept; beyond ASCII the rules are not stated here.
#[verifier::external_body]
fn to_upper(s: &str) -> (r: String)
    ensures
        r@ == upper_case(s@),
        vstd::utf8::is_ascii_chars(s@) ==> r@ == ascii_upper(s@),
{
    s.to_uppercase()
}

/// Lays out a request: the method is compared in upper case, and the web
/// scheme claims a user agent picked at random for `ua`.
pub fn plan_request(method: &str, ua: &str, crypto: &str, url: &str, params: &str) -> (p:
    RequestPlan)
    ensures
        vstd::utf8::is_ascii_chars(method@) ==> upper_case(method@) == ascii_upper(method@),
        crypto@ == "linuxapi"@ ==> p@ == plan_spec(
            method@,
            upper_case(method@),
            LINUX_USER_AGENT@,
            crypto@,
            url@,
            params@,
        ),
        exists|i: int|
            agent_range(ua@).0 <= i < agent_range(ua@).1 && p@ == plan_spec(
                method@,
                upper_case(method@),
                USER_AGENT_LIST[i]@,
                crypto@,
                url@,
                params@,
            ),
{
    let upper = to_upper(method);
    let agent = if str_eq(crypto, "linuxapi") { LINUX_USER_AGENT } else { choose_user_agent(ua) };
    plan_with_agent(method, upper.as_str(), agent, crypto, url, params)
}

/// The body of a planned request: its text encrypted by the plan's scheme
/// (the web one under a secret key drawn at random); `None` where OpenSSL
/// fails.
pub fn request_body(plan: &RequestPlan) -> (r: Option<String>)
    ensures
        plan.encryption == Encryption::Linuxapi ==> (r matches Some(b) ==> b@ == linuxapi_body(
            plan.text@,
        )),
        plan.encryption == Encryption::Weapi ==> (r matches Some(b) ==> exists|random: Seq<u8>|
            random.len() == 16 && b@ == weapi_body(plan.text@, secret_key_of(random))),
{
    match plan.encryption {
        Encryption::Linuxapi => linuxapi(plan.text.as_str()),
        Encryption::Weapi => weapi(plan.text.as_str()),
    }
}

} // verus!
