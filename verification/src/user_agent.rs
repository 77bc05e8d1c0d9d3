//! The browsers a request can claim to come from.

use vstd::prelude::*;
use rand::Rng;

verus! {

/// The user agent of requests made through the Linux client API.
pub const LINUX_USER_AGENT: &'static str = "Mozilla/5.0 (X11; Linux x86_64) AppleWebKit/537.36 (KHTML, like Gecko) Chrome/60.0.3112.90 Safari/537.36";

/// User agents to pick from: mobile ones first, then desktop ones.
pub const USER_AGENT_LIST: [&'static str; 14] = [
    "Mozilla/5.0 (iPhone; CPU iPhone OS 9_1 like Mac OS X) AppleWebKit/601.1.46 (KHTML, like Gecko) Version/9.0 Mobile/13B143 Safari/601.1",
    "Mozilla/5.0 (iPhone; CPU iPhone OS 9_1 like Mac OS X) AppleWebKit/601.1.46 (KHTML, like Gecko) Version/9.0 Mobile/13B143 Safari/601.1",
    "Mozilla/5.0 (Linux; Android 5.0; SM-G900P Build/LRX21T) AppleWebKit/537.36 (KHTML, like Gecko) Chrome/59.0.3071.115 Mobile Safari/537.36",
    "Mozilla/5.0 (Linux; Android 6.0; Nexus 5 Build/MRA58N) AppleWebKit/537.36 (KHTML, like Gecko) Chrome/59.0.3071.115 Mobile Safari/537.36",
    "Mozilla/5.0 (Linux; Android 5.1.1; Nexus 6 Build/LYZ28E) AppleWebKit/537.36 (KHTML, like Gecko) Chrome/59.0.3071.115 Mobile Safari/537.36",
    "Mozilla/5.0 (iPhone; CPU iPhone OS 10_3_2 like Mac OS X) AppleWebKit/603.2.4 (KHTML, like Gecko) Mobile/14F89;GameHelper",
    "Mozilla/5.0 (iPhone; CPU iPhone OS 10_0 like Mac OS X) AppleWebKit/602.1.38 (KHTML, like Gecko) Version/10.0 Mobile/14A300 Safari/602.1",
    "Mozilla/5.0 (iPad; CPU OS 10_0 like Mac OS X) AppleWebKit/602.1.38 (KHTML, like Gecko) Version/10.0 Mobile/14A300 Safari/602.1",
    "Mozilla/5.0 (Macintosh; Intel Mac OS X 10.12; rv:46.0) Gecko/20100101 Firefox/46.0",
    "Mozilla/5.0 (Macintosh; Intel Mac OS X 10_12_5) AppleWebKit/537.36 (KHTML, like Gecko) Chrome/59.0.3071.115 Safari/537.36",
    "Mozilla/5.0 (Macintosh; Intel Mac OS X 10_12_5) AppleWebKit/603.2.4 (KHTML, like Gecko) Version/10.1.1 Safari/603.2.4",
    "Mozilla/5.0 (Windows NT 10.0; Win64; x64; rv:46.0) Gecko/20100101 Firefox/46.0",
    "Mozilla/5.0 (Windows NT 10.0; Win64; x64) AppleWebKit/537.36 (KHTML, like Gecko) Chrome/51.0.2704.103 Safari/537.36",
    "Mozilla/5.0 (Windows NT 10.0; Win64; x64) AppleWebKit/537.36 (KHTML, like Gecko) Chrome/42.0.2311.135 Safari/537.36 Edge/13.1058",
];

/// The indices to pick a user agent from, `lo..hi`, for the kind asked for:
/// `mobile`, `pc`, or any other text for the whole list.
pub open spec fn agent_range(ua: Seq<char>) -> (int, int) {
    if ua == "mobile"@ {
        (0, 7)
    } else if ua == "pc"@ {
        (8, 13)
    } else {
        (0, 14)
    }
}

/// The index range of `agent_range`, computed.
pub fn user_agent_range(ua: &str) -> (r: (usize, usize))
    ensures
        r.0 as int == agent_range(ua@).0,
        r.1 as int == agent_range(ua@).1,
{
    if crate::text::str_eq(ua, "mobile") {
        (0, 7)
    } else if crate::text::str_eq(ua, "pc") {
        (8, 13)
    } else {
        (0, 14)
    }
}

/// The user agent at `index` of the list.
pub fn user_agent_at(index: usize) -> (r: &'static str)
    requires
        index < 14,
    ensures
        r == USER_AGENT_LIST[index as int],
{
    USER_AGENT_LIST[index]
}

/// `rand::thread_rng().gen_range(low, high)`: some number of `low..high`,
/// drawn at random; which one is left open.
#[verifier::external_body]
fn random_below(low: usize, high: usize) -> (r: usize)
    requires
        low < high,
    ensures
        low <= r < high,
{
    rand::thread_rng().gen_range(low, high)
}

/// Picks a user agent at random from the range that `ua` asks for.
pub fn choose_user_agent(ua: &str) -> (r: &'static str)
    ensures
        exists|i: int|
            agent_range(ua@).0 <= i < agent_range(ua@).1 && r == USER_AGENT_LIST[i],
{
    let (lo, hi) = user_agent_range(ua);
    let i = random_below(lo, hi);
    user_agent_at(i)
}

} // verus!
