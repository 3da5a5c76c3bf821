//! What one probe sends: the request that the network layer performs.
use vstd::prelude::*;
use vstd::string::StringExecFns;
use rand::seq::SliceRandom;
use crate::sherlock_target_manifest::RequestMethod;

verus! {

/// Redirect hops followed, where a site's rule lets redirects be followed.
pub const MAX_REDIRECTS: usize = 5;

/// Browser user agents that probes present, one picked per request.
pub open spec fn agent_pool() -> Seq<Seq<char>> {
    seq![
        "Mozilla/5.0 (Windows NT 10.0; Win64; x64) AppleWebKit/537.36 (KHTML, like Gecko) Chrome/114.0.0.0 Safari/537.36"@,
        "Mozilla/5.0 (Windows NT 10.0; Win64; x64; rv:115.0) Gecko/20100101 Firefox/115.0"@,
        "Mozilla/5.0 (Windows NT 10.0; Win64; x64) AppleWebKit/537.36 (KHTML, like Gecko) Chrome/114.0.0.0 Safari/537.36 Edg/114.0.1823.67"@,
        "Mozilla/5.0 (Macintosh; Intel Mac OS X 12_0_1) AppleWebKit/605.1.15 (KHTML, like Gecko) Version/15.1 Safari/605.1.15"@,
        "Mozilla/5.0 (Macintosh; Intel Mac OS X 12_0_1) AppleWebKit/537.36 (KHTML, like Gecko) Chrome/114.0.0.0 Safari/537.36"@,
        "Mozilla/5.0 (Macintosh; Intel Mac OS X 12.0; rv:115.0) Gecko/20100101 Firefox/115.0"@,
        "Mozilla/5.0 (X11; Ubuntu; Linux x86_64) AppleWebKit/537.36 (KHTML, like Gecko) Chrome/114.0.0.0 Safari/537.36"@,
        "Mozilla/5.0 (X11; Linux x86_64; rv:109.0) Gecko/20100101 Firefox/116.0"@,
    ]
}

/// The user agents of the pool, in order.
pub fn user_agents() -> (r: Vec<String>)
    ensures
        r@.map_values(|s: String| s@) == agent_pool(),
{
    let r = vec![
        String::from_str("Mozilla/5.0 (Windows NT 10.0; Win64; x64) AppleWebKit/537.36 (KHTML, like Gecko) Chrome/114.0.0.0 Safari/537.36"),
        String::from_str("Mozilla/5.0 (Windows NT 10.0; Win64; x64; rv:115.0) Gecko/20100101 Firefox/115.0"),
        String::from_str("Mozilla/5.0 (Windows NT 10.0; Win64; x64) AppleWebKit/537.36 (KHTML, like Gecko) Chrome/114.0.0.0 Safari/537.36 Edg/114.0.1823.67"),
        String::from_str("Mozilla/5.0 (Macintosh; Intel Mac OS X 12_0_1) AppleWebKit/605.1.15 (KHTML, like Gecko) Version/15.1 Safari/605.1.15"),
        String::from_str("Mozilla/5.0 (Macintosh; Intel Mac OS X 12_0_1) AppleWebKit/537.36 (KHTML, like Gecko) Chrome/114.0.0.0 Safari/537.36"),
        String::from_str("Mozilla/5.0 (Macintosh; Intel Mac OS X 12.0; rv:115.0) Gecko/20100101 Firefox/115.0"),
        String::from_str("Mozilla/5.0 (X11; Ubuntu; Linux x86_64) AppleWebKit/537.36 (KHTML, like Gecko) Chrome/114.0.0.0 Safari/537.36"),
        String::from_str("Mozilla/5.0 (X11; Linux x86_64; rv:109.0) Gecko/20100101 Firefox/116.0"),
    ];
    assert(r@.map_values(|s: String| s@) =~= agent_pool());
    r
}

/// Relies on `rand::seq::SliceRandom::choose` with the thread-local
/// generator: `None` exactly for an empty slice, else one of its elements.
#[verifier::external_body]
fn choose_agent(pool: &[String]) -> (r: Option<&String>)
    ensures
        r is None <==> pool@.len() == 0,
        r matches Some(a) ==> pool@.contains(*a),
{
    pool.choose(&mut rand::thread_rng())
}

/// The user agent of a request: the override where one is given, else one
/// of the pool, picked at random.
pub fn pick_user_agent(user_agent: Option<String>) -> (r: String)
    ensures
        match user_agent {
            Some(u) => r == u,
            None => agent_pool().contains(r@),
        },
{
    match user_agent {
        Some(u) => u,
        None => {
            let pool = user_agents();
            let ghost views = pool@.map_values(|s: String| s@);
            assert(pool@.len() == 8) by {
                assert(views.len() == agent_pool().len());
            }
            let chosen = choose_agent(pool.as_slice());
            match chosen {
                Some(a) => {
                    let r = a.clone();
                    proof {
                        let i = choose|i: int| 0 <= i < pool@.len() && pool@[i] == *a;
                        assert(views[i] == r@);
                    }
                    r
                },
                None => {
                    assert(false);
                    String::new()
                },
            }
        },
    }
}

/// One HTTP request of a probe, fully resolved.
#[derive(Debug, Clone)]
pub struct ProbeRequest {
    /// The URL probed.
    pub url: String,
    pub method: RequestMethod,
    /// Whether redirects are followed, up to `MAX_REDIRECTS` hops.
    pub follow_redirects: bool,
    /// Headers of the site's rule, sent besides the user agent.
    pub headers: Vec<(String, String)>,
    /// Request body (JSON text), where the rule has a payload.
    pub body: Option<String>,
    pub user_agent: String,
}

} // verus!
