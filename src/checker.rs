//! Checking one username against every target: the plan of each site's
//! probe, and the collection of the probes' outcomes into results.
use vstd::prelude::*;
use std::sync::Arc;
use std::time::Duration;
use crate::interpolate::{interpolated, Interpolatable};
use crate::pattern::{check_pattern, pattern_check, PatternCheck};
use crate::query::{describes, outcome_verdict, to_query_result, QueryError, QueryResult, QueryStatus, RequestResult};
use crate::requests::{agent_pool, pick_user_agent, ProbeRequest};
use crate::sherlock_target_manifest::{ErrorType, RequestMethod, TargetInfo};
use crate::text::{replace_seq, str_replace};

verus! {

/// Options of one check.
#[derive(Debug)]
pub struct CheckOptions {
    /// Time allowed to each probe.
    pub timeout: Duration,
    /// Proxy through which every probe of the run goes.
    pub proxy: Option<Arc<str>>,
    /// Echo every result as it arrives.
    pub print_all: bool,
    /// Echo the Claimed results as they arrive.
    pub print_found: bool,
    /// Dump each response in full.
    pub dump_response: bool,
    /// Open the profile of each Claimed result in a browser.
    pub browse: bool,
}


/// Why a check could not start.
#[derive(Debug, Clone, Copy, PartialEq, Eq, Structural)]
pub enum CheckError {
    /// The manifest handed over holds no target.
    NoSites,
}

impl CheckError {
    pub fn message(&self) -> (r: &'static str)
        ensures
            r@ == "No sites to check"@,
    {
        "No sites to check"
    }
}

/// The username as it is put into URLs: each space becomes `%20`.
pub open spec fn encoded(username: Seq<char>) -> Seq<char> {
    replace_seq(username, seq![' '], seq!['%', '2', '0'])
}

/// The template of the URL that a probe requests: the dedicated probe URL
/// where the site has one, else the profile URL.
pub open spec fn probe_template(info: TargetInfo) -> Seq<char> {
    match info.url_probe {
        Some(p) => p@,
        None => info.url@,
    }
}

/// The request method of a site's probe: the rule's own where it names one;
/// else HEAD for a status-code rule, whose body is not read, and GET for the
/// others.
pub open spec fn method_of(info: TargetInfo) -> RequestMethod {
    match info.request_method {
        Some(m) => m,
        None => match info.error_type {
            ErrorType::StatusCode { .. } => RequestMethod::Head,
            _ => RequestMethod::Get,
        },
    }
}

/// Whether a site's probe follows redirects: not for a response-URL rule,
/// where the landing status itself is the signal.
pub open spec fn follows_redirects(rule: ErrorType) -> bool {
    !(rule is ResponseUrl)
}

/// `req` carries what the rule `info` asks of a request for `username`:
/// method, redirect policy, interpolated headers and body, and a user agent
/// of the pool.
pub open spec fn request_fields(username: Seq<char>, info: TargetInfo, req: ProbeRequest) -> bool {
    &&& req.method == method_of(info)
    &&& req.follow_redirects == follows_redirects(info.error_type)
    &&& match info.headers {
        None => req.headers@.len() == 0,
        Some(h) => h.interpolates_to(username, &req.headers),
    }
    &&& match info.request_payload {
        None => req.body is None,
        Some(t) => req.body is Some && req.body->0@ == interpolated(t@, username),
    }
    &&& agent_pool().contains(req.user_agent@)
}

/// `req` is the request that probes `info` for `username`.
pub open spec fn requests(username: Seq<char>, info: TargetInfo, req: ProbeRequest) -> bool {
    &&& req.url@ == interpolated(probe_template(info), encoded(username))
    &&& request_fields(username, info, req)
}

/// The plan of one site's probe.
#[derive(Debug)]
pub struct ProbePlan {
    pub site: String,
    pub info: Arc<TargetInfo>,
    /// The resolved profile URL.
    pub url: String,
    /// The resolved URL that is probed.
    pub url_probe: String,
    /// The request to send, or why none is sent.
    pub request: Result<ProbeRequest, QueryError>,
}

/// `p` is the plan of probing `site` (with rule `info`) for `username`: URLs
/// resolved with the encoded username; no request where the username fails
/// the site's pattern (`InvalidUsernameError`) or the pattern is broken
/// (`RegexError`); else the request of `requests`.
pub open spec fn plans(username: Seq<char>, site: String, info: Arc<TargetInfo>, p: ProbePlan) -> bool {
    &&& p.site == site
    &&& p.info == info
    &&& p.url@ == interpolated(info.url@, encoded(username))
    &&& p.url_probe@ == interpolated(probe_template(*info), encoded(username))
    &&& match pattern_check(info.regex_check, username) {
        PatternCheck::Admitted => p.request is Ok && requests(username, *info, p.request->Ok_0),
        PatternCheck::Rejected => p.request == Err::<ProbeRequest, QueryError>(QueryError::InvalidUsernameError),
        PatternCheck::Broken => p.request matches Err(QueryError::RegexError(_)),
    }
}

pub fn encode_username(username: &str) -> (r: String)
    ensures
        r@ == encoded(username@),
{
    let space = " ";
    let escape = "%20";
    proof {
        reveal_strlit(" ");
        reveal_strlit("%20");
        assert(space@ =~= seq![' ']);
        assert(escape@ =~= seq!['%', '2', '0']);
    }
    str_replace(username, space, escape)
}

pub fn request_method(info: &TargetInfo) -> (r: RequestMethod)
    ensures
        r == method_of(*info),
{
    match info.request_method {
        Some(m) => m,
        None => match info.error_type {
            ErrorType::StatusCode { .. } => RequestMethod::Head,
            _ => RequestMethod::Get,
        },
    }
}

/// The request to `url_probe` that probes a site for a username, or why
/// none is sent.
pub fn check_user_at_site(username: &str, url_probe: &String, info: &TargetInfo) -> (r: Result<ProbeRequest, QueryError>)
    ensures
        match pattern_check(info.regex_check, username@) {
            PatternCheck::Admitted => r is Ok && r->Ok_0.url == *url_probe && request_fields(username@, *info, r->Ok_0),
            PatternCheck::Rejected => r == Err::<ProbeRequest, QueryError>(QueryError::InvalidUsernameError),
            PatternCheck::Broken => r matches Err(QueryError::RegexError(_)),
        },
{
    let body = match &info.request_payload {
        Some(payload) => Some(payload.interpolate(username)),
        None => None,
    };
    match check_pattern(&info.regex_check, username) {
        Err(e) => return Err(e),
        Ok(()) => {},
    }
    let follow_redirects = match info.error_type {
        ErrorType::ResponseUrl { .. } => false,
        _ => true,
    };
    let headers = match &info.headers {
        Some(h) => h.interpolate(username),
        None => Vec::new(),
    };
    Ok(ProbeRequest {
        url: url_probe.clone(),
        method: request_method(info),
        follow_redirects,
        headers,
        body,
        user_agent: pick_user_agent(None),
    })
}

/// Plans the probe of one site.
pub fn plan_probe(username: &str, site: String, info: Arc<TargetInfo>) -> (p: ProbePlan)
    ensures
        plans(username@, site, info, p),
{
    let encoded_username = encode_username(username);
    let url = info.url.interpolate(encoded_username.as_str());
    let url_probe = match &info.url_probe {
        Some(probe) => probe.interpolate(encoded_username.as_str()),
        None => info.url.interpolate(encoded_username.as_str()),
    };
    let request = check_user_at_site(username, &url_probe, &info);
    ProbePlan { site, info, url, url_probe, request }
}

/// Plans the probes of every target: one plan per target, in the order
/// given. An empty set of targets is a configuration error.
pub fn plan_checks(username: &str, site_data: Vec<(String, Arc<TargetInfo>)>) -> (r: Result<Vec<ProbePlan>, CheckError>)
    ensures
        site_data@.len() == 0 <==> r is Err,
        r matches Err(e) ==> e == CheckError::NoSites,
        r matches Ok(ps) ==> ps@.len() == site_data@.len() && forall|i: int|
            0 <= i < ps@.len() ==> plans(username@, site_data@[i].0, site_data@[i].1, #[trigger] ps@[i]),
{
    if site_data.len() == 0 {
        return Err(CheckError::NoSites);
    }
    let ghost targets = site_data@;
    let mut out: Vec<ProbePlan> = Vec::new();
    for entry in it: site_data.into_iter()
        invariant
            it.seq() == targets,
            out@.len() == it.index(),
            forall|j: int| 0 <= j < out@.len() ==> plans(username@, targets[j].0, targets[j].1, #[trigger] out@[j]),
    {
        let (site, info) = entry;
        out.push(plan_probe(username, site, info));
    }
    Ok(out)
}

/// Collects probe outcomes, one at a time and in any order, into results.
pub struct Aggregator {
    results: Vec<QueryResult>,
}

impl Aggregator {
    /// The results so far, in order of arrival.
    pub closed spec fn results(&self) -> Seq<QueryResult> {
        self.results@
    }

    pub fn new() -> (r: Aggregator)
        ensures
            r.results().len() == 0,
    {
        Aggregator { results: Vec::new() }
    }

    /// Classifies an outcome and keeps its result.
    pub fn receive(&mut self, outcome: RequestResult) -> (status: QueryStatus)
        ensures
            final(self).results().len() == old(self).results().len() + 1,
            final(self).results().drop_last() == old(self).results(),
            describes(outcome, final(self).results().last()),
            status == final(self).results().last().status,
    {
        let q = to_query_result(outcome);
        let status = q.status;
        self.results.push(q);
        proof {
            assert(self.results@.drop_last() =~= old(self).results@);
        }
        status
    }

    /// The result that arrived last.
    pub fn latest(&self) -> (r: Option<&QueryResult>)
        ensures
            self.results().len() == 0 <==> r is None,
            r matches Some(q) ==> *q == self.results().last(),
    {
        if self.results.len() == 0 {
            None
        } else {
            Some(&self.results[self.results.len() - 1])
        }
    }

    pub fn len(&self) -> (r: usize)
        ensures
            r == self.results().len(),
    {
        self.results.len()
    }

    pub fn into_results(self) -> (r: Vec<QueryResult>)
        ensures
            r@ == self.results(),
    {
        self.results
    }
}

/// Classifies every outcome, keeping the order of arrival: one result per
/// outcome.
pub fn collect_results(arrivals: Vec<RequestResult>) -> (r: Vec<QueryResult>)
    ensures
        r@.len() == arrivals@.len(),
        forall|i: int| 0 <= i < r@.len() ==> describes(arrivals@[i], #[trigger] r@[i]),
{
    let ghost seen = arrivals@;
    let mut agg = Aggregator::new();
    for outcome in it: arrivals.into_iter()
        invariant
            it.seq() == seen,
            agg.results().len() == it.index(),
            forall|j: int| 0 <= j < agg.results().len() ==> describes(seen[j], #[trigger] agg.results()[j]),
    {
        let ghost before = agg.results();
        agg.receive(outcome);
        proof {
            assert forall|j: int| 0 <= j < agg.results().len() implies describes(seen[j], #[trigger] agg.results()[j]) by {
                if j < before.len() {
                    assert(agg.results()[j] == agg.results().drop_last()[j]);
                }
            }
        }
    }
    agg.into_results()
}

/// Whether a result is echoed as it arrives: every result under
/// `print_all`, the Claimed ones under `print_found`.
pub fn should_print(options: &CheckOptions, status: QueryStatus) -> (r: bool)
    ensures
        r == (options.print_all || (options.print_found && status == QueryStatus::Claimed)),
{
    options.print_all || (options.print_found && status == QueryStatus::Claimed)
}

/// Whether a result's profile is opened in a browser: a Claimed result
/// under `browse`.
pub fn should_browse(options: &CheckOptions, status: QueryStatus) -> (r: bool)
    ensures
        r == (options.browse && status == QueryStatus::Claimed),
{
    options.browse && status == QueryStatus::Claimed
}

/// `r` is the outcome delivered for plan `p`: it names the plan's site and
/// URLs, and where the plan sends no request it carries the plan's reason.
pub open spec fn delivers(p: ProbePlan, r: RequestResult) -> bool {
    &&& r.site == p.site
    &&& r.info == p.info
    &&& r.url == p.url
    &&& r.url_probe == p.url_probe
    &&& (p.request matches Err(e) ==> r.response == Err::<crate::query::HttpReply, QueryError>(e))
}

/// A username that fails a site's validity pattern is never sent to the
/// site: its plan holds no request, and the site's verdict is Illegal.
pub proof fn lemma_rejected_username_is_illegal(
    username: Seq<char>,
    site: String,
    info: Arc<TargetInfo>,
    p: ProbePlan,
    r: RequestResult,
    q: QueryResult,
)
    requires
        plans(username, site, info, p),
        pattern_check(info.regex_check, username) is Rejected,
        delivers(p, r),
        describes(r, q),
    ensures
        p.request is Err,
        q.status == QueryStatus::Illegal,
        q.http_status is None,
{
}

/// Mapping keeps two sequences' items equal as multisets.
proof fn lemma_map_keeps_permutation<A, B>(a: Seq<A>, b: Seq<A>, f: spec_fn(A) -> B)
    requires
        a.to_multiset() == b.to_multiset(),
    ensures
        a.map_values(f).to_multiset() == b.map_values(f).to_multiset(),
    decreases a.len(),
{
    broadcast use vstd::seq_lib::group_to_multiset_ensures;
    if a.len() == 0 {
        assert(a.len() == a.to_multiset().len());
        assert(b.len() == b.to_multiset().len());
        assert(a.map_values(f) =~= Seq::<B>::empty());
        assert(b.map_values(f) =~= Seq::<B>::empty());
    } else {
        let x = a.last();
        let a1 = a.drop_last();
        assert(a1.push(x) =~= a);
        assert(a.contains(x));
        assert(b.to_multiset().count(x) > 0);
        assert(b.contains(x));
        let j = choose|j: int| 0 <= j < b.len() && b[j] == x;
        let b1 = b.remove(j);
        assert(a1.to_multiset() =~= b1.to_multiset());
        lemma_map_keeps_permutation(a1, b1, f);
        let am = a.map_values(f);
        let bm = b.map_values(f);
        assert(a1.map_values(f).push(f(x)) =~= am);
        assert(bm.remove(j) =~= b1.map_values(f));
        assert(bm.to_multiset() =~= b1.map_values(f).to_multiset().insert(f(x))) by {
            assert(bm.remove(j).to_multiset() == bm.to_multiset().remove(bm[j]));
            assert(bm.contains(bm[j]));
        }
    }
}

/// Whatever order the probes complete in, collecting their outcomes gives
/// one result per outcome, and the results carry, site by site, the verdict
/// of that site's own outcome: as multisets of (site, verdict) pairs, the
/// results equal the outcomes as produced.
pub proof fn lemma_collection_order_independent(
    produced: Seq<RequestResult>,
    arrivals: Seq<RequestResult>,
    results: Seq<QueryResult>,
)
    requires
        arrivals.to_multiset() == produced.to_multiset(),
        results.len() == arrivals.len(),
        forall|i: int| 0 <= i < results.len() ==> describes(arrivals[i], #[trigger] results[i]),
    ensures
        results.len() == produced.len(),
        results.map_values(|q: QueryResult| (q.site_name@, q.status)).to_multiset()
            == produced.map_values(
            |r: RequestResult| (r.site@, outcome_verdict(r.info.error_type, r.response)),
        ).to_multiset(),
{
    broadcast use vstd::seq_lib::group_to_multiset_ensures;
    let h = |r: RequestResult| (r.site@, outcome_verdict(r.info.error_type, r.response));
    assert(results.map_values(|q: QueryResult| (q.site_name@, q.status)) =~= arrivals.map_values(h));
    lemma_map_keeps_permutation(arrivals, produced, h);
    assert(arrivals.len() == arrivals.to_multiset().len());
    assert(produced.len() == produced.to_multiset().len());
}

/// The site names of a sequence of results.
pub open spec fn result_sites(results: Seq<QueryResult>) -> Seq<Seq<char>> {
    results.map_values(|q: QueryResult| q.site_name@)
}

/// Checking a username against a manifest of distinct sites gives exactly
/// one result per site, in whatever order the probes complete.
pub proof fn lemma_one_result_per_site(
    username: Seq<char>,
    targets: Seq<(String, Arc<TargetInfo>)>,
    plan: Seq<ProbePlan>,
    produced: Seq<RequestResult>,
    arrivals: Seq<RequestResult>,
    results: Seq<QueryResult>,
)
    requires
        forall|i: int, j: int|
            0 <= i < targets.len() && 0 <= j < targets.len() && i != j
                ==> #[trigger] targets[i].0@ != #[trigger] targets[j].0@,
        plan.len() == targets.len(),
        forall|i: int| 0 <= i < plan.len() ==> plans(username, targets[i].0, targets[i].1, #[trigger] plan[i]),
        produced.len() == plan.len(),
        forall|i: int| 0 <= i < produced.len() ==> delivers(plan[i], #[trigger] produced[i]),
        arrivals.to_multiset() == produced.to_multiset(),
        results.len() == arrivals.len(),
        forall|i: int| 0 <= i < results.len() ==> describes(arrivals[i], #[trigger] results[i]),
    ensures
        results.len() == targets.len(),
        forall|i: int| 0 <= i < targets.len() ==> result_sites(results).to_multiset().count(#[trigger] targets[i].0@) == 1,
{
    broadcast use vstd::seq_lib::group_to_multiset_ensures;
    let names = targets.map_values(|t: (String, Arc<TargetInfo>)| t.0@);
    let site_of = |r: RequestResult| r.site@;
    assert(result_sites(results) =~= arrivals.map_values(site_of));
    assert(produced.map_values(site_of) =~= names);
    lemma_map_keeps_permutation(arrivals, produced, site_of);
    assert(names.no_duplicates());
    names.lemma_multiset_has_no_duplicates();
    assert forall|i: int| 0 <= i < targets.len() implies result_sites(results).to_multiset().count(#[trigger] targets[i].0@) == 1 by {
        assert(names[i] == targets[i].0@);
        assert(names.contains(names[i]));
    }
    assert(arrivals.len() == arrivals.to_multiset().len());
    assert(produced.len() == produced.to_multiset().len());
}

} // verus!
