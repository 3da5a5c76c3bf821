//! The data model of the target manifest: one rule per site, each with
//! exactly one way of detecting that a username is not taken.
use vstd::prelude::*;
use std::sync::Arc;
use crate::text::{contains_seq, str_contains};

verus! {

/// All targets of a manifest, by site name. Site names are unique (see `wf`).
#[derive(Debug, Clone)]
pub struct SherlockTargetManifest {
    pub schema: String,
    pub targets: Vec<(String, TargetInfo)>,
}

/// Whether a target takes part in a check: NSFW targets only where they are
/// included, and only the listed sites where a list is given.
pub open spec fn selected(site: Seq<char>, info: TargetInfo, include_nsfw: bool, site_list: Seq<Seq<char>>) -> bool {
    &&& (include_nsfw || info.is_nsfw != Some(true))
    &&& (site_list.len() == 0 || site_list.contains(site))
}

/// The targets that take part in a check, in manifest order.
pub open spec fn selection(
    targets: Seq<(String, TargetInfo)>,
    include_nsfw: bool,
    site_list: Seq<Seq<char>>,
) -> Seq<(String, TargetInfo)>
    decreases targets.len(),
{
    if targets.len() == 0 {
        Seq::empty()
    } else {
        let t = targets.last();
        selection(targets.drop_last(), include_nsfw, site_list) + if selected(t.0@, t.1, include_nsfw, site_list) {
            seq![t]
        } else {
            Seq::empty()
        }
    }
}

/// The views of a list of strings.
pub open spec fn views(v: Seq<String>) -> Seq<Seq<char>> {
    v.map_values(|s: String| s@)
}

fn listed(site_list: &Vec<String>, site: &String) -> (r: bool)
    ensures
        r == site_list@.map_values(|s: String| s@).contains(site@),
{
    let ghost names = site_list@.map_values(|s: String| s@);
    let mut i: usize = 0;
    while i < site_list.len()
        invariant
            i <= site_list@.len(),
            names == site_list@.map_values(|s: String| s@),
            forall|j: int| 0 <= j < i ==> names[j] != site@,
        decreases site_list@.len() - i,
    {
        if site_list[i] == *site {
            assert(names[i as int] == site@);
            return true;
        }
        i = i + 1;
    }
    false
}

impl SherlockTargetManifest {
    /// No two targets share a site name.
    pub open spec fn wf(&self) -> bool {
        forall|i: int, j: int|
            0 <= i < self.targets@.len() && 0 <= j < self.targets@.len() && i != j
                ==> #[trigger] self.targets@[i].0@ != #[trigger] self.targets@[j].0@
    }

    /// The targets of a check, each shared behind an `Arc`: NSFW targets
    /// only where `include_nsfw`, and, where `site_list` is not empty, only
    /// the sites it names.
    pub fn select(self, include_nsfw: bool, site_list: &Vec<String>) -> (r: Vec<(String, Arc<TargetInfo>)>)
        ensures
            r@.len() == selection(self.targets@, include_nsfw, views(site_list@)).len(),
            forall|i: int| 0 <= i < r@.len()
                ==> (#[trigger] r@[i]).0 == selection(self.targets@, include_nsfw, views(site_list@))[i].0
                && *r@[i].1 == selection(self.targets@, include_nsfw, views(site_list@))[i].1,
    {
        let ghost names = views(site_list@);
        let ghost all = self.targets@;
        let mut out: Vec<(String, Arc<TargetInfo>)> = Vec::new();
        for entry in it: self.targets.into_iter()
            invariant
                it.seq() == all,
                names == views(site_list@),
                out@.len() == selection(all.subrange(0, it.index() as int), include_nsfw, names).len(),
                forall|i: int| 0 <= i < out@.len()
                    ==> (#[trigger] out@[i]).0 == selection(all.subrange(0, it.index() as int), include_nsfw, names)[i].0
                    && *out@[i].1 == selection(all.subrange(0, it.index() as int), include_nsfw, names)[i].1,
        {
            let ghost k = it.index() as int;
            proof {
                assert(all.subrange(0, k + 1).drop_last() =~= all.subrange(0, k));
                assert(all.subrange(0, k + 1).last() == entry);
            }
            let (site, info) = entry;
            let nsfw_ok = include_nsfw || !matches!(info.is_nsfw, Some(true));
            let list_ok = site_list.len() == 0 || listed(site_list, &site);
            if nsfw_ok && list_ok {
                out.push((site, Arc::new(info)));
            }
        }
        proof {
            assert(all.subrange(0, all.len() as int) =~= all);
        }
        out
    }
}

/// One target site.
#[derive(Debug, Clone)]
pub struct TargetInfo {
    /// Profile URL template, with the username placeholder.
    pub url: String,
    pub url_main: String,
    /// Template of a separate URL used for probing, when the profile page is
    /// not where existence shows.
    pub url_probe: Option<String>,
    pub username_claimed: String,
    /// Pattern that a username must match to be valid on the site.
    pub regex_check: Option<String>,
    pub is_nsfw: Option<bool>,
    /// Extra request headers, as name/value pairs.
    pub headers: Option<Vec<(String, String)>>,
    /// Request body template, as JSON text.
    pub request_payload: Option<String>,
    pub __comment__: Option<String>,
    pub tags: Option<Tags>,
    pub request_method: Option<RequestMethod>,
    pub error_type: ErrorType,
}

/// How a site shows that a username is not taken.
#[derive(Debug, Clone)]
pub enum ErrorType {
    /// One of these messages appears in the response body.
    Message { msg: ErrorMsg },
    /// The site redirects to a generic page; a successful final status means
    /// the profile exists.
    ResponseUrl { url: String },
    /// The response status is one of the codes, or, when none are given,
    /// lies outside 200 to 399.
    StatusCode { codes: Option<ErrorCode> },
}

#[derive(Debug, Clone)]
pub enum Tags {
    Single(String),
    Multiple(Vec<String>),
}

#[derive(Debug, Clone, Copy, PartialEq, Eq, Structural)]
pub enum RequestMethod {
    Get,
    Post,
    Head,
    Put,
}

#[derive(Debug, Clone)]
pub enum ErrorMsg {
    Single(String),
    Multiple(Vec<String>),
}

/// The messages of a list, each followed by `", "`.
pub open spec fn listing(msgs: Seq<Seq<char>>) -> Seq<char>
    decreases msgs.len(),
{
    if msgs.len() == 0 {
        Seq::empty()
    } else {
        listing(msgs.drop_last()) + msgs.last() + seq![',', ' ']
    }
}

impl ErrorMsg {
    /// The messages, in order.
    pub open spec fn messages(&self) -> Seq<Seq<char>> {
        match self {
            ErrorMsg::Single(m) => seq![m@],
            ErrorMsg::Multiple(ms) => ms@.map_values(|m: String| m@),
        }
    }

    /// Whether some message occurs in `text`.
    pub open spec fn found_in(&self, text: Seq<char>) -> bool {
        exists|i: int| 0 <= i < self.messages().len() && contains_seq(text, #[trigger] self.messages()[i])
    }

    /// True iff one of the messages occurs in `text` (case-sensitive).
    pub fn is_in(&self, text: &str) -> (r: bool)
        ensures
            r == self.found_in(text@),
    {
        match self {
            ErrorMsg::Single(msg) => {
                let r = str_contains(text, msg.as_str());
                proof {
                    if r {
                        assert(contains_seq(text@, self.messages()[0]));
                    }
                }
                r
            },
            ErrorMsg::Multiple(msgs) => {
                let mut i: usize = 0;
                while i < msgs.len()
                    invariant
                        i <= msgs@.len(),
                        self.messages() == msgs@.map_values(|m: String| m@),
                        forall|j: int| 0 <= j < i ==> !contains_seq(text@, #[trigger] self.messages()[j]),
                    decreases msgs@.len() - i,
                {
                    if str_contains(text, msgs[i].as_str()) {
                        assert(contains_seq(text@, self.messages()[i as int]));
                        return true;
                    }
                    i = i + 1;
                }
                false
            },
        }
    }

    /// The messages as shown in diagnostics: a single message as it is, a
    /// list with each message followed by `", "`.
    pub fn describe(&self) -> (r: String)
        ensures
            r@ == match self {
                ErrorMsg::Single(m) => m@,
                ErrorMsg::Multiple(_) => listing(self.messages()),
            },
    {
        match self {
            ErrorMsg::Single(msg) => msg.clone(),
            ErrorMsg::Multiple(msgs) => {
                let mut out = String::new();
                let sep = ", ";
                proof {
                    reveal_strlit(", ");
                }
                let mut i: usize = 0;
                while i < msgs.len()
                    invariant
                        i <= msgs@.len(),
                        self.messages() == msgs@.map_values(|m: String| m@),
                        sep@ == seq![',', ' '],
                        out@ == listing(self.messages().subrange(0, i as int)),
                    decreases msgs@.len() - i,
                {
                    proof {
                        let s = self.messages().subrange(0, i as int + 1);
                        assert(s.drop_last() =~= self.messages().subrange(0, i as int));
                    }
                    out.append(msgs[i].as_str());
                    out.append(sep);
                    i = i + 1;
                }
                assert(self.messages().subrange(0, msgs@.len() as int) =~= self.messages());
                out
            },
        }
    }
}

#[derive(Debug, Clone)]
pub enum ErrorCode {
    Single(u16),
    Multiple(Vec<u16>),
}

impl ErrorCode {
    /// The codes, in order.
    pub open spec fn codes(&self) -> Seq<u16> {
        match self {
            ErrorCode::Single(c) => seq![*c],
            ErrorCode::Multiple(cs) => cs@,
        }
    }

    pub fn contains(&self, code: &u16) -> (r: bool)
        ensures
            r == self.codes().contains(*code),
    {
        match self {
            ErrorCode::Single(c) => {
                proof {
                    if *c == *code {
                        assert(self.codes()[0] == *code);
                    }
                }
                *c == *code
            },
            ErrorCode::Multiple(codes) => {
                let mut i: usize = 0;
                while i < codes.len()
                    invariant
                        i <= codes@.len(),
                        self.codes() == codes@,
                        forall|j: int| 0 <= j < i ==> codes@[j] != *code,
                    decreases codes@.len() - i,
                {
                    if codes[i] == *code {
                        assert(codes@[i as int] == *code);
                        return true;
                    }
                    i = i + 1;
                }
                false
            },
        }
    }
}

} // verus!
