//! What the report of a check holds: which results it lists, where it is
//! written, and the message shown for each result. Writing and colouring
//! are the caller's.
use vstd::prelude::*;
use vstd::string::StringExecFns;
use crate::query::{QueryResult, QueryStatus};

verus! {

/// Options for saving results.
#[derive(Debug, Clone)]
pub struct SaveOptions {
    pub output_file: Option<String>,
    pub output_folder: Option<String>,
    pub csv: bool,
    pub xlsx: bool,
    pub print_all: bool,
    pub print_found: bool,
}

/// How many results are Claimed.
pub open spec fn claimed_count(results: Seq<QueryResult>) -> nat
    decreases results.len(),
{
    if results.len() == 0 {
        0
    } else {
        claimed_count(results.drop_last()) + if results.last().status == QueryStatus::Claimed { 1nat } else { 0nat }
    }
}

/// The profile URLs of the Claimed results, in order.
pub open spec fn claimed_urls_of(results: Seq<QueryResult>) -> Seq<Seq<char>>
    decreases results.len(),
{
    if results.len() == 0 {
        Seq::empty()
    } else {
        claimed_urls_of(results.drop_last()) + if results.last().status == QueryStatus::Claimed {
            seq![results.last().site_url_user@]
        } else {
            Seq::empty()
        }
    }
}

proof fn lemma_claimed_count_bounded(results: Seq<QueryResult>)
    ensures
        claimed_count(results) <= results.len(),
    decreases results.len(),
{
    if results.len() > 0 {
        lemma_claimed_count_bounded(results.drop_last());
    }
}

pub fn count_claimed(results: &[QueryResult]) -> (r: usize)
    ensures
        r == claimed_count(results@),
{
    let mut n: usize = 0;
    let mut i: usize = 0;
    while i < results.len()
        invariant
            i <= results@.len(),
            n == claimed_count(results@.subrange(0, i as int)),
        decreases results@.len() - i,
    {
        proof {
            assert(results@.subrange(0, i as int + 1).drop_last() =~= results@.subrange(0, i as int));
            lemma_claimed_count_bounded(results@.subrange(0, i as int));
        }
        if results[i].status == QueryStatus::Claimed {
            n = n + 1;
        }
        i = i + 1;
    }
    assert(results@.subrange(0, results@.len() as int) =~= results@);
    n
}

/// The profile URLs of the Claimed results, in order: the lines of the
/// text report.
pub fn claimed_urls(results: &[QueryResult]) -> (r: Vec<String>)
    ensures
        r@.map_values(|s: String| s@) == claimed_urls_of(results@),
{
    let mut urls: Vec<String> = Vec::new();
    let mut i: usize = 0;
    while i < results.len()
        invariant
            i <= results@.len(),
            urls@.map_values(|s: String| s@) == claimed_urls_of(results@.subrange(0, i as int)),
        decreases results@.len() - i,
    {
        let ghost before = urls@.map_values(|s: String| s@);
        proof {
            assert(results@.subrange(0, i as int + 1).drop_last() =~= results@.subrange(0, i as int));
        }
        if results[i].status == QueryStatus::Claimed {
            urls.push(results[i].site_url_user.clone());
            assert(urls@.map_values(|s: String| s@) =~= before + seq![results@[i as int].site_url_user@]);
        } else {
            assert(urls@.map_values(|s: String| s@) =~= before + Seq::<Seq<char>>::empty());
        }
        i = i + 1;
    }
    assert(results@.subrange(0, results@.len() as int) =~= results@);
    urls
}

/// Whether a result is listed in the CSV report: all results under
/// `print_all`; only the Claimed ones under `print_found` alone.
pub fn report_includes(print_all: bool, print_found: bool, status: QueryStatus) -> (r: bool)
    ensures
        r == !(print_found && !print_all && status != QueryStatus::Claimed),
{
    !(print_found && !print_all && status != QueryStatus::Claimed)
}

/// `folder/name.ext`, or `name.ext` without a folder.
pub open spec fn file_path(folder: Option<String>, name: Seq<char>, ext: Seq<char>) -> Seq<char> {
    match folder {
        Some(f) => f@ + seq!['/'] + name + ext,
        None => name + ext,
    }
}

fn join_path(folder: &Option<String>, name: &str, ext: &str) -> (r: String)
    ensures
        r@ == file_path(*folder, name@, ext@),
{
    let mut path = String::new();
    match folder {
        Some(f) => {
            let slash = "/";
            proof {
                reveal_strlit("/");
            }
            path.append(f.as_str());
            path.append(slash);
        },
        None => {},
    }
    path.append(name);
    path.append(ext);
    path
}

/// Where the text report of a username goes: the output file where one is
/// given, else `<username>.txt`, in the output folder where one is given.
pub fn output_file_path(username: &str, options: &SaveOptions) -> (r: String)
    ensures
        r@ == match options.output_file {
            Some(f) => f@,
            None => file_path(options.output_folder, username@, ".txt"@),
        },
{
    match &options.output_file {
        Some(f) => f.clone(),
        None => join_path(&options.output_folder, username, ".txt"),
    }
}

/// Where the CSV report of a username goes: `<username>.csv`, in the output
/// folder where one is given.
pub fn csv_file_path(username: &str, output_folder: &Option<String>) -> (r: String)
    ensures
        r@ == file_path(*output_folder, username@, ".csv"@),
{
    join_path(output_folder, username, ".csv")
}

/// The message shown beside a result's site name.
pub open spec fn message_of(result: QueryResult) -> Seq<char> {
    match result.status {
        QueryStatus::Claimed => result.site_url_user@,
        QueryStatus::Available => "Not Found!"@,
        QueryStatus::Unknown => match result.context {
            Some(c) => c@,
            None => "no context"@,
        },
        QueryStatus::Illegal => "Illegal Username Foramt For This Site!"@,
        QueryStatus::Waf => "Blocked by bot detection"@,
    }
}

pub fn result_message(result: &QueryResult) -> (r: String)
    ensures
        r@ == message_of(*result),
{
    match result.status {
        QueryStatus::Claimed => result.site_url_user.clone(),
        QueryStatus::Available => String::from_str("Not Found!"),
        QueryStatus::Unknown => match &result.context {
            Some(c) => c.clone(),
            None => String::from_str("no context"),
        },
        QueryStatus::Illegal => String::from_str("Illegal Username Foramt For This Site!"),
        QueryStatus::Waf => String::from_str("Blocked by bot detection"),
    }
}

} // verus!
