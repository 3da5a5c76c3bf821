//! Expansion of username patterns into the usernames they stand for.
use vstd::prelude::*;
use crate::text::{contains_seq, replace_seq, str_contains, str_replace};

verus! {

/// The marker that stands for a separator in a username pattern: `{?}`.
pub open spec fn variant_symbol() -> Seq<char> {
    seq!['{', '?', '}']
}

/// The usernames one pattern stands for: with the marker, one username per
/// separator `_`, `-`, `.` (in that order), each with every marker replaced;
/// without it, the pattern itself.
pub open spec fn variants_of(u: Seq<char>) -> Seq<Seq<char>> {
    if contains_seq(u, variant_symbol()) {
        seq![
            replace_seq(u, variant_symbol(), seq!['_']),
            replace_seq(u, variant_symbol(), seq!['-']),
            replace_seq(u, variant_symbol(), seq!['.']),
        ]
    } else {
        seq![u]
    }
}

/// The variants of each pattern, pattern after pattern.
pub open spec fn all_variants(us: Seq<Seq<char>>) -> Seq<Seq<char>>
    decreases us.len(),
{
    if us.len() == 0 {
        Seq::empty()
    } else {
        all_variants(us.drop_last()) + variants_of(us.last())
    }
}

pub fn create_username_variants(usernames: &[String]) -> (r: Vec<String>)
    ensures
        r@.map_values(|s: String| s@) == all_variants(usernames@.map_values(|s: String| s@)),
{
    let marker = "{?}";
    let underscore = "_";
    let dash = "-";
    let dot = ".";
    proof {
        reveal_strlit("{?}");
        reveal_strlit("_");
        reveal_strlit("-");
        reveal_strlit(".");
        assert(marker@ =~= variant_symbol());
        assert(underscore@ =~= seq!['_']);
        assert(dash@ =~= seq!['-']);
        assert(dot@ =~= seq!['.']);
    }
    let ghost names = usernames@.map_values(|s: String| s@);
    let mut variants: Vec<String> = Vec::new();
    let mut i: usize = 0;
    while i < usernames.len()
        invariant
            i <= usernames@.len(),
            names == usernames@.map_values(|s: String| s@),
            marker@ == variant_symbol(),
            underscore@ == seq!['_'],
            dash@ == seq!['-'],
            dot@ == seq!['.'],
            variants@.map_values(|s: String| s@) == all_variants(names.subrange(0, i as int)),
        decreases usernames@.len() - i,
    {
        let username = &usernames[i];
        let ghost before = variants@.map_values(|s: String| s@);
        proof {
            assert(names.subrange(0, i as int + 1).drop_last() =~= names.subrange(0, i as int));
            assert(names.subrange(0, i as int + 1).last() == username@);
        }
        if !str_contains(username.as_str(), marker) {
            variants.push(username.clone());
            assert(variants@.map_values(|s: String| s@) =~= before + seq![username@]);
        } else {
            variants.push(str_replace(username.as_str(), marker, underscore));
            variants.push(str_replace(username.as_str(), marker, dash));
            variants.push(str_replace(username.as_str(), marker, dot));
            assert(variants@.map_values(|s: String| s@) =~= before + variants_of(username@));
        }
        i = i + 1;
    }
    assert(names.subrange(0, usernames@.len() as int) =~= names);
    variants
}

} // verus!
