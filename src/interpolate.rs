//! Substitution of the `{}` placeholder in templates, element-wise over
//! sequences and over key/value pairs.
use vstd::prelude::*;
use crate::text::{replace_seq, str_replace};

verus! {

/// The placeholder token that templates carry: `{}`.
pub open spec fn placeholder() -> Seq<char> {
    seq!['{', '}']
}

/// A template with the placeholder replaced by `text`.
pub open spec fn interpolated(template: Seq<char>, text: Seq<char>) -> Seq<char> {
    replace_seq(template, placeholder(), text)
}

/// `s` holds no opening brace, so no placeholder starts inside it.
pub open spec fn brace_free(s: Seq<char>) -> bool {
    forall|i: int| 0 <= i < s.len() ==> s[i] != '{'
}

/// Text without braces passes through interpolation unchanged.
proof fn lemma_brace_free_prefix(a: Seq<char>, rest: Seq<char>, text: Seq<char>)
    requires
        brace_free(a),
    ensures
        interpolated(a + rest, text) == a + interpolated(rest, text),
    decreases a.len(),
{
    if a.len() == 0 {
        assert(a + rest =~= rest);
    } else {
        let s = a + rest;
        assert(s[0] == a[0]);
        if s.len() >= 2 {
            assert(s.subrange(0, 2)[0] == a[0]);
            assert(s.subrange(0, 2) != placeholder());
        }
        lemma_brace_free_prefix(a.drop_first(), rest, text);
        assert(s.subrange(1, s.len() as int) =~= a.drop_first() + rest);
        assert(seq![s[0]] + (a.drop_first() + interpolated(rest, text)) =~= a + interpolated(rest, text));
        if s.len() < 2 {
            assert(rest.len() == 0);
            assert(interpolated(rest, text) =~= rest);
            assert(s =~= a + interpolated(rest, text));
        }
    }
}

/// A placeholder at the front of a template is replaced, and the rest
/// interpolated in turn.
proof fn lemma_placeholder_prefix(rest: Seq<char>, text: Seq<char>)
    ensures
        interpolated(placeholder() + rest, text) == text + interpolated(rest, text),
{
    let s = placeholder() + rest;
    assert(s.subrange(0, 2) =~= placeholder());
    assert(s.subrange(2, s.len() as int) =~= rest);
}

/// Every occurrence of the placeholder is replaced: a template that holds it
/// twice, its other text free of braces, gets the value at both places
/// (`"{}-{}"` with `"bob"` gives `"bob-bob"`).
pub proof fn lemma_interpolate_both_placeholders(a: Seq<char>, b: Seq<char>, c: Seq<char>, text: Seq<char>)
    requires
        brace_free(a),
        brace_free(b),
        brace_free(c),
    ensures
        interpolated(a + placeholder() + b + placeholder() + c, text) == a + text + b + text + c,
{
    let p = placeholder();
    assert(a + p + b + p + c =~= a + (p + (b + (p + c))));
    lemma_brace_free_prefix(a, p + (b + (p + c)), text);
    lemma_placeholder_prefix(b + (p + c), text);
    lemma_brace_free_prefix(b, p + c, text);
    lemma_placeholder_prefix(c, text);
    lemma_brace_free_prefix(c, Seq::empty(), text);
    assert(c + Seq::<char>::empty() =~= c);
    assert(interpolated(Seq::<char>::empty(), text) =~= Seq::<char>::empty());
    assert(a + (text + (b + (text + (c + Seq::<char>::empty())))) =~= a + text + b + text + c);
}

pub trait Interpolatable: Sized {
    /// `r` is `self` with every placeholder replaced by `text`.
    spec fn interpolates_to(&self, text: Seq<char>, r: &Self) -> bool;

    fn interpolate(&self, text: &str) -> (r: Self)
        ensures
            self.interpolates_to(text@, &r),
    ;
}

impl Interpolatable for String {
    open spec fn interpolates_to(&self, text: Seq<char>, r: &Self) -> bool {
        r@ == interpolated(self@, text)
    }

    fn interpolate(&self, text: &str) -> (r: Self) {
        let token = "{}";
        proof {
            reveal_strlit("{}");
            assert(token@ =~= placeholder());
        }
        str_replace(self.as_str(), token, text)
    }
}

impl<T: Interpolatable> Interpolatable for Vec<T> {
    open spec fn interpolates_to(&self, text: Seq<char>, r: &Self) -> bool {
        &&& r@.len() == self@.len()
        &&& forall|i: int| 0 <= i < self@.len() ==> #[trigger] self@[i].interpolates_to(text, &r@[i])
    }

    fn interpolate(&self, text: &str) -> (r: Self) {
        let mut out: Vec<T> = Vec::new();
        let mut i: usize = 0;
        while i < self.len()
            invariant
                i <= self@.len(),
                out@.len() == i,
                forall|j: int| 0 <= j < i ==> #[trigger] self@[j].interpolates_to(text@, &out@[j]),
            decreases self@.len() - i,
        {
            let item = self[i].interpolate(text);
            out.push(item);
            i = i + 1;
        }
        out
    }
}

/// A key/value pair keeps its key; only the value is interpolated.
impl<T: Interpolatable> Interpolatable for (String, T) {
    open spec fn interpolates_to(&self, text: Seq<char>, r: &Self) -> bool {
        r.0@ == self.0@ && self.1.interpolates_to(text, &r.1)
    }

    fn interpolate(&self, text: &str) -> (r: Self) {
        let key = self.0.clone();
        let value = self.1.interpolate(text);
        (key, value)
    }
}

} // verus!
