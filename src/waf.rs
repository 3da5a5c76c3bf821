//! Fingerprints of bot-defense challenge pages. A response that carries one
//! is a challenge, not the site's answer. Each fingerprint is kept narrow.
use vstd::prelude::*;
use crate::text::{contains_seq, str_contains};

verus! {

/// Cloudflare challenge page markup (fingerprinted 2024-05-13).
pub const CLOUDFLARE_CHALLENGE: &'static str = r#".loading-spinner{visibility:hidden}body.no-js .challenge-running{display:none}body.dark{background-color:#222;color:#d9d9d9}body.dark a{color:#fff}body.dark a:hover{color:#ee730a;text-decoration:underline}body.dark .lds-ring div{border-color:#999 transparent transparent}body.dark .font-red{color:#b20f03}body.dark"#;

/// PerimeterX / Human Security challenge script (fingerprinted 2024-04-09).
pub const PERIMETERX_CHALLENGE: &'static str = r#"{return l.onPageView}}),Object.defineProperty(r,"perimeterxIdentifiers",{enumerable:"#;

/// Whether a response body carries a known challenge fingerprint.
pub open spec fn is_waf_page(text: Seq<char>) -> bool {
    contains_seq(text, CLOUDFLARE_CHALLENGE@) || contains_seq(text, PERIMETERX_CHALLENGE@)
}

pub fn waf_hit(resp_text: &str) -> (r: bool)
    ensures
        r == is_waf_page(resp_text@),
{
    str_contains(resp_text, CLOUDFLARE_CHALLENGE) || str_contains(resp_text, PERIMETERX_CHALLENGE)
}

} // verus!
