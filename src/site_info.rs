//! A summary of one site, for listings.
use vstd::prelude::*;
use vstd::string::StringExecFns;

verus! {

#[derive(Debug, Clone)]
pub struct SiteInfo {
    name: String,
    url_home: String,
    url_username_format: String,
    username_claimed: String,
    username_unclaimed: String,
    information: Vec<(String, String)>,
    is_nsfw: bool,
}

impl SiteInfo {
    pub closed spec fn name_spec(&self) -> Seq<char> {
        self.name@
    }

    pub closed spec fn url_home_spec(&self) -> Seq<char> {
        self.url_home@
    }

    pub fn new(
        name: String,
        url_home: String,
        url_username_format: String,
        username_claimed: String,
        username_unclaimed: String,
        information: Vec<(String, String)>,
        is_nsfw: bool,
    ) -> (r: SiteInfo)
        ensures
            r.name_spec() == name@,
            r.url_home_spec() == url_home@,
    {
        SiteInfo { name, url_home, url_username_format, username_claimed, username_unclaimed, information, is_nsfw }
    }

    /// `name (url_home)`.
    pub fn describe(&self) -> (r: String)
        ensures
            r@ == self.name_spec() + " ("@ + self.url_home_spec() + ")"@,
    {
        let mut s = self.name.clone();
        s.append(" (");
        s.append(self.url_home.as_str());
        s.append(")");
        s
    }
}

} // verus!
