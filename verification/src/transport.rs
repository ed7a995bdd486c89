//! The `Strict-Transport-Security` header.

use crate::header::Header;
use crate::header::Line;
use crate::header::Rendering;
use crate::text;
use vstd::prelude::*;

verus! {

/// The `Strict-Transport-Security` header: the site is to be reached over a
/// secure transport only, for a stated time.
#[derive(Clone)]
pub struct StrictTransportSecurity {
    max_age: u32,
    include_sub_domains: bool,
    preload: bool,
}

impl StrictTransportSecurity {
    /// For how many seconds a client remembers the rule.
    pub closed spec fn max_age_seconds(&self) -> u32 {
        self.max_age
    }

    /// Whether the rule covers the site's subdomains too.
    pub closed spec fn covers_sub_domains(&self) -> bool {
        self.include_sub_domains
    }

    /// Whether the site asks to be put on browsers' preload lists.
    pub closed spec fn asks_preload(&self) -> bool {
        self.preload
    }

    /// The default rule: one year, subdomains not covered, no preload.
    pub fn new() -> (rule: Self)
        ensures
            rule.max_age_seconds() == 31536000,
            !rule.covers_sub_domains(),
            !rule.asks_preload(),
    {
        Self { max_age: 31536000, include_sub_domains: false, preload: false }
    }

    /// Sets for how many seconds a client remembers the rule.
    pub fn max_age(self, max_age: u32) -> (rule: Self)
        ensures
            rule.max_age_seconds() == max_age,
            rule.covers_sub_domains() == self.covers_sub_domains(),
            rule.asks_preload() == self.asks_preload(),
    {
        let mut rule = self;
        rule.max_age = max_age;
        rule
    }

    /// Extends the rule to the site's subdomains.
    pub fn include_sub_domains(self) -> (rule: Self)
        ensures
            rule.max_age_seconds() == self.max_age_seconds(),
            rule.covers_sub_domains(),
            rule.asks_preload() == self.asks_preload(),
    {
        let mut rule = self;
        rule.include_sub_domains = true;
        rule
    }

    /// Asks for the site to be put on browsers' preload lists.
    pub fn preload(self) -> (rule: Self)
        ensures
            rule.max_age_seconds() == self.max_age_seconds(),
            rule.covers_sub_domains() == self.covers_sub_domains(),
            rule.asks_preload(),
    {
        let mut rule = self;
        rule.preload = true;
        rule
    }
}

impl Default for StrictTransportSecurity {
    /// The default rule: one year, subdomains not covered, no preload.
    fn default() -> (rule: Self)
        ensures
            rule.max_age_seconds() == 31536000,
            !rule.covers_sub_domains(),
            !rule.asks_preload(),
    {
        Self::new()
    }
}

impl Rendering for StrictTransportSecurity {
    /// `Strict-Transport-Security`.
    open spec fn name_text(&self) -> Seq<char> {
        "Strict-Transport-Security"@
    }

    /// `max-age=` and the seconds in decimal, then `; includeSubDomains` if
    /// subdomains are covered, then `; preload` if preload is asked for.
    open spec fn value_text(&self) -> Seq<char> {
        "max-age="@ + text::decimal(self.max_age_seconds() as nat) + (if self.covers_sub_domains() {
            "; includeSubDomains"@
        } else {
            Seq::empty()
        }) + (if self.asks_preload() {
            "; preload"@
        } else {
            Seq::empty()
        })
    }

    proof fn lemma_rendering(&self, line: Line) {
    }
}

impl Header for StrictTransportSecurity {
    fn name(&self) -> (name: &'static str)
        ensures
            name@ == self.name_text(),
    {
        "Strict-Transport-Security"
    }

    fn value(&self) -> (value: String)
        ensures
            value@ == self.value_text(),
    {
        let mut value = "max-age=".to_string();
        value.append(text::decimal_string(self.max_age).as_str());
        if self.include_sub_domains {
            value.append("; includeSubDomains");
        }
        if self.preload {
            value.append("; preload");
        }
        assert(value@ =~= self.value_text());
        value
    }
}

} // verus!
