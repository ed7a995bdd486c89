//! The cross-origin isolation headers.

use crate::header::Header;
use crate::header::Line;
use crate::header::Rendering;
use vstd::prelude::*;

verus! {

/// The `Cross-Origin-Embedder-Policy` header: whether a document may load
/// cross-origin resources that do not explicitly grant it permission.
#[derive(Clone)]
pub enum CrossOriginEmbedderPolicy {
    /// `unsafe-none`: cross-origin resources load without explicit permission.
    UnsafeNone,
    /// `require-corp`: only same-origin resources and resources that grant permission load.
    RequireCorp,
    /// `credentialless`: cross-origin requests are sent without credentials.
    Credentialless,
}

impl CrossOriginEmbedderPolicy {
    /// `unsafe-none`: cross-origin resources load without explicit permission.
    pub fn unsafe_none() -> (policy: Self)
        ensures
            policy == Self::UnsafeNone,
    {
        Self::UnsafeNone
    }

    /// `require-corp`: only same-origin resources and resources that grant permission load.
    pub fn require_corp() -> (policy: Self)
        ensures
            policy == Self::RequireCorp,
    {
        Self::RequireCorp
    }

    /// `credentialless`: cross-origin requests are sent without credentials.
    pub fn credentialless() -> (policy: Self)
        ensures
            policy == Self::Credentialless,
    {
        Self::Credentialless
    }
}

impl Rendering for CrossOriginEmbedderPolicy {
    /// `Cross-Origin-Embedder-Policy`.
    open spec fn name_text(&self) -> Seq<char> {
        "Cross-Origin-Embedder-Policy"@
    }

    /// The token of the variant.
    open spec fn value_text(&self) -> Seq<char> {
        match self {
            Self::UnsafeNone => "unsafe-none"@,
            Self::RequireCorp => "require-corp"@,
            Self::Credentialless => "credentialless"@,
        }
    }

    proof fn lemma_rendering(&self, line: Line) {
    }
}

impl Header for CrossOriginEmbedderPolicy {
    fn name(&self) -> (name: &'static str)
        ensures
            name@ == self.name_text(),
    {
        "Cross-Origin-Embedder-Policy"
    }

    fn value(&self) -> (value: String)
        ensures
            value@ == self.value_text(),
    {
        match self {
            Self::UnsafeNone => "unsafe-none".to_string(),
            Self::RequireCorp => "require-corp".to_string(),
            Self::Credentialless => "credentialless".to_string(),
        }
    }
}

/// The `Cross-Origin-Opener-Policy` header: whether a document shares its
/// browsing context group with cross-origin documents.
#[derive(Clone)]
pub enum CrossOriginOpenerPolicy {
    /// `same-origin`: the context group is shared with same-origin documents only.
    SameOrigin,
    /// `same-origin-allow-popups`: as `same-origin`, but popups that the document
    /// opens keep their reference to it.
    SameOriginAllowPopups,
    /// `unsafe-none`: the context group is shared with any opener.
    UnsafeNone,
}

impl CrossOriginOpenerPolicy {
    /// `same-origin`: the context group is shared with same-origin documents only.
    pub fn same_origin() -> (policy: Self)
        ensures
            policy == Self::SameOrigin,
    {
        Self::SameOrigin
    }

    /// `same-origin-allow-popups`: as `same-origin`, but popups that the document
    /// opens keep their reference to it.
    pub fn same_origin_allow_popups() -> (policy: Self)
        ensures
            policy == Self::SameOriginAllowPopups,
    {
        Self::SameOriginAllowPopups
    }

    /// `unsafe-none`: the context group is shared with any opener.
    pub fn unsafe_none() -> (policy: Self)
        ensures
            policy == Self::UnsafeNone,
    {
        Self::UnsafeNone
    }
}

impl Rendering for CrossOriginOpenerPolicy {
    /// `Cross-Origin-Opener-Policy`.
    open spec fn name_text(&self) -> Seq<char> {
        "Cross-Origin-Opener-Policy"@
    }

    /// The token of the variant.
    open spec fn value_text(&self) -> Seq<char> {
        match self {
            Self::SameOrigin => "same-origin"@,
            Self::SameOriginAllowPopups => "same-origin-allow-popups"@,
            Self::UnsafeNone => "unsafe-none"@,
        }
    }

    proof fn lemma_rendering(&self, line: Line) {
    }
}

impl Header for CrossOriginOpenerPolicy {
    fn name(&self) -> (name: &'static str)
        ensures
            name@ == self.name_text(),
    {
        "Cross-Origin-Opener-Policy"
    }

    fn value(&self) -> (value: String)
        ensures
            value@ == self.value_text(),
    {
        match self {
            Self::SameOrigin => "same-origin".to_string(),
            Self::SameOriginAllowPopups => "same-origin-allow-popups".to_string(),
            Self::UnsafeNone => "unsafe-none".to_string(),
        }
    }
}

/// The `Cross-Origin-Resource-Policy` header: which origins may load the
/// resource in no-cors mode.
#[derive(Clone)]
pub enum CrossOriginResourcePolicy {
    /// `same-origin`: only documents of the same origin.
    SameOrigin,
    /// `same-site`: only documents of the same site.
    SameSite,
    /// `cross-origin`: documents of any origin.
    CrossOrigin,
}

impl CrossOriginResourcePolicy {
    /// `same-origin`: only documents of the same origin.
    pub fn same_origin() -> (policy: Self)
        ensures
            policy == Self::SameOrigin,
    {
        Self::SameOrigin
    }

    /// `same-site`: only documents of the same site.
    pub fn same_site() -> (policy: Self)
        ensures
            policy == Self::SameSite,
    {
        Self::SameSite
    }

    /// `cross-origin`: documents of any origin.
    pub fn cross_origin() -> (policy: Self)
        ensures
            policy == Self::CrossOrigin,
    {
        Self::CrossOrigin
    }
}

impl Rendering for CrossOriginResourcePolicy {
    /// `Cross-Origin-Resource-Policy`.
    open spec fn name_text(&self) -> Seq<char> {
        "Cross-Origin-Resource-Policy"@
    }

    /// The token of the variant.
    open spec fn value_text(&self) -> Seq<char> {
        match self {
            Self::SameOrigin => "same-origin"@,
            Self::SameSite => "same-site"@,
            Self::CrossOrigin => "cross-origin"@,
        }
    }

    proof fn lemma_rendering(&self, line: Line) {
    }
}

impl Header for CrossOriginResourcePolicy {
    fn name(&self) -> (name: &'static str)
        ensures
            name@ == self.name_text(),
    {
        "Cross-Origin-Resource-Policy"
    }

    fn value(&self) -> (value: String)
        ensures
            value@ == self.value_text(),
    {
        match self {
            Self::SameOrigin => "same-origin".to_string(),
            Self::SameSite => "same-site".to_string(),
            Self::CrossOrigin => "cross-origin".to_string(),
        }
    }
}

/// The `Origin-Agent-Cluster` header: whether the document asks to be placed
/// in an agent cluster keyed by its origin.
#[derive(Clone)]
pub struct OriginAgentCluster(bool);

impl OriginAgentCluster {
    /// Whether an origin-keyed agent cluster is requested.
    pub closed spec fn is_requested(&self) -> bool {
        self.0
    }

    /// A header that requests an origin-keyed agent cluster, or declines one.
    pub fn new(prefer_mobile_experience: bool) -> (cluster: Self)
        ensures
            cluster.is_requested() == prefer_mobile_experience,
    {
        Self(prefer_mobile_experience)
    }
}

impl Rendering for OriginAgentCluster {
    /// `Origin-Agent-Cluster`.
    open spec fn name_text(&self) -> Seq<char> {
        "Origin-Agent-Cluster"@
    }

    /// The structured-field boolean: `?1` for true, `?0` for false.
    open spec fn value_text(&self) -> Seq<char> {
        if self.is_requested() {
            "?1"@
        } else {
            "?0"@
        }
    }

    proof fn lemma_rendering(&self, line: Line) {
    }
}

impl Header for OriginAgentCluster {
    fn name(&self) -> (name: &'static str)
        ensures
            name@ == self.name_text(),
    {
        "Origin-Agent-Cluster"
    }

    fn value(&self) -> (value: String)
        ensures
            value@ == self.value_text(),
    {
        if self.0 {
            "?1".to_string()
        } else {
            "?0".to_string()
        }
    }
}

} // verus!
