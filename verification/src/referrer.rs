//! The `Referrer-Policy` header.

use crate::header::Header;
use crate::header::Line;
use crate::header::Rendering;
use vstd::prelude::*;

verus! {

/// The `Referrer-Policy` header: how much of the referring URL is sent along
/// with requests.
#[derive(Clone)]
pub enum ReferrerPolicy {
    /// `no-referrer`: no referrer is sent.
    NoReferrer,
    /// `no-referrer-when-downgrade`: the full URL, unless the request goes to a
    /// less secure destination.
    NoReferrerWhenDowngrade,
    /// `origin`: the origin only.
    Origin,
    /// `origin-when-cross-origin`: the full URL to the same origin, the origin only to others.
    OriginWhenCrossOrigin,
    /// `same-origin`: the full URL to the same origin, nothing to others.
    SameOrigin,
    /// `strict-origin`: the origin only, and nothing to a less secure destination.
    StrictOrigin,
    /// `strict-origin-when-cross-origin`: the full URL to the same origin, the
    /// origin to others, nothing to a less secure destination.
    StrictOriginWhenCrossOrigin,
    /// `unsafe-url`: the full URL, always.
    UnsafeUrl,
}

impl ReferrerPolicy {
    /// `no-referrer`: no referrer is sent.
    pub fn no_referrer() -> (policy: Self)
        ensures
            policy == Self::NoReferrer,
    {
        Self::NoReferrer
    }

    /// `no-referrer-when-downgrade`: the full URL, unless the request goes to a
    /// less secure destination.
    pub fn no_referrer_when_downgrade() -> (policy: Self)
        ensures
            policy == Self::NoReferrerWhenDowngrade,
    {
        Self::NoReferrerWhenDowngrade
    }

    /// `origin`: the origin only.
    pub fn origin() -> (policy: Self)
        ensures
            policy == Self::Origin,
    {
        Self::Origin
    }

    /// `origin-when-cross-origin`: the full URL to the same origin, the origin only to others.
    pub fn origin_when_cross_origin() -> (policy: Self)
        ensures
            policy == Self::OriginWhenCrossOrigin,
    {
        Self::OriginWhenCrossOrigin
    }

    /// `same-origin`: the full URL to the same origin, nothing to others.
    pub fn same_origin() -> (policy: Self)
        ensures
            policy == Self::SameOrigin,
    {
        Self::SameOrigin
    }

    /// `strict-origin`: the origin only, and nothing to a less secure destination.
    pub fn strict_origin() -> (policy: Self)
        ensures
            policy == Self::StrictOrigin,
    {
        Self::StrictOrigin
    }

    /// `strict-origin-when-cross-origin`: the full URL to the same origin, the
    /// origin to others, nothing to a less secure destination.
    pub fn strict_origin_when_cross_origin() -> (policy: Self)
        ensures
            policy == Self::StrictOriginWhenCrossOrigin,
    {
        Self::StrictOriginWhenCrossOrigin
    }

    /// `unsafe-url`: the full URL, always.
    pub fn unsafe_url() -> (policy: Self)
        ensures
            policy == Self::UnsafeUrl,
    {
        Self::UnsafeUrl
    }
}

impl Rendering for ReferrerPolicy {
    /// `Referrer-Policy`.
    open spec fn name_text(&self) -> Seq<char> {
        "Referrer-Policy"@
    }

    /// The token of the variant.
    open spec fn value_text(&self) -> Seq<char> {
        match self {
            Self::NoReferrer => "no-referrer"@,
            Self::NoReferrerWhenDowngrade => "no-referrer-when-downgrade"@,
            Self::Origin => "origin"@,
            Self::OriginWhenCrossOrigin => "origin-when-cross-origin"@,
            Self::SameOrigin => "same-origin"@,
            Self::StrictOrigin => "strict-origin"@,
            Self::StrictOriginWhenCrossOrigin => "strict-origin-when-cross-origin"@,
            Self::UnsafeUrl => "unsafe-url"@,
        }
    }

    proof fn lemma_rendering(&self, line: Line) {
    }
}

impl Header for ReferrerPolicy {
    fn name(&self) -> (name: &'static str)
        ensures
            name@ == self.name_text(),
    {
        "Referrer-Policy"
    }

    fn value(&self) -> (value: String)
        ensures
            value@ == self.value_text(),
    {
        match self {
            Self::NoReferrer => "no-referrer".to_string(),
            Self::NoReferrerWhenDowngrade => "no-referrer-when-downgrade".to_string(),
            Self::Origin => "origin".to_string(),
            Self::OriginWhenCrossOrigin => "origin-when-cross-origin".to_string(),
            Self::SameOrigin => "same-origin".to_string(),
            Self::StrictOrigin => "strict-origin".to_string(),
            Self::StrictOriginWhenCrossOrigin => "strict-origin-when-cross-origin".to_string(),
            Self::UnsafeUrl => "unsafe-url".to_string(),
        }
    }
}

} // verus!
