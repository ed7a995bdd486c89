//! The `X-` headers that older browsers and plugins understand.

use crate::header::Header;
use crate::header::Line;
use crate::header::Rendering;
use vstd::prelude::*;

verus! {

/// The `X-Content-Type-Options` header: the declared content type is to be
/// followed, not guessed.
#[derive(Clone)]
pub enum XContentTypeOptions {
    /// `nosniff`: the browser does not sniff the content type.
    NoSniff,
}

impl XContentTypeOptions {
    /// `nosniff`: the browser does not sniff the content type.
    pub fn nosniff() -> (policy: Self)
        ensures
            policy == Self::NoSniff,
    {
        Self::NoSniff
    }
}

impl Rendering for XContentTypeOptions {
    /// `X-Content-Type-Options`.
    open spec fn name_text(&self) -> Seq<char> {
        "X-Content-Type-Options"@
    }

    /// The token of the variant.
    open spec fn value_text(&self) -> Seq<char> {
        match self {
            Self::NoSniff => "nosniff"@,
        }
    }

    proof fn lemma_rendering(&self, line: Line) {
    }
}

impl Header for XContentTypeOptions {
    fn name(&self) -> (name: &'static str)
        ensures
            name@ == self.name_text(),
    {
        "X-Content-Type-Options"
    }

    fn value(&self) -> (value: String)
        ensures
            value@ == self.value_text(),
    {
        match self {
            Self::NoSniff => "nosniff".to_string(),
        }
    }
}

/// The `X-DNS-Prefetch-Control` header: whether the browser resolves domain
/// names ahead of use.
#[derive(Clone)]
pub enum XDNSPrefetchControl {
    /// `off`: names are resolved only when they are needed.
    Off,
    /// `on`: names may be resolved ahead of use.
    On,
}

impl XDNSPrefetchControl {
    /// `off`: names are resolved only when they are needed.
    pub fn off() -> (policy: Self)
        ensures
            policy == Self::Off,
    {
        Self::Off
    }

    /// `on`: names may be resolved ahead of use.
    pub fn on() -> (policy: Self)
        ensures
            policy == Self::On,
    {
        Self::On
    }
}

impl Rendering for XDNSPrefetchControl {
    /// `X-DNS-Prefetch-Control`.
    open spec fn name_text(&self) -> Seq<char> {
        "X-DNS-Prefetch-Control"@
    }

    /// The token of the variant.
    open spec fn value_text(&self) -> Seq<char> {
        match self {
            Self::Off => "off"@,
            Self::On => "on"@,
        }
    }

    proof fn lemma_rendering(&self, line: Line) {
    }
}

impl Header for XDNSPrefetchControl {
    fn name(&self) -> (name: &'static str)
        ensures
            name@ == self.name_text(),
    {
        "X-DNS-Prefetch-Control"
    }

    fn value(&self) -> (value: String)
        ensures
            value@ == self.value_text(),
    {
        match self {
            Self::Off => "off".to_string(),
            Self::On => "on".to_string(),
        }
    }
}

/// The `X-Download-Options` header: downloads are not opened in the site's
/// context.
#[derive(Clone)]
pub enum XDownloadOptions {
    /// `noopen`: a download is saved, never opened directly.
    NoOpen,
}

impl XDownloadOptions {
    /// `noopen`: a download is saved, never opened directly.
    pub fn noopen() -> (policy: Self)
        ensures
            policy == Self::NoOpen,
    {
        Self::NoOpen
    }
}

impl Rendering for XDownloadOptions {
    /// `X-Download-Options`.
    open spec fn name_text(&self) -> Seq<char> {
        "X-Download-Options"@
    }

    /// The token of the variant.
    open spec fn value_text(&self) -> Seq<char> {
        match self {
            Self::NoOpen => "noopen"@,
        }
    }

    proof fn lemma_rendering(&self, line: Line) {
    }
}

impl Header for XDownloadOptions {
    fn name(&self) -> (name: &'static str)
        ensures
            name@ == self.name_text(),
    {
        "X-Download-Options"
    }

    fn value(&self) -> (value: String)
        ensures
            value@ == self.value_text(),
    {
        match self {
            Self::NoOpen => "noopen".to_string(),
        }
    }
}

/// The `X-Frame-Options` header: who may display the page in a frame.
///
/// This is the one family whose tokens are written in upper case.
#[derive(Clone)]
pub enum XFrameOptions {
    /// `DENY`: nobody.
    Deny,
    /// `SAMEORIGIN`: pages of the same origin.
    SameOrigin,
    /// `ALLOW-FROM` and a URI: pages of that origin. Browsers have dropped
    /// this form in favour of the `frame-ancestors` directive.
    AllowFrom(String),
}

impl XFrameOptions {
    /// `DENY`: nobody may frame the page.
    pub fn deny() -> (options: Self)
        ensures
            options == Self::Deny,
    {
        Self::Deny
    }

    /// `SAMEORIGIN`: pages of the same origin may frame the page.
    pub fn same_origin() -> (options: Self)
        ensures
            options == Self::SameOrigin,
    {
        Self::SameOrigin
    }

    /// `ALLOW-FROM uri`: pages of the given origin may frame the page. The
    /// URI is written as given.
    pub fn allow_from(uri: &str) -> (options: Self)
        ensures
            options matches Self::AllowFrom(origin) && origin@ == uri@,
    {
        Self::AllowFrom(uri.to_string())
    }
}

impl Rendering for XFrameOptions {
    /// `X-Frame-Options`.
    open spec fn name_text(&self) -> Seq<char> {
        "X-Frame-Options"@
    }

    /// `DENY`, `SAMEORIGIN`, or `ALLOW-FROM`, a space and the URI.
    open spec fn value_text(&self) -> Seq<char> {
        match self {
            Self::Deny => "DENY"@,
            Self::SameOrigin => "SAMEORIGIN"@,
            Self::AllowFrom(uri) => "ALLOW-FROM "@ + uri@,
        }
    }

    proof fn lemma_rendering(&self, line: Line) {
    }
}

impl Header for XFrameOptions {
    fn name(&self) -> (name: &'static str)
        ensures
            name@ == self.name_text(),
    {
        "X-Frame-Options"
    }

    fn value(&self) -> (value: String)
        ensures
            value@ == self.value_text(),
    {
        match self {
            Self::Deny => "DENY".to_string(),
            Self::SameOrigin => "SAMEORIGIN".to_string(),
            Self::AllowFrom(uri) => {
                let mut value = "ALLOW-FROM ".to_string();
                value.append(uri.as_str());
                value
            },
        }
    }
}

/// The `X-Permitted-Cross-Domain-Policies` header: which cross-domain policy
/// files a client may honour.
#[derive(Clone)]
pub enum XPermittedCrossDomainPolicies {
    /// `none`: no policy file is allowed.
    NoPolicy,
    /// `master-only`: only the master policy file is allowed.
    MasterOnly,
    /// `by-content-type`: only policy files served with the policy content type.
    ByContentType,
    /// `by-ftp-filename`: only policy files with the standard name, over FTP.
    ByFtpFilename,
    /// `all`: any policy file is allowed.
    All,
}

impl XPermittedCrossDomainPolicies {
    /// `none`: no policy file is allowed.
    pub fn none() -> (policy: Self)
        ensures
            policy == Self::NoPolicy,
    {
        Self::NoPolicy
    }

    /// `master-only`: only the master policy file is allowed.
    pub fn master_only() -> (policy: Self)
        ensures
            policy == Self::MasterOnly,
    {
        Self::MasterOnly
    }

    /// `by-content-type`: only policy files served with the policy content type.
    pub fn by_content_type() -> (policy: Self)
        ensures
            policy == Self::ByContentType,
    {
        Self::ByContentType
    }

    /// `by-ftp-filename`: only policy files with the standard name, over FTP.
    pub fn by_ftp_filename() -> (policy: Self)
        ensures
            policy == Self::ByFtpFilename,
    {
        Self::ByFtpFilename
    }

    /// `all`: any policy file is allowed.
    pub fn all() -> (policy: Self)
        ensures
            policy == Self::All,
    {
        Self::All
    }
}

impl Rendering for XPermittedCrossDomainPolicies {
    /// `X-Permitted-Cross-Domain-Policies`.
    open spec fn name_text(&self) -> Seq<char> {
        "X-Permitted-Cross-Domain-Policies"@
    }

    /// The token of the variant.
    open spec fn value_text(&self) -> Seq<char> {
        match self {
            Self::NoPolicy => "none"@,
            Self::MasterOnly => "master-only"@,
            Self::ByContentType => "by-content-type"@,
            Self::ByFtpFilename => "by-ftp-filename"@,
            Self::All => "all"@,
        }
    }

    proof fn lemma_rendering(&self, line: Line) {
    }
}

impl Header for XPermittedCrossDomainPolicies {
    fn name(&self) -> (name: &'static str)
        ensures
            name@ == self.name_text(),
    {
        "X-Permitted-Cross-Domain-Policies"
    }

    fn value(&self) -> (value: String)
        ensures
            value@ == self.value_text(),
    {
        match self {
            Self::NoPolicy => "none".to_string(),
            Self::MasterOnly => "master-only".to_string(),
            Self::ByContentType => "by-content-type".to_string(),
            Self::ByFtpFilename => "by-ftp-filename".to_string(),
            Self::All => "all".to_string(),
        }
    }
}

/// The `X-XSS-Protection` header: the setting of the cross-site scripting
/// filter of older browsers.
///
/// Block mode and the report URI are written only when the filter is on.
#[derive(Clone)]
pub struct XXSSProtection {
    on: bool,
    mode_block: bool,
    report: Option<String>,
}

impl XXSSProtection {
    /// Whether the filter is switched on.
    pub closed spec fn is_on(&self) -> bool {
        self.on
    }

    /// Whether the browser is to block the page, not sanitise it.
    pub closed spec fn blocks(&self) -> bool {
        self.mode_block
    }

    /// The URI to which violations are reported, if one was given.
    pub closed spec fn report_uri(&self) -> Option<Seq<char>> {
        match self.report {
            Some(uri) => Some(uri@),
            None => None,
        }
    }

    /// The filter switched off.
    pub fn off() -> (protection: Self)
        ensures
            !protection.is_on(),
            !protection.blocks(),
            protection.report_uri() is None,
    {
        Self { on: false, mode_block: false, report: None }
    }

    /// The filter switched on, without block mode or report URI.
    pub fn on() -> (protection: Self)
        ensures
            protection.is_on(),
            !protection.blocks(),
            protection.report_uri() is None,
    {
        Self { on: true, mode_block: false, report: None }
    }

    /// Asks the browser to block the page when it detects an attack.
    pub fn mode_block(self) -> (protection: Self)
        ensures
            protection.is_on() == self.is_on(),
            protection.blocks(),
            protection.report_uri() == self.report_uri(),
    {
        let mut protection = self;
        protection.mode_block = true;
        protection
    }

    /// Sets the URI to which the browser reports violations; an earlier one
    /// is replaced. The URI is written as given.
    pub fn report(self, report: &str) -> (protection: Self)
        ensures
            protection.is_on() == self.is_on(),
            protection.blocks() == self.blocks(),
            protection.report_uri() == Some(report@),
    {
        let mut protection = self;
        protection.report = Some(report.to_string());
        protection
    }
}

impl Rendering for XXSSProtection {
    /// `X-XSS-Protection`.
    open spec fn name_text(&self) -> Seq<char> {
        "X-XSS-Protection"@
    }

    /// `0` when the filter is off. Otherwise `1`, then `; mode=block` in
    /// block mode, then `; report=` and the URI if one was given.
    open spec fn value_text(&self) -> Seq<char> {
        if self.is_on() {
            "1"@ + (if self.blocks() {
                "; mode=block"@
            } else {
                Seq::empty()
            }) + (match self.report_uri() {
                Some(uri) => "; report="@ + uri,
                None => Seq::empty(),
            })
        } else {
            "0"@
        }
    }

    proof fn lemma_rendering(&self, line: Line) {
    }
}

impl Header for XXSSProtection {
    fn name(&self) -> (name: &'static str)
        ensures
            name@ == self.name_text(),
    {
        "X-XSS-Protection"
    }

    fn value(&self) -> (value: String)
        ensures
            value@ == self.value_text(),
    {
        if self.on {
            let mut value = "1".to_string();
            if self.mode_block {
                value.append("; mode=block");
            }
            if let Some(report) = &self.report {
                value.append("; report=");
                value.append(report.as_str());
            }
            assert(value@ =~= self.value_text());
            value
        } else {
            "0".to_string()
        }
    }
}

/// The `X-Powered-By` header, set to a text of the caller's choice.
///
/// A server that names its software helps whoever fingerprints it; a made-up
/// value does not.
#[derive(Clone)]
pub struct XPoweredBy(String);

impl XPoweredBy {
    /// The text that is sent.
    pub closed spec fn comment(&self) -> Seq<char> {
        self.0@
    }

    /// A header that sends `comment` as it is.
    pub fn new(comment: &str) -> (powered_by: Self)
        ensures
            powered_by.comment() == comment@,
    {
        Self(comment.to_string())
    }
}

impl Rendering for XPoweredBy {
    /// `X-Powered-By`.
    open spec fn name_text(&self) -> Seq<char> {
        "X-Powered-By"@
    }

    /// The text, unchanged.
    open spec fn value_text(&self) -> Seq<char> {
        self.comment()
    }

    proof fn lemma_rendering(&self, line: Line) {
    }
}

impl Header for XPoweredBy {
    fn name(&self) -> (name: &'static str)
        ensures
            name@ == self.name_text(),
    {
        "X-Powered-By"
    }

    fn value(&self) -> (value: String)
        ensures
            value@ == self.value_text(),
    {
        self.0.clone()
    }
}

} // verus!
