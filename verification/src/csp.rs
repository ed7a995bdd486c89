//! The `Content-Security-Policy` header: directives and the policy that
//! lists them.

use crate::header::Header;
use crate::header::Line;
use crate::header::Rendering;
use crate::text;
use vstd::prelude::*;

verus! {

/// One clause of a content security policy.
///
/// Every directive but `UpgradeInsecureRequests` carries a list of values,
/// which are written as given: nothing is quoted, escaped or deduplicated.
#[derive(Clone)]
pub enum ContentSecurityPolicyDirective<'a> {
    /// `child-src`: sources for workers and nested browsing contexts.
    ChildSrc(Vec<&'a str>),
    /// `connect-src`: targets that scripts may connect to.
    ConnectSrc(Vec<&'a str>),
    /// `default-src`: the fallback for the other fetch directives.
    DefaultSrc(Vec<&'a str>),
    /// `font-src`: sources for fonts.
    FontSrc(Vec<&'a str>),
    /// `frame-src`: sources for nested browsing contexts.
    FrameSrc(Vec<&'a str>),
    /// `img-src`: sources for images and favicons.
    ImgSrc(Vec<&'a str>),
    /// `manifest-src`: sources for application manifests.
    ManifestSrc(Vec<&'a str>),
    /// `media-src`: sources for audio and video.
    MediaSrc(Vec<&'a str>),
    /// `object-src`: sources for plugins and embedded objects.
    ObjectSrc(Vec<&'a str>),
    /// `prefetch-src`: sources that may be prefetched or prerendered.
    PrefetchSrc(Vec<&'a str>),
    /// `script-src`: sources for scripts.
    ScriptSrc(Vec<&'a str>),
    /// `script-src-elem`: sources for script elements.
    ScriptSrcElem(Vec<&'a str>),
    /// `script-src-attr`: sources for inline event handlers.
    ScriptSrcAttr(Vec<&'a str>),
    /// `style-src`: sources for stylesheets.
    StyleSrc(Vec<&'a str>),
    /// `style-src-elem`: sources for style elements.
    StyleSrcElem(Vec<&'a str>),
    /// `style-src-attr`: sources for inline style attributes.
    StyleSrcAttr(Vec<&'a str>),
    /// `worker-src`: sources for worker scripts.
    WorkerSrc(Vec<&'a str>),
    /// `base-uri`: uRLs allowed in a document's base element.
    BaseUri(Vec<&'a str>),
    /// `sandbox`: sandbox flags applied to the resource.
    Sandbox(Vec<&'a str>),
    /// `form-action`: targets allowed for form submissions.
    FormAction(Vec<&'a str>),
    /// `frame-ancestors`: parents that may embed the page.
    FrameAncestors(Vec<&'a str>),
    /// `report-to`: reporting endpoints; rendered under `report-to` and again
    /// under the older `report-uri`.
    ReportTo(Vec<&'a str>),
    /// `require-trusted-types-for`: sinks for which trusted types are required.
    RequireTrustedTypesFor(Vec<&'a str>),
    /// `trusted-types`: names of the trusted type policies that may be created.
    TrustedTypes(Vec<&'a str>),
    /// `upgrade-insecure-requests`: load insecure URLs over a secure channel.
    UpgradeInsecureRequests,
}

impl<'a> ContentSecurityPolicyDirective<'a> {
    /// The keyword under which the directive is written.
    pub open spec fn keyword(&self) -> Seq<char> {
        match self {
            Self::ChildSrc(_) => "child-src"@,
            Self::ConnectSrc(_) => "connect-src"@,
            Self::DefaultSrc(_) => "default-src"@,
            Self::FontSrc(_) => "font-src"@,
            Self::FrameSrc(_) => "frame-src"@,
            Self::ImgSrc(_) => "img-src"@,
            Self::ManifestSrc(_) => "manifest-src"@,
            Self::MediaSrc(_) => "media-src"@,
            Self::ObjectSrc(_) => "object-src"@,
            Self::PrefetchSrc(_) => "prefetch-src"@,
            Self::ScriptSrc(_) => "script-src"@,
            Self::ScriptSrcElem(_) => "script-src-elem"@,
            Self::ScriptSrcAttr(_) => "script-src-attr"@,
            Self::StyleSrc(_) => "style-src"@,
            Self::StyleSrcElem(_) => "style-src-elem"@,
            Self::StyleSrcAttr(_) => "style-src-attr"@,
            Self::WorkerSrc(_) => "worker-src"@,
            Self::BaseUri(_) => "base-uri"@,
            Self::Sandbox(_) => "sandbox"@,
            Self::FormAction(_) => "form-action"@,
            Self::FrameAncestors(_) => "frame-ancestors"@,
            Self::ReportTo(_) => "report-to"@,
            Self::RequireTrustedTypesFor(_) => "require-trusted-types-for"@,
            Self::TrustedTypes(_) => "trusted-types"@,
            Self::UpgradeInsecureRequests => "upgrade-insecure-requests"@,
        }
    }

    /// The directive's values as texts, in the order given; none for
    /// `UpgradeInsecureRequests`.
    pub open spec fn values(&self) -> Seq<Seq<char>> {
        match self {
            Self::ChildSrc(values) => text::texts(values@),
            Self::ConnectSrc(values) => text::texts(values@),
            Self::DefaultSrc(values) => text::texts(values@),
            Self::FontSrc(values) => text::texts(values@),
            Self::FrameSrc(values) => text::texts(values@),
            Self::ImgSrc(values) => text::texts(values@),
            Self::ManifestSrc(values) => text::texts(values@),
            Self::MediaSrc(values) => text::texts(values@),
            Self::ObjectSrc(values) => text::texts(values@),
            Self::PrefetchSrc(values) => text::texts(values@),
            Self::ScriptSrc(values) => text::texts(values@),
            Self::ScriptSrcElem(values) => text::texts(values@),
            Self::ScriptSrcAttr(values) => text::texts(values@),
            Self::StyleSrc(values) => text::texts(values@),
            Self::StyleSrcElem(values) => text::texts(values@),
            Self::StyleSrcAttr(values) => text::texts(values@),
            Self::WorkerSrc(values) => text::texts(values@),
            Self::BaseUri(values) => text::texts(values@),
            Self::Sandbox(values) => text::texts(values@),
            Self::FormAction(values) => text::texts(values@),
            Self::FrameAncestors(values) => text::texts(values@),
            Self::ReportTo(values) => text::texts(values@),
            Self::RequireTrustedTypesFor(values) => text::texts(values@),
            Self::TrustedTypes(values) => text::texts(values@),
            Self::UpgradeInsecureRequests => Seq::empty(),
        }
    }

    /// The directive as it is written in a policy.
    ///
    /// A directive with values is its keyword, a space, and the values
    /// separated by single spaces. `report-to` is followed by `; report-uri`
    /// and the same values once more. `upgrade-insecure-requests` is the
    /// bare keyword.
    pub open spec fn text(&self) -> Seq<char> {
        match self {
            Self::UpgradeInsecureRequests => self.keyword(),
            Self::ReportTo(_) => clause(self.keyword(), self.values()) + "; "@ + clause(
                "report-uri"@,
                self.values(),
            ),
            _ => clause(self.keyword(), self.values()),
        }
    }

    /// `child-src`: sources for workers and nested browsing contexts.
    pub fn child_src(values: Vec<&'a str>) -> (directive: Self)
        ensures
            directive == Self::ChildSrc(values),
    {
        Self::ChildSrc(values)
    }

    /// `connect-src`: targets that scripts may connect to.
    pub fn connect_src(values: Vec<&'a str>) -> (directive: Self)
        ensures
            directive == Self::ConnectSrc(values),
    {
        Self::ConnectSrc(values)
    }

    /// `default-src`: the fallback for the other fetch directives.
    pub fn default_src(values: Vec<&'a str>) -> (directive: Self)
        ensures
            directive == Self::DefaultSrc(values),
    {
        Self::DefaultSrc(values)
    }

    /// `font-src`: sources for fonts.
    pub fn font_src(values: Vec<&'a str>) -> (directive: Self)
        ensures
            directive == Self::FontSrc(values),
    {
        Self::FontSrc(values)
    }

    /// `frame-src`: sources for nested browsing contexts.
    pub fn frame_src(values: Vec<&'a str>) -> (directive: Self)
        ensures
            directive == Self::FrameSrc(values),
    {
        Self::FrameSrc(values)
    }

    /// `img-src`: sources for images and favicons.
    pub fn img_src(values: Vec<&'a str>) -> (directive: Self)
        ensures
            directive == Self::ImgSrc(values),
    {
        Self::ImgSrc(values)
    }

    /// `manifest-src`: sources for application manifests.
    pub fn manifest_src(values: Vec<&'a str>) -> (directive: Self)
        ensures
            directive == Self::ManifestSrc(values),
    {
        Self::ManifestSrc(values)
    }

    /// `media-src`: sources for audio and video.
    pub fn media_src(values: Vec<&'a str>) -> (directive: Self)
        ensures
            directive == Self::MediaSrc(values),
    {
        Self::MediaSrc(values)
    }

    /// `object-src`: sources for plugins and embedded objects.
    pub fn object_src(values: Vec<&'a str>) -> (directive: Self)
        ensures
            directive == Self::ObjectSrc(values),
    {
        Self::ObjectSrc(values)
    }

    /// `prefetch-src`: sources that may be prefetched or prerendered.
    pub fn prefetch_src(values: Vec<&'a str>) -> (directive: Self)
        ensures
            directive == Self::PrefetchSrc(values),
    {
        Self::PrefetchSrc(values)
    }

    /// `script-src`: sources for scripts.
    pub fn script_src(values: Vec<&'a str>) -> (directive: Self)
        ensures
            directive == Self::ScriptSrc(values),
    {
        Self::ScriptSrc(values)
    }

    /// `script-src-elem`: sources for script elements.
    pub fn script_src_elem(values: Vec<&'a str>) -> (directive: Self)
        ensures
            directive == Self::ScriptSrcElem(values),
    {
        Self::ScriptSrcElem(values)
    }

    /// `script-src-attr`: sources for inline event handlers.
    pub fn script_src_attr(values: Vec<&'a str>) -> (directive: Self)
        ensures
            directive == Self::ScriptSrcAttr(values),
    {
        Self::ScriptSrcAttr(values)
    }

    /// `style-src`: sources for stylesheets.
    pub fn style_src(values: Vec<&'a str>) -> (directive: Self)
        ensures
            directive == Self::StyleSrc(values),
    {
        Self::StyleSrc(values)
    }

    /// `style-src-elem`: sources for style elements.
    pub fn style_src_elem(values: Vec<&'a str>) -> (directive: Self)
        ensures
            directive == Self::StyleSrcElem(values),
    {
        Self::StyleSrcElem(values)
    }

    /// `style-src-attr`: sources for inline style attributes.
    pub fn style_src_attr(values: Vec<&'a str>) -> (directive: Self)
        ensures
            directive == Self::StyleSrcAttr(values),
    {
        Self::StyleSrcAttr(values)
    }

    /// `worker-src`: sources for worker scripts.
    pub fn worker_src(values: Vec<&'a str>) -> (directive: Self)
        ensures
            directive == Self::WorkerSrc(values),
    {
        Self::WorkerSrc(values)
    }

    /// `base-uri`: uRLs allowed in a document's base element.
    pub fn base_uri(values: Vec<&'a str>) -> (directive: Self)
        ensures
            directive == Self::BaseUri(values),
    {
        Self::BaseUri(values)
    }

    /// `sandbox`: sandbox flags applied to the resource.
    pub fn sandbox(values: Vec<&'a str>) -> (directive: Self)
        ensures
            directive == Self::Sandbox(values),
    {
        Self::Sandbox(values)
    }

    /// `form-action`: targets allowed for form submissions.
    pub fn form_action(values: Vec<&'a str>) -> (directive: Self)
        ensures
            directive == Self::FormAction(values),
    {
        Self::FormAction(values)
    }

    /// `frame-ancestors`: parents that may embed the page.
    pub fn frame_ancestors(values: Vec<&'a str>) -> (directive: Self)
        ensures
            directive == Self::FrameAncestors(values),
    {
        Self::FrameAncestors(values)
    }

    /// `report-to`: reporting endpoints; rendered under `report-to` and again
    /// under the older `report-uri`.
    pub fn report_to(values: Vec<&'a str>) -> (directive: Self)
        ensures
            directive == Self::ReportTo(values),
    {
        Self::ReportTo(values)
    }

    /// `require-trusted-types-for`: sinks for which trusted types are required.
    pub fn require_trusted_types_for(values: Vec<&'a str>) -> (directive: Self)
        ensures
            directive == Self::RequireTrustedTypesFor(values),
    {
        Self::RequireTrustedTypesFor(values)
    }

    /// `trusted-types`: names of the trusted type policies that may be created.
    pub fn trusted_types(values: Vec<&'a str>) -> (directive: Self)
        ensures
            directive == Self::TrustedTypes(values),
    {
        Self::TrustedTypes(values)
    }

    /// `upgrade-insecure-requests`: load insecure URLs over a secure channel.
    pub fn upgrade_insecure_requests() -> (directive: Self)
        ensures
            directive == Self::UpgradeInsecureRequests,
    {
        Self::UpgradeInsecureRequests
    }

    /// Renders the directive as it is written in a policy.
    pub fn to_string(&self) -> (out: String)
        ensures
            out@ == self.text(),
    {
        match self {
            Self::ChildSrc(values) => write_clause("child-src", values),
            Self::ConnectSrc(values) => write_clause("connect-src", values),
            Self::DefaultSrc(values) => write_clause("default-src", values),
            Self::FontSrc(values) => write_clause("font-src", values),
            Self::FrameSrc(values) => write_clause("frame-src", values),
            Self::ImgSrc(values) => write_clause("img-src", values),
            Self::ManifestSrc(values) => write_clause("manifest-src", values),
            Self::MediaSrc(values) => write_clause("media-src", values),
            Self::ObjectSrc(values) => write_clause("object-src", values),
            Self::PrefetchSrc(values) => write_clause("prefetch-src", values),
            Self::ScriptSrc(values) => write_clause("script-src", values),
            Self::ScriptSrcElem(values) => write_clause("script-src-elem", values),
            Self::ScriptSrcAttr(values) => write_clause("script-src-attr", values),
            Self::StyleSrc(values) => write_clause("style-src", values),
            Self::StyleSrcElem(values) => write_clause("style-src-elem", values),
            Self::StyleSrcAttr(values) => write_clause("style-src-attr", values),
            Self::WorkerSrc(values) => write_clause("worker-src", values),
            Self::BaseUri(values) => write_clause("base-uri", values),
            Self::Sandbox(values) => write_clause("sandbox", values),
            Self::FormAction(values) => write_clause("form-action", values),
            Self::FrameAncestors(values) => write_clause("frame-ancestors", values),
            Self::ReportTo(values) => {
                let mut out = write_clause("report-to", values);
                out.append("; ");
                out.append(write_clause("report-uri", values).as_str());
                out
            },
            Self::RequireTrustedTypesFor(values) => write_clause(
                "require-trusted-types-for",
                values,
            ),
            Self::TrustedTypes(values) => write_clause("trusted-types", values),
            Self::UpgradeInsecureRequests => "upgrade-insecure-requests".to_string(),
        }
    }
}

/// A keyword followed by a space and its values, which are separated by
/// single spaces.
pub open spec fn clause(keyword: Seq<char>, values: Seq<Seq<char>>) -> Seq<char> {
    keyword + " "@ + text::joined(values, " "@)
}

fn write_clause(keyword: &str, values: &Vec<&str>) -> (out: String)
    ensures
        out@ == clause(keyword@, text::texts(values@)),
{
    let mut out = keyword.to_string();
    out.append(" ");
    out.append(text::join(values, " ").as_str());
    out
}

/// The texts of a list of directives, in order.
pub open spec fn fragments(directives: Seq<ContentSecurityPolicyDirective<'_>>) -> Seq<Seq<char>> {
    directives.map_values(|directive: ContentSecurityPolicyDirective<'_>| directive.text())
}

/// The `Content-Security-Policy` header.
///
/// A policy lists directives in the order in which they were added. A
/// directive that is added twice is listed, and rendered, twice. In
/// report-only mode the same value is sent under another field name.
#[derive(Clone)]
pub struct ContentSecurityPolicy<'a> {
    directives: Vec<ContentSecurityPolicyDirective<'a>>,
    report_only: bool,
}

impl<'a> ContentSecurityPolicy<'a> {
    /// The directives of the policy, in the order in which they were added.
    pub closed spec fn directives(&self) -> Seq<ContentSecurityPolicyDirective<'a>> {
        self.directives@
    }

    /// Whether the policy is sent in report-only mode.
    pub closed spec fn is_report_only(&self) -> bool {
        self.report_only
    }

    /// Whether this policy is `before` with `directive` added at the end
    /// and the mode unchanged.
    pub open spec fn extends(
        &self,
        before: Self,
        directive: ContentSecurityPolicyDirective<'a>,
    ) -> bool {
        &&& self.directives() == before.directives().push(directive)
        &&& self.is_report_only() == before.is_report_only()
    }

    /// A policy without directives, not in report-only mode.
    pub fn new() -> (policy: Self)
        ensures
            policy.directives() == Seq::<ContentSecurityPolicyDirective<'a>>::empty(),
            !policy.is_report_only(),
    {
        Self { directives: Vec::new(), report_only: false }
    }

    fn directive(self, directive: ContentSecurityPolicyDirective<'a>) -> (policy: Self)
        ensures
            policy.extends(self, directive),
    {
        let mut policy = self;
        policy.directives.push(directive);
        policy
    }

    /// Adds `child-src`: sources for workers and nested browsing contexts.
    pub fn child_src(self, values: Vec<&'a str>) -> (policy: Self)
        ensures
            policy.extends(self, ContentSecurityPolicyDirective::ChildSrc(values)),
    {
        self.directive(ContentSecurityPolicyDirective::child_src(values))
    }

    /// Adds `connect-src`: targets that scripts may connect to.
    pub fn connect_src(self, values: Vec<&'a str>) -> (policy: Self)
        ensures
            policy.extends(self, ContentSecurityPolicyDirective::ConnectSrc(values)),
    {
        self.directive(ContentSecurityPolicyDirective::connect_src(values))
    }

    /// Adds `default-src`: the fallback for the other fetch directives.
    pub fn default_src(self, values: Vec<&'a str>) -> (policy: Self)
        ensures
            policy.extends(self, ContentSecurityPolicyDirective::DefaultSrc(values)),
    {
        self.directive(ContentSecurityPolicyDirective::default_src(values))
    }

    /// Adds `font-src`: sources for fonts.
    pub fn font_src(self, values: Vec<&'a str>) -> (policy: Self)
        ensures
            policy.extends(self, ContentSecurityPolicyDirective::FontSrc(values)),
    {
        self.directive(ContentSecurityPolicyDirective::font_src(values))
    }

    /// Adds `frame-src`: sources for nested browsing contexts.
    pub fn frame_src(self, values: Vec<&'a str>) -> (policy: Self)
        ensures
            policy.extends(self, ContentSecurityPolicyDirective::FrameSrc(values)),
    {
        self.directive(ContentSecurityPolicyDirective::frame_src(values))
    }

    /// Adds `img-src`: sources for images and favicons.
    pub fn img_src(self, values: Vec<&'a str>) -> (policy: Self)
        ensures
            policy.extends(self, ContentSecurityPolicyDirective::ImgSrc(values)),
    {
        self.directive(ContentSecurityPolicyDirective::img_src(values))
    }

    /// Adds `manifest-src`: sources for application manifests.
    pub fn manifest_src(self, values: Vec<&'a str>) -> (policy: Self)
        ensures
            policy.extends(self, ContentSecurityPolicyDirective::ManifestSrc(values)),
    {
        self.directive(ContentSecurityPolicyDirective::manifest_src(values))
    }

    /// Adds `media-src`: sources for audio and video.
    pub fn media_src(self, values: Vec<&'a str>) -> (policy: Self)
        ensures
            policy.extends(self, ContentSecurityPolicyDirective::MediaSrc(values)),
    {
        self.directive(ContentSecurityPolicyDirective::media_src(values))
    }

    /// Adds `object-src`: sources for plugins and embedded objects.
    pub fn object_src(self, values: Vec<&'a str>) -> (policy: Self)
        ensures
            policy.extends(self, ContentSecurityPolicyDirective::ObjectSrc(values)),
    {
        self.directive(ContentSecurityPolicyDirective::object_src(values))
    }

    /// Adds `prefetch-src`: sources that may be prefetched or prerendered.
    pub fn prefetch_src(self, values: Vec<&'a str>) -> (policy: Self)
        ensures
            policy.extends(self, ContentSecurityPolicyDirective::PrefetchSrc(values)),
    {
        self.directive(ContentSecurityPolicyDirective::prefetch_src(values))
    }

    /// Adds `script-src`: sources for scripts.
    pub fn script_src(self, values: Vec<&'a str>) -> (policy: Self)
        ensures
            policy.extends(self, ContentSecurityPolicyDirective::ScriptSrc(values)),
    {
        self.directive(ContentSecurityPolicyDirective::script_src(values))
    }

    /// Adds `script-src-elem`: sources for script elements.
    pub fn script_src_elem(self, values: Vec<&'a str>) -> (policy: Self)
        ensures
            policy.extends(self, ContentSecurityPolicyDirective::ScriptSrcElem(values)),
    {
        self.directive(ContentSecurityPolicyDirective::script_src_elem(values))
    }

    /// Adds `script-src-attr`: sources for inline event handlers.
    pub fn script_src_attr(self, values: Vec<&'a str>) -> (policy: Self)
        ensures
            policy.extends(self, ContentSecurityPolicyDirective::ScriptSrcAttr(values)),
    {
        self.directive(ContentSecurityPolicyDirective::script_src_attr(values))
    }

    /// Adds `style-src`: sources for stylesheets.
    pub fn style_src(self, values: Vec<&'a str>) -> (policy: Self)
        ensures
            policy.extends(self, ContentSecurityPolicyDirective::StyleSrc(values)),
    {
        self.directive(ContentSecurityPolicyDirective::style_src(values))
    }

    /// Adds `style-src-elem`: sources for style elements.
    pub fn style_src_elem(self, values: Vec<&'a str>) -> (policy: Self)
        ensures
            policy.extends(self, ContentSecurityPolicyDirective::StyleSrcElem(values)),
    {
        self.directive(ContentSecurityPolicyDirective::style_src_elem(values))
    }

    /// Adds `style-src-attr`: sources for inline style attributes.
    pub fn style_src_attr(self, values: Vec<&'a str>) -> (policy: Self)
        ensures
            policy.extends(self, ContentSecurityPolicyDirective::StyleSrcAttr(values)),
    {
        self.directive(ContentSecurityPolicyDirective::style_src_attr(values))
    }

    /// Adds `worker-src`: sources for worker scripts.
    pub fn worker_src(self, values: Vec<&'a str>) -> (policy: Self)
        ensures
            policy.extends(self, ContentSecurityPolicyDirective::WorkerSrc(values)),
    {
        self.directive(ContentSecurityPolicyDirective::worker_src(values))
    }

    /// Adds `base-uri`: uRLs allowed in a document's base element.
    pub fn base_uri(self, values: Vec<&'a str>) -> (policy: Self)
        ensures
            policy.extends(self, ContentSecurityPolicyDirective::BaseUri(values)),
    {
        self.directive(ContentSecurityPolicyDirective::base_uri(values))
    }

    /// Adds `sandbox`: sandbox flags applied to the resource.
    pub fn sandbox(self, values: Vec<&'a str>) -> (policy: Self)
        ensures
            policy.extends(self, ContentSecurityPolicyDirective::Sandbox(values)),
    {
        self.directive(ContentSecurityPolicyDirective::sandbox(values))
    }

    /// Adds `form-action`: targets allowed for form submissions.
    pub fn form_action(self, values: Vec<&'a str>) -> (policy: Self)
        ensures
            policy.extends(self, ContentSecurityPolicyDirective::FormAction(values)),
    {
        self.directive(ContentSecurityPolicyDirective::form_action(values))
    }

    /// Adds `frame-ancestors`: parents that may embed the page.
    pub fn frame_ancestors(self, values: Vec<&'a str>) -> (policy: Self)
        ensures
            policy.extends(self, ContentSecurityPolicyDirective::FrameAncestors(values)),
    {
        self.directive(ContentSecurityPolicyDirective::frame_ancestors(values))
    }

    /// Adds `report-to`: reporting endpoints; rendered under `report-to` and
    /// again under the older `report-uri`.
    pub fn report_to(self, values: Vec<&'a str>) -> (policy: Self)
        ensures
            policy.extends(self, ContentSecurityPolicyDirective::ReportTo(values)),
    {
        self.directive(ContentSecurityPolicyDirective::report_to(values))
    }

    /// Adds `require-trusted-types-for`: sinks for which trusted types are required.
    pub fn require_trusted_types_for(self, values: Vec<&'a str>) -> (policy: Self)
        ensures
            policy.extends(self, ContentSecurityPolicyDirective::RequireTrustedTypesFor(values)),
    {
        self.directive(ContentSecurityPolicyDirective::require_trusted_types_for(values))
    }

    /// Adds `trusted-types`: names of the trusted type policies that may be created.
    pub fn trusted_types(self, values: Vec<&'a str>) -> (policy: Self)
        ensures
            policy.extends(self, ContentSecurityPolicyDirective::TrustedTypes(values)),
    {
        self.directive(ContentSecurityPolicyDirective::trusted_types(values))
    }

    /// Adds `upgrade-insecure-requests`: load insecure URLs over a secure
    /// channel.
    pub fn upgrade_insecure_requests(self) -> (policy: Self)
        ensures
            policy.extends(self, ContentSecurityPolicyDirective::UpgradeInsecureRequests),
    {
        self.directive(ContentSecurityPolicyDirective::upgrade_insecure_requests())
    }

    /// Switches to report-only mode: violations are reported, not blocked,
    /// and the header is sent as `Content-Security-Policy-Report-Only`.
    pub fn report_only(self) -> (policy: Self)
        ensures
            policy.directives() == self.directives(),
            policy.is_report_only(),
    {
        let mut policy = self;
        policy.report_only = true;
        policy
    }
}

impl<'a> Rendering for ContentSecurityPolicy<'a> {
    /// `Content-Security-Policy`, or `Content-Security-Policy-Report-Only`
    /// in report-only mode.
    open spec fn name_text(&self) -> Seq<char> {
        if self.is_report_only() {
            "Content-Security-Policy-Report-Only"@
        } else {
            "Content-Security-Policy"@
        }
    }

    /// The directives' texts in the order in which they were added,
    /// separated by a semicolon and a space.
    open spec fn value_text(&self) -> Seq<char> {
        text::joined(fragments(self.directives()), "; "@)
    }

    proof fn lemma_rendering(&self, line: Line) {
    }
}

impl<'a> Header for ContentSecurityPolicy<'a> {
    fn name(&self) -> (name: &'static str)
        ensures
            name@ == self.name_text(),
    {
        if self.report_only {
            "Content-Security-Policy-Report-Only"
        } else {
            "Content-Security-Policy"
        }
    }

    fn value(&self) -> (value: String)
        ensures
            value@ == self.value_text(),
    {
        let mut value = String::new();
        let mut i: usize = 0;
        while i < self.directives.len()
            invariant
                i <= self.directives.len(),
                value@ == text::joined(fragments(self.directives@).take(i as int), "; "@),
            decreases self.directives.len() - i,
        {
            proof {
                let done = fragments(self.directives@).take(i as int);
                text::lemma_joined_push(done, "; "@, self.directives@[i as int].text());
                assert(fragments(self.directives@).take(i + 1) =~= done.push(
                    self.directives@[i as int].text(),
                ));
            }
            if i > 0 {
                value.append("; ");
            }
            value.append(self.directives[i].to_string().as_str());
            i += 1;
        }
        assert(fragments(self.directives@).take(self.directives.len() as int) =~= fragments(
            self.directives@,
        ));
        value
    }
}

/// The value of the default policy.
pub open spec fn default_policy_text() -> Seq<char> {
    "default-src 'self'; base-uri 'self'; font-src 'self' https: data:; form-action 'self'; frame-ancestors 'self'; img-src 'self' data:; object-src 'none'; script-src 'self'; script-src-attr 'none'; style-src 'self' https: 'unsafe-inline'; upgrade-insecure-requests"@
}

/// The texts of the default policy's directives, in order.
pub open spec fn default_fragments() -> Seq<Seq<char>> {
    seq![
        clause("default-src"@, seq!["'self'"@]),
        clause("base-uri"@, seq!["'self'"@]),
        clause("font-src"@, seq!["'self'"@, "https:"@, "data:"@]),
        clause("form-action"@, seq!["'self'"@]),
        clause("frame-ancestors"@, seq!["'self'"@]),
        clause("img-src"@, seq!["'self'"@, "data:"@]),
        clause("object-src"@, seq!["'none'"@]),
        clause("script-src"@, seq!["'self'"@]),
        clause("script-src-attr"@, seq!["'none'"@]),
        clause("style-src"@, seq!["'self'"@, "https:"@, "'unsafe-inline'"@]),
        "upgrade-insecure-requests"@,
    ]
}

impl<'a> Default for ContentSecurityPolicy<'a> {
    /// The default policy: eleven directives, in this order, that allow
    /// content from the site itself and little else.
    ///
    /// ```text
    /// default-src 'self';
    /// base-uri 'self';
    /// font-src 'self' https: data:;
    /// form-action 'self';
    /// frame-ancestors 'self';
    /// img-src 'self' data:;
    /// object-src 'none';
    /// script-src 'self';
    /// script-src-attr 'none';
    /// style-src 'self' https: 'unsafe-inline';
    /// upgrade-insecure-requests
    /// ```
    fn default() -> (policy: Self)
        ensures
            !policy.is_report_only(),
            fragments(policy.directives()) == default_fragments(),
            policy.value_text() == default_policy_text(),
    {
        let policy = Self::new();
        let default_src: Vec<&str> = vec!["'self'"];
        let policy = policy.default_src(default_src);
        let base_uri: Vec<&str> = vec!["'self'"];
        let policy = policy.base_uri(base_uri);
        let font_src: Vec<&str> = vec!["'self'", "https:", "data:"];
        let policy = policy.font_src(font_src);
        let form_action: Vec<&str> = vec!["'self'"];
        let policy = policy.form_action(form_action);
        let frame_ancestors: Vec<&str> = vec!["'self'"];
        let policy = policy.frame_ancestors(frame_ancestors);
        let img_src: Vec<&str> = vec!["'self'", "data:"];
        let policy = policy.img_src(img_src);
        let object_src: Vec<&str> = vec!["'none'"];
        let policy = policy.object_src(object_src);
        let script_src: Vec<&str> = vec!["'self'"];
        let policy = policy.script_src(script_src);
        let script_src_attr: Vec<&str> = vec!["'none'"];
        let policy = policy.script_src_attr(script_src_attr);
        let style_src: Vec<&str> = vec!["'self'", "https:", "'unsafe-inline'"];
        let policy = policy.style_src(style_src);
        let policy = policy.upgrade_insecure_requests();
        proof {
            assert(text::texts(default_src@) =~= seq!["'self'"@]);
            assert(text::texts(base_uri@) =~= seq!["'self'"@]);
            assert(text::texts(font_src@) =~= seq!["'self'"@, "https:"@, "data:"@]);
            assert(text::texts(form_action@) =~= seq!["'self'"@]);
            assert(text::texts(frame_ancestors@) =~= seq!["'self'"@]);
            assert(text::texts(img_src@) =~= seq!["'self'"@, "data:"@]);
            assert(text::texts(object_src@) =~= seq!["'none'"@]);
            assert(text::texts(script_src@) =~= seq!["'self'"@]);
            assert(text::texts(script_src_attr@) =~= seq!["'none'"@]);
            assert(text::texts(style_src@) =~= seq!["'self'"@, "https:"@, "'unsafe-inline'"@]);
            assert(fragments(policy.directives()) =~= default_fragments());
            lemma_default_policy_text();
        }
        policy
    }
}

/// The default policy's directives, joined, are the default policy's value.
pub proof fn lemma_default_policy_text()
    ensures
        text::joined(default_fragments(), "; "@) == default_policy_text(),
{
    let all = default_fragments();
    let whole = default_policy_text();
    reveal_strlit("'self'");
    reveal_strlit("'none'");
    reveal_strlit("https:");
    reveal_strlit("data:");
    reveal_strlit("'unsafe-inline'");
    reveal_strlit(" ");
    reveal_strlit("; ");
    reveal_strlit(
        "default-src 'self'; base-uri 'self'; font-src 'self' https: data:; form-action 'self'; frame-ancestors 'self'; img-src 'self' data:; object-src 'none'; script-src 'self'; script-src-attr 'none'; style-src 'self' https: 'unsafe-inline'; upgrade-insecure-requests",
    );
    assert(text::joined(all.take(1), "; "@) == whole.subrange(0, 18)) by {
        reveal_strlit("default-src");
        lemma_clause_of_one("default-src"@, "'self'"@);
        assert(all.take(1) =~= seq![all[0]]);
        assert(all[0] =~= whole.subrange(0, 18));
    }
    assert(text::joined(all.take(2), "; "@) == whole.subrange(0, 35)) by {
        reveal_strlit("base-uri");
        lemma_clause_of_one("base-uri"@, "'self'"@);
        text::lemma_joined_push(all.take(1), "; "@, all[1]);
        assert(all.take(2) =~= all.take(1).push(all[1]));
        assert(whole.subrange(0, 35) =~= whole.subrange(0, 18) + "; "@ + all[1]);
    }
    assert(text::joined(all.take(3), "; "@) == whole.subrange(0, 65)) by {
        reveal_strlit("font-src");
        lemma_clause_of_three("font-src"@, "'self'"@, "https:"@, "data:"@);
        text::lemma_joined_push(all.take(2), "; "@, all[2]);
        assert(all.take(3) =~= all.take(2).push(all[2]));
        assert(whole.subrange(0, 65) =~= whole.subrange(0, 35) + "; "@ + all[2]);
    }
    assert(text::joined(all.take(4), "; "@) == whole.subrange(0, 85)) by {
        reveal_strlit("form-action");
        lemma_clause_of_one("form-action"@, "'self'"@);
        text::lemma_joined_push(all.take(3), "; "@, all[3]);
        assert(all.take(4) =~= all.take(3).push(all[3]));
        assert(whole.subrange(0, 85) =~= whole.subrange(0, 65) + "; "@ + all[3]);
    }
    assert(text::joined(all.take(5), "; "@) == whole.subrange(0, 109)) by {
        reveal_strlit("frame-ancestors");
        lemma_clause_of_one("frame-ancestors"@, "'self'"@);
        text::lemma_joined_push(all.take(4), "; "@, all[4]);
        assert(all.take(5) =~= all.take(4).push(all[4]));
        assert(whole.subrange(0, 109) =~= whole.subrange(0, 85) + "; "@ + all[4]);
    }
    assert(text::joined(all.take(6), "; "@) == whole.subrange(0, 131)) by {
        reveal_strlit("img-src");
        lemma_clause_of_two("img-src"@, "'self'"@, "data:"@);
        text::lemma_joined_push(all.take(5), "; "@, all[5]);
        assert(all.take(6) =~= all.take(5).push(all[5]));
        assert(whole.subrange(0, 131) =~= whole.subrange(0, 109) + "; "@ + all[5]);
    }
    assert(text::joined(all.take(7), "; "@) == whole.subrange(0, 150)) by {
        reveal_strlit("object-src");
        lemma_clause_of_one("object-src"@, "'none'"@);
        text::lemma_joined_push(all.take(6), "; "@, all[6]);
        assert(all.take(7) =~= all.take(6).push(all[6]));
        assert(whole.subrange(0, 150) =~= whole.subrange(0, 131) + "; "@ + all[6]);
    }
    assert(text::joined(all.take(8), "; "@) == whole.subrange(0, 169)) by {
        reveal_strlit("script-src");
        lemma_clause_of_one("script-src"@, "'self'"@);
        text::lemma_joined_push(all.take(7), "; "@, all[7]);
        assert(all.take(8) =~= all.take(7).push(all[7]));
        assert(whole.subrange(0, 169) =~= whole.subrange(0, 150) + "; "@ + all[7]);
    }
    assert(text::joined(all.take(9), "; "@) == whole.subrange(0, 193)) by {
        reveal_strlit("script-src-attr");
        lemma_clause_of_one("script-src-attr"@, "'none'"@);
        text::lemma_joined_push(all.take(8), "; "@, all[8]);
        assert(all.take(9) =~= all.take(8).push(all[8]));
        assert(whole.subrange(0, 193) =~= whole.subrange(0, 169) + "; "@ + all[8]);
    }
    assert(text::joined(all.take(10), "; "@) == whole.subrange(0, 234)) by {
        reveal_strlit("style-src");
        lemma_clause_of_three("style-src"@, "'self'"@, "https:"@, "'unsafe-inline'"@);
        text::lemma_joined_push(all.take(9), "; "@, all[9]);
        assert(all.take(10) =~= all.take(9).push(all[9]));
        assert(whole.subrange(0, 234) =~= whole.subrange(0, 193) + "; "@ + all[9]);
    }
    assert(text::joined(all.take(11), "; "@) == whole.subrange(0, 261)) by {
        reveal_strlit("upgrade-insecure-requests");
        text::lemma_joined_push(all.take(10), "; "@, all[10]);
        assert(all.take(11) =~= all.take(10).push(all[10]));
        assert(whole.subrange(0, 261) =~= whole.subrange(0, 234) + "; "@ + all[10]);
    }
    assert(all.take(11) =~= all);
    assert(whole.subrange(0, 261) =~= whole);
}

/// Directive order is kept: a policy that extends another by one directive
/// renders as the other policy's value, then `; ` and the new directive's
/// text; a first directive renders as its text alone.
pub proof fn lemma_value_of_extended<'a>(
    before: ContentSecurityPolicy<'a>,
    directive: ContentSecurityPolicyDirective<'a>,
    after: ContentSecurityPolicy<'a>,
)
    requires
        after.extends(before, directive),
    ensures
        after.value_text() == if before.directives().len() == 0 {
            directive.text()
        } else {
            before.value_text() + "; "@ + directive.text()
        },
{
    text::lemma_joined_push(fragments(before.directives()), "; "@, directive.text());
    assert(fragments(after.directives()) =~= fragments(before.directives()).push(
        directive.text(),
    ));
}

proof fn lemma_clause_of_one(keyword: Seq<char>, a: Seq<char>)
    ensures
        clause(keyword, seq![a]) == keyword + " "@ + a,
{
}

proof fn lemma_clause_of_two(keyword: Seq<char>, a: Seq<char>, b: Seq<char>)
    ensures
        clause(keyword, seq![a, b]) == keyword + " "@ + (a + " "@ + b),
{
    text::lemma_joined_push(seq![a], " "@, b);
    assert(seq![a].push(b) =~= seq![a, b]);
}

proof fn lemma_clause_of_three(keyword: Seq<char>, a: Seq<char>, b: Seq<char>, c: Seq<char>)
    ensures
        clause(keyword, seq![a, b, c]) == keyword + " "@ + (a + " "@ + b + " "@ + c),
{
    text::lemma_joined_push(seq![a], " "@, b);
    assert(seq![a].push(b) =~= seq![a, b]);
    text::lemma_joined_push(seq![a, b], " "@, c);
    assert(seq![a, b].push(c) =~= seq![a, b, c]);
}

} // verus!
