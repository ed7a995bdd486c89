//! Which headers ntex accepts.
//!
//! A policy set is refused when one of its lines is no header line. The
//! names of the families of this library are header names, and what the
//! library writes itself is text that a header value may hold: a line is
//! refused only for a text that the caller supplied, and these laws say for
//! which.

use crate::cross_origin::CrossOriginEmbedderPolicy;
use crate::cross_origin::CrossOriginOpenerPolicy;
use crate::cross_origin::CrossOriginResourcePolicy;
use crate::cross_origin::OriginAgentCluster;
use crate::csp;
use crate::csp::ContentSecurityPolicy;
use crate::csp::ContentSecurityPolicyDirective;
use crate::field;
use crate::header::line_of;
use crate::header::Rendering;
use crate::helmet;
use crate::inject;
use crate::legacy::XContentTypeOptions;
use crate::legacy::XDNSPrefetchControl;
use crate::legacy::XDownloadOptions;
use crate::legacy::XFrameOptions;
use crate::legacy::XPermittedCrossDomainPolicies;
use crate::legacy::XPoweredBy;
use crate::legacy::XXSSProtection;
use crate::referrer::ReferrerPolicy;
use crate::text;
use crate::transport::StrictTransportSecurity;
use vstd::prelude::*;

verus! {

/// A text made of two parts is a header value exactly if both parts are.
pub proof fn lemma_value_concat(a: Seq<char>, b: Seq<char>)
    ensures
        field::is_field_value(a + b) <==> field::is_field_value(a) && field::is_field_value(b),
{
    let whole = a + b;
    if field::is_field_value(whole) {
        assert forall|i: int| 0 <= i < a.len() implies field::is_value_char(#[trigger] a[i]) by {
            assert(whole[i] == a[i]);
        }
        assert forall|i: int| 0 <= i < b.len() implies field::is_value_char(#[trigger] b[i]) by {
            assert(whole[a.len() + i] == b[i]);
        }
    }
    if field::is_field_value(a) && field::is_field_value(b) {
        assert forall|i: int| 0 <= i < whole.len() implies field::is_value_char(
            #[trigger] whole[i],
        ) by {
            if i < a.len() {
                assert(whole[i] == a[i]);
            } else {
                assert(whole[i] == b[i - a.len()]);
            }
        }
    }
}

/// Whether every text of a list is a header value.
pub open spec fn are_field_values(parts: Seq<Seq<char>>) -> bool {
    forall|i: int| 0 <= i < parts.len() ==> field::is_field_value(#[trigger] parts[i])
}

/// Texts joined with a separator that is a header value are a header value
/// exactly if each of them is.
pub proof fn lemma_value_joined(parts: Seq<Seq<char>>, separator: Seq<char>)
    requires
        field::is_field_value(separator),
    ensures
        field::is_field_value(text::joined(parts, separator)) <==> are_field_values(parts),
    decreases parts.len(),
{
    if parts.len() == 1 {
        assert(are_field_values(parts) <==> field::is_field_value(parts[0]));
    } else if parts.len() > 1 {
        let front = parts.drop_last();
        lemma_value_joined(front, separator);
        lemma_value_concat(text::joined(front, separator), separator);
        lemma_value_concat(text::joined(front, separator) + separator, parts.last());
        if are_field_values(parts) {
            assert forall|i: int| 0 <= i < front.len() implies field::is_field_value(
                #[trigger] front[i],
            ) by {
                assert(front[i] == parts[i]);
            }
            assert(field::is_field_value(parts[parts.len() - 1]));
        }
        if are_field_values(front) && field::is_field_value(parts.last()) {
            assert forall|i: int| 0 <= i < parts.len() implies field::is_field_value(
                #[trigger] parts[i],
            ) by {
                if i < front.len() {
                    assert(parts[i] == front[i]);
                }
            }
        }
    }
}

/// A number in decimal notation is a header value.
pub proof fn lemma_decimal_is_value(n: nat)
    ensures
        field::is_field_value(text::decimal(n)),
    decreases n,
{
    if n >= 10 {
        lemma_decimal_is_value(n / 10);
        assert(text::decimal(n) =~= text::decimal(n / 10) + seq![text::digit(n % 10)]);
        lemma_value_concat(text::decimal(n / 10), seq![text::digit(n % 10)]);
    }
}

/// A `Cross-Origin-Embedder-Policy` header is always accepted.
pub proof fn lemma_cross_origin_embedder_policy(header: CrossOriginEmbedderPolicy)
    ensures
        field::is_field_line(line_of(&header)),
{
    assert(field::is_field_name(header.name_text())) by {
        reveal_strlit("Cross-Origin-Embedder-Policy");
    }
    match header {
        CrossOriginEmbedderPolicy::UnsafeNone => {
            assert(field::is_field_value("unsafe-none"@)) by {
                reveal_strlit("unsafe-none");
            }
        },
        CrossOriginEmbedderPolicy::RequireCorp => {
            assert(field::is_field_value("require-corp"@)) by {
                reveal_strlit("require-corp");
            }
        },
        CrossOriginEmbedderPolicy::Credentialless => {
            assert(field::is_field_value("credentialless"@)) by {
                reveal_strlit("credentialless");
            }
        },
    }
}

/// A `Cross-Origin-Opener-Policy` header is always accepted.
pub proof fn lemma_cross_origin_opener_policy(header: CrossOriginOpenerPolicy)
    ensures
        field::is_field_line(line_of(&header)),
{
    assert(field::is_field_name(header.name_text())) by {
        reveal_strlit("Cross-Origin-Opener-Policy");
    }
    match header {
        CrossOriginOpenerPolicy::SameOrigin => {
            assert(field::is_field_value("same-origin"@)) by {
                reveal_strlit("same-origin");
            }
        },
        CrossOriginOpenerPolicy::SameOriginAllowPopups => {
            assert(field::is_field_value("same-origin-allow-popups"@)) by {
                reveal_strlit("same-origin-allow-popups");
            }
        },
        CrossOriginOpenerPolicy::UnsafeNone => {
            assert(field::is_field_value("unsafe-none"@)) by {
                reveal_strlit("unsafe-none");
            }
        },
    }
}

/// A `Cross-Origin-Resource-Policy` header is always accepted.
pub proof fn lemma_cross_origin_resource_policy(header: CrossOriginResourcePolicy)
    ensures
        field::is_field_line(line_of(&header)),
{
    assert(field::is_field_name(header.name_text())) by {
        reveal_strlit("Cross-Origin-Resource-Policy");
    }
    match header {
        CrossOriginResourcePolicy::SameOrigin => {
            assert(field::is_field_value("same-origin"@)) by {
                reveal_strlit("same-origin");
            }
        },
        CrossOriginResourcePolicy::SameSite => {
            assert(field::is_field_value("same-site"@)) by {
                reveal_strlit("same-site");
            }
        },
        CrossOriginResourcePolicy::CrossOrigin => {
            assert(field::is_field_value("cross-origin"@)) by {
                reveal_strlit("cross-origin");
            }
        },
    }
}

/// A `Referrer-Policy` header is always accepted.
pub proof fn lemma_referrer_policy(header: ReferrerPolicy)
    ensures
        field::is_field_line(line_of(&header)),
{
    assert(field::is_field_name(header.name_text())) by {
        reveal_strlit("Referrer-Policy");
    }
    match header {
        ReferrerPolicy::NoReferrer => {
            assert(field::is_field_value("no-referrer"@)) by {
                reveal_strlit("no-referrer");
            }
        },
        ReferrerPolicy::NoReferrerWhenDowngrade => {
            assert(field::is_field_value("no-referrer-when-downgrade"@)) by {
                reveal_strlit("no-referrer-when-downgrade");
            }
        },
        ReferrerPolicy::Origin => {
            assert(field::is_field_value("origin"@)) by {
                reveal_strlit("origin");
            }
        },
        ReferrerPolicy::OriginWhenCrossOrigin => {
            assert(field::is_field_value("origin-when-cross-origin"@)) by {
                reveal_strlit("origin-when-cross-origin");
            }
        },
        ReferrerPolicy::SameOrigin => {
            assert(field::is_field_value("same-origin"@)) by {
                reveal_strlit("same-origin");
            }
        },
        ReferrerPolicy::StrictOrigin => {
            assert(field::is_field_value("strict-origin"@)) by {
                reveal_strlit("strict-origin");
            }
        },
        ReferrerPolicy::StrictOriginWhenCrossOrigin => {
            assert(field::is_field_value("strict-origin-when-cross-origin"@)) by {
                reveal_strlit("strict-origin-when-cross-origin");
            }
        },
        ReferrerPolicy::UnsafeUrl => {
            assert(field::is_field_value("unsafe-url"@)) by {
                reveal_strlit("unsafe-url");
            }
        },
    }
}

/// A `X-Content-Type-Options` header is always accepted.
pub proof fn lemma_x_content_type_options(header: XContentTypeOptions)
    ensures
        field::is_field_line(line_of(&header)),
{
    assert(field::is_field_name(header.name_text())) by {
        reveal_strlit("X-Content-Type-Options");
    }
    match header {
        XContentTypeOptions::NoSniff => {
            assert(field::is_field_value("nosniff"@)) by {
                reveal_strlit("nosniff");
            }
        },
    }
}

/// A `X-DNS-Prefetch-Control` header is always accepted.
pub proof fn lemma_x_dns_prefetch_control(header: XDNSPrefetchControl)
    ensures
        field::is_field_line(line_of(&header)),
{
    assert(field::is_field_name(header.name_text())) by {
        reveal_strlit("X-DNS-Prefetch-Control");
    }
    match header {
        XDNSPrefetchControl::Off => {
            assert(field::is_field_value("off"@)) by {
                reveal_strlit("off");
            }
        },
        XDNSPrefetchControl::On => {
            assert(field::is_field_value("on"@)) by {
                reveal_strlit("on");
            }
        },
    }
}

/// A `X-Download-Options` header is always accepted.
pub proof fn lemma_x_download_options(header: XDownloadOptions)
    ensures
        field::is_field_line(line_of(&header)),
{
    assert(field::is_field_name(header.name_text())) by {
        reveal_strlit("X-Download-Options");
    }
    match header {
        XDownloadOptions::NoOpen => {
            assert(field::is_field_value("noopen"@)) by {
                reveal_strlit("noopen");
            }
        },
    }
}

/// A `X-Permitted-Cross-Domain-Policies` header is always accepted.
pub proof fn lemma_x_permitted_cross_domain_policies(header: XPermittedCrossDomainPolicies)
    ensures
        field::is_field_line(line_of(&header)),
{
    assert(field::is_field_name(header.name_text())) by {
        reveal_strlit("X-Permitted-Cross-Domain-Policies");
    }
    match header {
        XPermittedCrossDomainPolicies::NoPolicy => {
            assert(field::is_field_value("none"@)) by {
                reveal_strlit("none");
            }
        },
        XPermittedCrossDomainPolicies::MasterOnly => {
            assert(field::is_field_value("master-only"@)) by {
                reveal_strlit("master-only");
            }
        },
        XPermittedCrossDomainPolicies::ByContentType => {
            assert(field::is_field_value("by-content-type"@)) by {
                reveal_strlit("by-content-type");
            }
        },
        XPermittedCrossDomainPolicies::ByFtpFilename => {
            assert(field::is_field_value("by-ftp-filename"@)) by {
                reveal_strlit("by-ftp-filename");
            }
        },
        XPermittedCrossDomainPolicies::All => {
            assert(field::is_field_value("all"@)) by {
                reveal_strlit("all");
            }
        },
    }
}

/// An `Origin-Agent-Cluster` header is always accepted.
pub proof fn lemma_origin_agent_cluster(header: OriginAgentCluster)
    ensures
        field::is_field_line(line_of(&header)),
{
    assert(field::is_field_name(header.name_text())) by {
        reveal_strlit("Origin-Agent-Cluster");
    }
    assert(field::is_field_value("?1"@)) by {
        reveal_strlit("?1");
    }
    assert(field::is_field_value("?0"@)) by {
        reveal_strlit("?0");
    }
}

/// A `Strict-Transport-Security` header is always accepted.
pub proof fn lemma_strict_transport_security(header: StrictTransportSecurity)
    ensures
        field::is_field_line(line_of(&header)),
{
    assert(field::is_field_name(header.name_text())) by {
        reveal_strlit("Strict-Transport-Security");
    }
    assert(field::is_field_value("max-age="@)) by {
        reveal_strlit("max-age=");
    }
    assert(field::is_field_value("; includeSubDomains"@)) by {
        reveal_strlit("; includeSubDomains");
    }
    assert(field::is_field_value("; preload"@)) by {
        reveal_strlit("; preload");
    }
    let age = text::decimal(header.max_age_seconds() as nat);
    let sub_domains = if header.covers_sub_domains() {
        "; includeSubDomains"@
    } else {
        Seq::empty()
    };
    let preload = if header.asks_preload() {
        "; preload"@
    } else {
        Seq::empty()
    };
    lemma_decimal_is_value(header.max_age_seconds() as nat);
    lemma_value_concat("max-age="@, age);
    lemma_value_concat("max-age="@ + age, sub_domains);
    lemma_value_concat("max-age="@ + age + sub_domains, preload);
}

/// An `X-Frame-Options` header is accepted exactly if the URI of
/// `ALLOW-FROM`, where there is one, is a header value.
pub proof fn lemma_x_frame_options(header: XFrameOptions)
    ensures
        field::is_field_line(line_of(&header)) <==> (header matches XFrameOptions::AllowFrom(uri)
            ==> field::is_field_value(uri@)),
{
    assert(field::is_field_name(header.name_text())) by {
        reveal_strlit("X-Frame-Options");
    }
    match header {
        XFrameOptions::Deny => {
            assert(field::is_field_value("DENY"@)) by {
                reveal_strlit("DENY");
            }
        },
        XFrameOptions::SameOrigin => {
            assert(field::is_field_value("SAMEORIGIN"@)) by {
                reveal_strlit("SAMEORIGIN");
            }
        },
        XFrameOptions::AllowFrom(uri) => {
            assert(field::is_field_value("ALLOW-FROM "@)) by {
                reveal_strlit("ALLOW-FROM ");
            }
            lemma_value_concat("ALLOW-FROM "@, uri@);
        },
    }
}

/// An `X-XSS-Protection` header is accepted exactly if the report URI,
/// where the filter is on and there is one, is a header value.
pub proof fn lemma_x_xss_protection(header: XXSSProtection)
    ensures
        field::is_field_line(line_of(&header)) <==> (header.is_on() ==> match header.report_uri() {
            Some(uri) => field::is_field_value(uri),
            None => true,
        }),
{
    assert(field::is_field_name(header.name_text())) by {
        reveal_strlit("X-XSS-Protection");
    }
    assert(field::is_field_value("0"@)) by {
        reveal_strlit("0");
    }
    assert(field::is_field_value("1"@)) by {
        reveal_strlit("1");
    }
    assert(field::is_field_value("; mode=block"@)) by {
        reveal_strlit("; mode=block");
    }
    assert(field::is_field_value("; report="@)) by {
        reveal_strlit("; report=");
    }
    if header.is_on() {
        let block = if header.blocks() {
            "; mode=block"@
        } else {
            Seq::empty()
        };
        let report = match header.report_uri() {
            Some(uri) => "; report="@ + uri,
            None => Seq::empty(),
        };
        lemma_value_concat("1"@, block);
        lemma_value_concat("1"@ + block, report);
        if let Some(uri) = header.report_uri() {
            lemma_value_concat("; report="@, uri);
        }
    }
}

/// An `X-Powered-By` header is accepted exactly if its text is a header
/// value.
pub proof fn lemma_x_powered_by(header: XPoweredBy)
    ensures
        field::is_field_line(line_of(&header)) <==> field::is_field_value(header.comment()),
{
    assert(field::is_field_name(header.name_text())) by {
        reveal_strlit("X-Powered-By");
    }
}

/// The keyword of a directive is a header value.
pub proof fn lemma_keyword_is_value(directive: ContentSecurityPolicyDirective<'_>)
    ensures
        field::is_field_value(directive.keyword()),
{
    match directive {
        ContentSecurityPolicyDirective::ChildSrc(_) => {
            assert(field::is_field_value("child-src"@)) by {
                reveal_strlit("child-src");
            }
        },
        ContentSecurityPolicyDirective::ConnectSrc(_) => {
            assert(field::is_field_value("connect-src"@)) by {
                reveal_strlit("connect-src");
            }
        },
        ContentSecurityPolicyDirective::DefaultSrc(_) => {
            assert(field::is_field_value("default-src"@)) by {
                reveal_strlit("default-src");
            }
        },
        ContentSecurityPolicyDirective::FontSrc(_) => {
            assert(field::is_field_value("font-src"@)) by {
                reveal_strlit("font-src");
            }
        },
        ContentSecurityPolicyDirective::FrameSrc(_) => {
            assert(field::is_field_value("frame-src"@)) by {
                reveal_strlit("frame-src");
            }
        },
        ContentSecurityPolicyDirective::ImgSrc(_) => {
            assert(field::is_field_value("img-src"@)) by {
                reveal_strlit("img-src");
            }
        },
        ContentSecurityPolicyDirective::ManifestSrc(_) => {
            assert(field::is_field_value("manifest-src"@)) by {
                reveal_strlit("manifest-src");
            }
        },
        ContentSecurityPolicyDirective::MediaSrc(_) => {
            assert(field::is_field_value("media-src"@)) by {
                reveal_strlit("media-src");
            }
        },
        ContentSecurityPolicyDirective::ObjectSrc(_) => {
            assert(field::is_field_value("object-src"@)) by {
                reveal_strlit("object-src");
            }
        },
        ContentSecurityPolicyDirective::PrefetchSrc(_) => {
            assert(field::is_field_value("prefetch-src"@)) by {
                reveal_strlit("prefetch-src");
            }
        },
        ContentSecurityPolicyDirective::ScriptSrc(_) => {
            assert(field::is_field_value("script-src"@)) by {
                reveal_strlit("script-src");
            }
        },
        ContentSecurityPolicyDirective::ScriptSrcElem(_) => {
            assert(field::is_field_value("script-src-elem"@)) by {
                reveal_strlit("script-src-elem");
            }
        },
        ContentSecurityPolicyDirective::ScriptSrcAttr(_) => {
            assert(field::is_field_value("script-src-attr"@)) by {
                reveal_strlit("script-src-attr");
            }
        },
        ContentSecurityPolicyDirective::StyleSrc(_) => {
            assert(field::is_field_value("style-src"@)) by {
                reveal_strlit("style-src");
            }
        },
        ContentSecurityPolicyDirective::StyleSrcElem(_) => {
            assert(field::is_field_value("style-src-elem"@)) by {
                reveal_strlit("style-src-elem");
            }
        },
        ContentSecurityPolicyDirective::StyleSrcAttr(_) => {
            assert(field::is_field_value("style-src-attr"@)) by {
                reveal_strlit("style-src-attr");
            }
        },
        ContentSecurityPolicyDirective::WorkerSrc(_) => {
            assert(field::is_field_value("worker-src"@)) by {
                reveal_strlit("worker-src");
            }
        },
        ContentSecurityPolicyDirective::BaseUri(_) => {
            assert(field::is_field_value("base-uri"@)) by {
                reveal_strlit("base-uri");
            }
        },
        ContentSecurityPolicyDirective::Sandbox(_) => {
            assert(field::is_field_value("sandbox"@)) by {
                reveal_strlit("sandbox");
            }
        },
        ContentSecurityPolicyDirective::FormAction(_) => {
            assert(field::is_field_value("form-action"@)) by {
                reveal_strlit("form-action");
            }
        },
        ContentSecurityPolicyDirective::FrameAncestors(_) => {
            assert(field::is_field_value("frame-ancestors"@)) by {
                reveal_strlit("frame-ancestors");
            }
        },
        ContentSecurityPolicyDirective::ReportTo(_) => {
            assert(field::is_field_value("report-to"@)) by {
                reveal_strlit("report-to");
            }
        },
        ContentSecurityPolicyDirective::RequireTrustedTypesFor(_) => {
            assert(field::is_field_value("require-trusted-types-for"@)) by {
                reveal_strlit("require-trusted-types-for");
            }
        },
        ContentSecurityPolicyDirective::TrustedTypes(_) => {
            assert(field::is_field_value("trusted-types"@)) by {
                reveal_strlit("trusted-types");
            }
        },
        ContentSecurityPolicyDirective::UpgradeInsecureRequests => {
            assert(field::is_field_value("upgrade-insecure-requests"@)) by {
                reveal_strlit("upgrade-insecure-requests");
            }
        },
    }
}

/// A directive's text is a header value exactly if its values are.
pub proof fn lemma_directive_text(directive: ContentSecurityPolicyDirective<'_>)
    ensures
        field::is_field_value(directive.text()) <==> are_field_values(directive.values()),
{
    lemma_keyword_is_value(directive);
    assert(field::is_field_value(" "@)) by {
        reveal_strlit(" ");
    }
    assert(field::is_field_value("; "@)) by {
        reveal_strlit("; ");
    }
    assert(field::is_field_value("report-uri"@)) by {
        reveal_strlit("report-uri");
    }
    let values = directive.values();
    let listed = text::joined(values, " "@);
    lemma_value_joined(values, " "@);
    lemma_value_concat(directive.keyword(), " "@);
    lemma_value_concat(directive.keyword() + " "@, listed);
    lemma_value_concat("report-uri"@, " "@);
    lemma_value_concat("report-uri"@ + " "@, listed);
    lemma_value_concat(csp::clause(directive.keyword(), values), "; "@);
    lemma_value_concat(
        csp::clause(directive.keyword(), values) + "; "@,
        csp::clause("report-uri"@, values),
    );
}

/// Whether every value of every directive of a list is a header value.
pub open spec fn have_field_values(directives: Seq<ContentSecurityPolicyDirective<'_>>) -> bool {
    forall|i: int| 0 <= i < directives.len() ==> are_field_values(#[trigger] directives[i].values())
}

/// A `Content-Security-Policy` header, in either mode, is accepted exactly
/// if every value of every directive is a header value.
pub proof fn lemma_content_security_policy(header: ContentSecurityPolicy<'_>)
    ensures
        field::is_field_line(line_of(&header)) <==> have_field_values(header.directives()),
{
    assert(field::is_field_name("Content-Security-Policy"@)) by {
        reveal_strlit("Content-Security-Policy");
    }
    assert(field::is_field_name("Content-Security-Policy-Report-Only"@)) by {
        reveal_strlit("Content-Security-Policy-Report-Only");
    }
    assert(field::is_field_value("; "@)) by {
        reveal_strlit("; ");
    }
    let directives = header.directives();
    let texts = csp::fragments(directives);
    lemma_value_joined(texts, "; "@);
    assert forall|i: int| 0 <= i < directives.len() implies (field::is_field_value(
        #[trigger] texts[i],
    ) <==> are_field_values(directives[i].values())) by {
        lemma_directive_text(directives[i]);
    }
    if have_field_values(directives) {
        assert(are_field_values(texts));
    }
    if are_field_values(texts) {
        assert forall|i: int| 0 <= i < directives.len() implies are_field_values(
            #[trigger] directives[i].values(),
        ) by {
            assert(field::is_field_value(texts[i]));
        }
    }
}

/// A keyword and values that are header values make a clause that is a
/// header value.
proof fn lemma_clause_is_value(keyword: Seq<char>, values: Seq<Seq<char>>)
    requires
        field::is_field_value(keyword),
        are_field_values(values),
    ensures
        field::is_field_value(csp::clause(keyword, values)),
{
    assert(field::is_field_value(" "@)) by {
        reveal_strlit(" ");
    }
    lemma_value_joined(values, " "@);
    lemma_value_concat(keyword, " "@);
    lemma_value_concat(keyword + " "@, text::joined(values, " "@));
}

/// The value of the default policy is a header value.
pub proof fn lemma_default_policy_is_value()
    ensures
        field::is_field_value(csp::default_policy_text()),
{
    assert(field::is_field_value("default-src"@)) by {
        reveal_strlit("default-src");
    }
    assert(field::is_field_value("base-uri"@)) by {
        reveal_strlit("base-uri");
    }
    assert(field::is_field_value("font-src"@)) by {
        reveal_strlit("font-src");
    }
    assert(field::is_field_value("form-action"@)) by {
        reveal_strlit("form-action");
    }
    assert(field::is_field_value("frame-ancestors"@)) by {
        reveal_strlit("frame-ancestors");
    }
    assert(field::is_field_value("img-src"@)) by {
        reveal_strlit("img-src");
    }
    assert(field::is_field_value("object-src"@)) by {
        reveal_strlit("object-src");
    }
    assert(field::is_field_value("script-src"@)) by {
        reveal_strlit("script-src");
    }
    assert(field::is_field_value("script-src-attr"@)) by {
        reveal_strlit("script-src-attr");
    }
    assert(field::is_field_value("style-src"@)) by {
        reveal_strlit("style-src");
    }
    assert(field::is_field_value("upgrade-insecure-requests"@)) by {
        reveal_strlit("upgrade-insecure-requests");
    }
    assert(field::is_field_value("'self'"@)) by {
        reveal_strlit("'self'");
    }
    assert(field::is_field_value("'none'"@)) by {
        reveal_strlit("'none'");
    }
    assert(field::is_field_value("https:"@)) by {
        reveal_strlit("https:");
    }
    assert(field::is_field_value("data:"@)) by {
        reveal_strlit("data:");
    }
    assert(field::is_field_value("'unsafe-inline'"@)) by {
        reveal_strlit("'unsafe-inline'");
    }
    assert(field::is_field_value("; "@)) by {
        reveal_strlit("; ");
    }
    lemma_clause_is_value("default-src"@, seq!["'self'"@]);
    lemma_clause_is_value("base-uri"@, seq!["'self'"@]);
    lemma_clause_is_value("font-src"@, seq!["'self'"@, "https:"@, "data:"@]);
    lemma_clause_is_value("form-action"@, seq!["'self'"@]);
    lemma_clause_is_value("frame-ancestors"@, seq!["'self'"@]);
    lemma_clause_is_value("img-src"@, seq!["'self'"@, "data:"@]);
    lemma_clause_is_value("object-src"@, seq!["'none'"@]);
    lemma_clause_is_value("script-src"@, seq!["'self'"@]);
    lemma_clause_is_value("script-src-attr"@, seq!["'none'"@]);
    lemma_clause_is_value("style-src"@, seq!["'self'"@, "https:"@, "'unsafe-inline'"@]);
    assert(are_field_values(csp::default_fragments()));
    lemma_value_joined(csp::default_fragments(), "; "@);
    csp::lemma_default_policy_text();
}

/// The default set is accepted: preparing it cannot fail.
pub proof fn lemma_default_set_is_accepted()
    ensures
        inject::accepted(helmet::default_lines()),
{
    lemma_default_policy_is_value();
    assert(field::is_field_name("Content-Security-Policy"@)) by {
        reveal_strlit("Content-Security-Policy");
    }
    assert(field::is_field_name("Cross-Origin-Opener-Policy"@)) by {
        reveal_strlit("Cross-Origin-Opener-Policy");
    }
    assert(field::is_field_name("Cross-Origin-Resource-Policy"@)) by {
        reveal_strlit("Cross-Origin-Resource-Policy");
    }
    assert(field::is_field_name("Origin-Agent-Cluster"@)) by {
        reveal_strlit("Origin-Agent-Cluster");
    }
    assert(field::is_field_name("Referrer-Policy"@)) by {
        reveal_strlit("Referrer-Policy");
    }
    assert(field::is_field_name("Strict-Transport-Security"@)) by {
        reveal_strlit("Strict-Transport-Security");
    }
    assert(field::is_field_name("X-Content-Type-Options"@)) by {
        reveal_strlit("X-Content-Type-Options");
    }
    assert(field::is_field_name("X-DNS-Prefetch-Control"@)) by {
        reveal_strlit("X-DNS-Prefetch-Control");
    }
    assert(field::is_field_name("X-Download-Options"@)) by {
        reveal_strlit("X-Download-Options");
    }
    assert(field::is_field_name("X-Frame-Options"@)) by {
        reveal_strlit("X-Frame-Options");
    }
    assert(field::is_field_name("X-Permitted-Cross-Domain-Policies"@)) by {
        reveal_strlit("X-Permitted-Cross-Domain-Policies");
    }
    assert(field::is_field_name("X-XSS-Protection"@)) by {
        reveal_strlit("X-XSS-Protection");
    }
    assert(field::is_field_value("same-origin"@)) by {
        reveal_strlit("same-origin");
    }
    assert(field::is_field_value("?1"@)) by {
        reveal_strlit("?1");
    }
    assert(field::is_field_value("no-referrer"@)) by {
        reveal_strlit("no-referrer");
    }
    assert(field::is_field_value("max-age=15552000; includeSubDomains"@)) by {
        reveal_strlit("max-age=15552000; includeSubDomains");
    }
    assert(field::is_field_value("nosniff"@)) by {
        reveal_strlit("nosniff");
    }
    assert(field::is_field_value("off"@)) by {
        reveal_strlit("off");
    }
    assert(field::is_field_value("noopen"@)) by {
        reveal_strlit("noopen");
    }
    assert(field::is_field_value("SAMEORIGIN"@)) by {
        reveal_strlit("SAMEORIGIN");
    }
    assert(field::is_field_value("none"@)) by {
        reveal_strlit("none");
    }
    assert(field::is_field_value("0"@)) by {
        reveal_strlit("0");
    }
}

} // verus!
