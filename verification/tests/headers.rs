//! Every header family, rendered through a policy set and injected into the
//! headers of a response.

use ntex::http::HeaderMap;
use ntex_helmet::ContentSecurityPolicy;
use ntex_helmet::CrossOriginEmbedderPolicy;
use ntex_helmet::CrossOriginOpenerPolicy;
use ntex_helmet::CrossOriginResourcePolicy;
use ntex_helmet::Helmet;
use ntex_helmet::OriginAgentCluster;
use ntex_helmet::ReferrerPolicy;
use ntex_helmet::StrictTransportSecurity;
use ntex_helmet::XContentTypeOptions;
use ntex_helmet::XDNSPrefetchControl;
use ntex_helmet::XDownloadOptions;
use ntex_helmet::XFrameOptions;
use ntex_helmet::XPermittedCrossDomainPolicies;
use ntex_helmet::XPoweredBy;
use ntex_helmet::XXSSProtection;

/// What a handler that sets no headers of its own answers.
struct Response {
    headers: HeaderMap,
}

impl Response {
    fn headers(&self) -> &HeaderMap {
        &self.headers
    }
}

/// Prepares the policy set and injects it into an empty response.
fn call(helmet: Helmet) -> Response {
    let injector = helmet.prepare().unwrap();
    let mut headers = HeaderMap::new();
    injector.inject(&mut headers);
    Response { headers }
}

#[test]
fn test_cross_origin_embedder_policy_unsafe_none() {
    let resp = call(Helmet::new().add(CrossOriginEmbedderPolicy::unsafe_none()));

    assert_eq!(
        resp.headers().get("Cross-Origin-Embedder-Policy").unwrap(),
        "unsafe-none"
    );
}

#[test]
fn test_cross_origin_embedder_policy_require_corp() {
    let resp = call(Helmet::new().add(CrossOriginEmbedderPolicy::require_corp()));

    assert_eq!(
        resp.headers().get("Cross-Origin-Embedder-Policy").unwrap(),
        "require-corp"
    );
}

#[test]
fn test_cross_origin_embedder_policy_credentialless() {
    let resp = call(Helmet::new().add(CrossOriginEmbedderPolicy::credentialless()));

    assert_eq!(
        resp.headers().get("Cross-Origin-Embedder-Policy").unwrap(),
        "credentialless"
    );
}

#[test]
fn test_cross_origin_opener_policy_same_origin() {
    let resp = call(Helmet::new().add(CrossOriginOpenerPolicy::same_origin()));

    assert_eq!(
        resp.headers().get("Cross-Origin-Opener-Policy").unwrap(),
        "same-origin"
    );
}

#[test]
fn test_cross_origin_opener_policy_same_origin_allow_popups() {
    let resp = call(Helmet::new().add(CrossOriginOpenerPolicy::same_origin_allow_popups()));

    assert_eq!(
        resp.headers().get("Cross-Origin-Opener-Policy").unwrap(),
        "same-origin-allow-popups"
    );
}

#[test]
fn test_cross_origin_opener_policy_unsafe_none() {
    let resp = call(Helmet::new().add(CrossOriginOpenerPolicy::unsafe_none()));

    assert_eq!(
        resp.headers().get("Cross-Origin-Opener-Policy").unwrap(),
        "unsafe-none"
    );
}

#[test]
fn test_cross_origin_resource_policy_same_origin() {
    let resp = call(Helmet::new().add(CrossOriginResourcePolicy::same_origin()));

    assert_eq!(
        resp.headers().get("Cross-Origin-Resource-Policy").unwrap(),
        "same-origin"
    );
}

#[test]
fn test_cross_origin_resource_policy_cross_origin() {
    let resp = call(Helmet::new().add(CrossOriginResourcePolicy::cross_origin()));

    assert_eq!(
        resp.headers().get("Cross-Origin-Resource-Policy").unwrap(),
        "cross-origin"
    );
}

#[test]
fn test_cross_origin_resource_policy_same_site() {
    let resp = call(Helmet::new().add(CrossOriginResourcePolicy::same_site()));

    assert_eq!(
        resp.headers().get("Cross-Origin-Resource-Policy").unwrap(),
        "same-site"
    );
}

#[test]
fn test_origin_agent_cluster_prefer_mobile() {
    let resp = call(Helmet::new().add(OriginAgentCluster::new(true)));

    assert_eq!(
        resp.headers()
            .get("Origin-Agent-Cluster")
            .unwrap()
            .to_str()
            .unwrap(),
        "?1"
    );
}

#[test]
fn test_origin_agent_cluster_not_prefer_mobile() {
    let resp = call(Helmet::new().add(OriginAgentCluster::new(false)));

    assert_eq!(
        resp.headers()
            .get("Origin-Agent-Cluster")
            .unwrap()
            .to_str()
            .unwrap(),
        "?0"
    );
}

#[test]
fn test_referrer_policy_no_referrer() {
    let resp = call(Helmet::new().add(ReferrerPolicy::no_referrer()));

    assert_eq!(
        resp.headers().get("Referrer-Policy").unwrap(),
        "no-referrer"
    );
}

#[test]
fn test_referrer_policy_no_referrer_when_downgrade() {
    let resp = call(Helmet::new().add(ReferrerPolicy::no_referrer_when_downgrade()));

    assert_eq!(
        resp.headers().get("Referrer-Policy").unwrap(),
        "no-referrer-when-downgrade"
    );
}

#[test]
fn test_referrer_policy_origin() {
    let resp = call(Helmet::new().add(ReferrerPolicy::origin()));

    assert_eq!(resp.headers().get("Referrer-Policy").unwrap(), "origin");
}

#[test]
fn test_referrer_policy_origin_when_cross_origin() {
    let resp = call(Helmet::new().add(ReferrerPolicy::origin_when_cross_origin()));

    assert_eq!(
        resp.headers().get("Referrer-Policy").unwrap(),
        "origin-when-cross-origin"
    );
}

#[test]
fn test_referrer_policy_same_origin() {
    let resp = call(Helmet::new().add(ReferrerPolicy::same_origin()));

    assert_eq!(
        resp.headers().get("Referrer-Policy").unwrap(),
        "same-origin"
    );
}

#[test]
fn test_referrer_policy_strict_origin() {
    let resp = call(Helmet::new().add(ReferrerPolicy::strict_origin()));

    assert_eq!(
        resp.headers().get("Referrer-Policy").unwrap(),
        "strict-origin"
    );
}

#[test]
fn test_referrer_policy_strict_origin_when_cross_origin() {
    let resp = call(Helmet::new().add(ReferrerPolicy::strict_origin_when_cross_origin()));

    assert_eq!(
        resp.headers().get("Referrer-Policy").unwrap(),
        "strict-origin-when-cross-origin"
    );
}

#[test]
fn test_referrer_policy_unsafe_url() {
    let resp = call(Helmet::new().add(ReferrerPolicy::unsafe_url()));

    assert_eq!(resp.headers().get("Referrer-Policy").unwrap(), "unsafe-url");
}

#[test]
fn test_strict_transport_security_max_age() {
    let resp = call(Helmet::new().add(StrictTransportSecurity::new().max_age(31536000)));

    assert_eq!(
        resp.headers()
            .get("Strict-Transport-Security")
            .unwrap()
            .to_str()
            .unwrap(),
        "max-age=31536000"
    );
}

#[test]
fn test_strict_transport_security_max_age_include_sub_domains() {
    let resp = call(
        Helmet::new().add(StrictTransportSecurity::new().max_age(31536000).include_sub_domains()),
    );

    assert_eq!(
        resp.headers()
            .get("Strict-Transport-Security")
            .unwrap()
            .to_str()
            .unwrap(),
        "max-age=31536000; includeSubDomains"
    );
}

#[test]
fn test_strict_transport_security_max_age_preload() {
    let resp = call(Helmet::new().add(StrictTransportSecurity::new().max_age(31536000).preload()));

    assert_eq!(
        resp.headers()
            .get("Strict-Transport-Security")
            .unwrap()
            .to_str()
            .unwrap(),
        "max-age=31536000; preload"
    );
}

#[test]
fn test_strict_transport_security_max_age_include_sub_domains_preload() {
    let resp = call(
        Helmet::new().add(
            StrictTransportSecurity::new()
                .max_age(31536000)
                .include_sub_domains()
                .preload(),
        ),
    );

    assert_eq!(
        resp.headers()
            .get("Strict-Transport-Security")
            .unwrap()
            .to_str()
            .unwrap(),
        "max-age=31536000; includeSubDomains; preload"
    );
}

#[test]
fn test_x_content_type_options_nosniff() {
    let resp = call(Helmet::new().add(XContentTypeOptions::nosniff()));

    assert_eq!(
        resp.headers()
            .get("X-Content-Type-Options")
            .unwrap()
            .to_str()
            .unwrap(),
        "nosniff"
    );
}

#[test]
fn test_x_dns_prefetch_control_off() {
    let resp = call(Helmet::new().add(XDNSPrefetchControl::off()));

    assert_eq!(
        resp.headers()
            .get("X-DNS-Prefetch-Control")
            .unwrap()
            .to_str()
            .unwrap(),
        "off"
    );
}

#[test]
fn test_x_dns_prefetch_control_on() {
    let resp = call(Helmet::new().add(XDNSPrefetchControl::on()));

    assert_eq!(
        resp.headers()
            .get("X-DNS-Prefetch-Control")
            .unwrap()
            .to_str()
            .unwrap(),
        "on"
    );
}

#[test]
fn test_x_download_options_noopen() {
    let resp = call(Helmet::new().add(XDownloadOptions::noopen()));

    assert_eq!(
        resp.headers()
            .get("X-Download-Options")
            .unwrap()
            .to_str()
            .unwrap(),
        "noopen"
    );
}

#[test]
fn test_x_frame_options_deny() {
    let resp = call(Helmet::new().add(XFrameOptions::deny()));

    assert_eq!(
        resp.headers()
            .get("X-Frame-Options")
            .unwrap()
            .to_str()
            .unwrap(),
        "DENY"
    );
}

#[test]
fn test_x_frame_options_same_origin() {
    let resp = call(Helmet::new().add(XFrameOptions::same_origin()));

    assert_eq!(
        resp.headers()
            .get("X-Frame-Options")
            .unwrap()
            .to_str()
            .unwrap(),
        "SAMEORIGIN"
    );
}

#[test]
fn test_x_frame_options_allow_from() {
    let resp = call(Helmet::new().add(XFrameOptions::allow_from("https://example.com")));

    assert_eq!(
        resp.headers()
            .get("X-Frame-Options")
            .unwrap()
            .to_str()
            .unwrap(),
        "ALLOW-FROM https://example.com"
    );
}

#[test]
fn test_x_permitted_cross_domain_policies_none() {
    let resp = call(Helmet::new().add(XPermittedCrossDomainPolicies::none()));

    assert_eq!(
        resp.headers()
            .get("X-Permitted-Cross-Domain-Policies")
            .unwrap()
            .to_str()
            .unwrap(),
        "none"
    );
}

#[test]
fn test_x_permitted_cross_domain_policies_master_only() {
    let resp = call(Helmet::new().add(XPermittedCrossDomainPolicies::master_only()));

    assert_eq!(
        resp.headers()
            .get("X-Permitted-Cross-Domain-Policies")
            .unwrap()
            .to_str()
            .unwrap(),
        "master-only"
    );
}

#[test]
fn test_x_permitted_cross_domain_policies_by_content_type() {
    let resp = call(Helmet::new().add(XPermittedCrossDomainPolicies::by_content_type()));

    assert_eq!(
        resp.headers()
            .get("X-Permitted-Cross-Domain-Policies")
            .unwrap()
            .to_str()
            .unwrap(),
        "by-content-type"
    );
}

#[test]
fn test_x_permitted_cross_domain_policies_by_ftp_filename() {
    let resp = call(Helmet::new().add(XPermittedCrossDomainPolicies::by_ftp_filename()));

    assert_eq!(
        resp.headers()
            .get("X-Permitted-Cross-Domain-Policies")
            .unwrap()
            .to_str()
            .unwrap(),
        "by-ftp-filename"
    );
}

#[test]
fn test_x_permitted_cross_domain_policies_all() {
    let resp = call(Helmet::new().add(XPermittedCrossDomainPolicies::all()));

    assert_eq!(
        resp.headers()
            .get("X-Permitted-Cross-Domain-Policies")
            .unwrap()
            .to_str()
            .unwrap(),
        "all"
    );
}

#[test]
fn test_x_xss_protection_zero() {
    let resp = call(Helmet::new().add(XXSSProtection::off()));

    assert_eq!(resp.headers().get("X-XSS-Protection").unwrap(), "0");
}

#[test]
fn test_x_xss_protection_one() {
    let resp = call(Helmet::new().add(XXSSProtection::on()));

    assert_eq!(resp.headers().get("X-XSS-Protection").unwrap(), "1");
}

#[test]
fn test_x_xss_protection_one_mode_block() {
    let resp = call(Helmet::new().add(XXSSProtection::on().mode_block()));

    assert_eq!(
        resp.headers().get("X-XSS-Protection").unwrap(),
        "1; mode=block"
    );
}

#[test]
fn test_x_xss_protection_one_mode_block_report() {
    let resp = call(
        Helmet::new().add(
            XXSSProtection::on()
                .mode_block()
                .report("https://example.com/report-xss-attack"),
        ),
    );

    assert_eq!(
        resp.headers()
            .get("X-XSS-Protection")
            .unwrap()
            .to_str()
            .unwrap(),
        "1; mode=block; report=https://example.com/report-xss-attack"
    );
}

#[test]
fn test_content_security_policy_default() {
    let resp = call(Helmet::new().add(ContentSecurityPolicy::default()));

    assert_eq!(
        resp.headers()
            .get("Content-Security-Policy")
            .unwrap()
            .to_str()
            .unwrap(),
        "default-src 'self'; base-uri 'self'; font-src 'self' https: data:; form-action 'self'; frame-ancestors 'self'; img-src 'self' data:; object-src 'none'; script-src 'self'; script-src-attr 'none'; style-src 'self' https: 'unsafe-inline'; upgrade-insecure-requests"
    );
}

#[test]
fn test_x_powered_by() {
    let resp = call(Helmet::new().add(XPoweredBy::new("PHP 4.2.0")));

    assert_eq!(resp.headers().get("X-Powered-By").unwrap(), "PHP 4.2.0");
}

#[test]
fn test_content_security_policy_child_src() {
    let resp = call(
        Helmet::new().add(
            ContentSecurityPolicy::new()
                .child_src(vec!["'self'", "https://youtube.com"]),
        ),
    );

    assert_eq!(
        resp.headers()
            .get("Content-Security-Policy")
            .unwrap()
            .to_str()
            .unwrap(),
        "child-src 'self' https://youtube.com"
    );
}

#[test]
fn test_content_security_policy_connect_src() {
    let resp = call(
        Helmet::new().add(
            ContentSecurityPolicy::new()
                .connect_src(vec!["'self'", "https://youtube.com"]),
        ),
    );

    assert_eq!(
        resp.headers()
            .get("Content-Security-Policy")
            .unwrap()
            .to_str()
            .unwrap(),
        "connect-src 'self' https://youtube.com"
    );
}

#[test]
fn test_content_security_policy_default_src() {
    let resp = call(
        Helmet::new().add(
            ContentSecurityPolicy::new()
                .default_src(vec!["'self'", "https://youtube.com"]),
        ),
    );

    assert_eq!(
        resp.headers()
            .get("Content-Security-Policy")
            .unwrap()
            .to_str()
            .unwrap(),
        "default-src 'self' https://youtube.com"
    );
}

#[test]
fn test_content_security_policy_font_src() {
    let resp = call(
        Helmet::new().add(
            ContentSecurityPolicy::new()
                .font_src(vec!["'self'", "https://youtube.com"]),
        ),
    );

    assert_eq!(
        resp.headers()
            .get("Content-Security-Policy")
            .unwrap()
            .to_str()
            .unwrap(),
        "font-src 'self' https://youtube.com"
    );
}

#[test]
fn test_content_security_policy_frame_src() {
    let resp = call(
        Helmet::new().add(
            ContentSecurityPolicy::new()
                .frame_src(vec!["'self'", "https://youtube.com"]),
        ),
    );

    assert_eq!(
        resp.headers()
            .get("Content-Security-Policy")
            .unwrap()
            .to_str()
            .unwrap(),
        "frame-src 'self' https://youtube.com"
    );
}

#[test]
fn test_content_security_policy_img_src() {
    let resp = call(
        Helmet::new().add(
            ContentSecurityPolicy::new()
                .img_src(vec!["'self'", "https://youtube.com"]),
        ),
    );

    assert_eq!(
        resp.headers().get("Content-Security-Policy").unwrap(),
        "img-src 'self' https://youtube.com"
    );
}

#[test]
fn test_content_security_policy_manifest_src() {
    let resp = call(
        Helmet::new().add(
            ContentSecurityPolicy::new()
                .manifest_src(vec!["'self'", "https://youtube.com"]),
        ),
    );

    assert_eq!(
        resp.headers().get("Content-Security-Policy").unwrap(),
        "manifest-src 'self' https://youtube.com"
    );
}

#[test]
fn test_content_security_policy_media_src() {
    let resp = call(
        Helmet::new().add(
            ContentSecurityPolicy::new()
                .media_src(vec!["'self'", "https://youtube.com"]),
        ),
    );

    assert_eq!(
        resp.headers().get("Content-Security-Policy").unwrap(),
        "media-src 'self' https://youtube.com"
    );
}

#[test]
fn test_content_security_policy_object_src() {
    let resp = call(
        Helmet::new().add(
            ContentSecurityPolicy::new()
                .object_src(vec!["'self'", "https://youtube.com"]),
        ),
    );

    assert_eq!(
        resp.headers().get("Content-Security-Policy").unwrap(),
        "object-src 'self' https://youtube.com"
    );
}

#[test]
fn test_content_security_policy_prefetch_src() {
    let resp = call(
        Helmet::new().add(
            ContentSecurityPolicy::new()
                .prefetch_src(vec!["'self'", "https://youtube.com"]),
        ),
    );

    assert_eq!(
        resp.headers().get("Content-Security-Policy").unwrap(),
        "prefetch-src 'self' https://youtube.com"
    );
}

#[test]
fn test_content_security_policy_script_src() {
    let resp = call(
        Helmet::new().add(
            ContentSecurityPolicy::new()
                .script_src(vec!["'self'", "https://youtube.com"]),
        ),
    );

    assert_eq!(
        resp.headers().get("Content-Security-Policy").unwrap(),
        "script-src 'self' https://youtube.com"
    );
}

#[test]
fn test_content_security_policy_script_src_elem() {
    let resp = call(
        Helmet::new().add(
            ContentSecurityPolicy::new()
                .script_src_elem(vec!["'self'", "https://youtube.com"]),
        ),
    );

    assert_eq!(
        resp.headers().get("Content-Security-Policy").unwrap(),
        "script-src-elem 'self' https://youtube.com"
    );
}

#[test]
fn test_content_security_policy_script_src_attr() {
    let resp = call(
        Helmet::new().add(
            ContentSecurityPolicy::new()
                .script_src_attr(vec!["'self'", "https://youtube.com"]),
        ),
    );

    assert_eq!(
        resp.headers().get("Content-Security-Policy").unwrap(),
        "script-src-attr 'self' https://youtube.com"
    );
}

#[test]
fn test_content_security_policy_style_src() {
    let resp = call(
        Helmet::new().add(
            ContentSecurityPolicy::new()
                .style_src(vec!["'self'", "https://youtube.com"]),
        ),
    );

    assert_eq!(
        resp.headers().get("Content-Security-Policy").unwrap(),
        "style-src 'self' https://youtube.com"
    );
}

#[test]
fn test_content_security_policy_style_src_attr() {
    let resp = call(
        Helmet::new().add(
            ContentSecurityPolicy::new()
                .style_src_attr(vec!["'self'", "https://youtube.com"]),
        ),
    );

    assert_eq!(
        resp.headers().get("Content-Security-Policy").unwrap(),
        "style-src-attr 'self' https://youtube.com"
    );
}

#[test]
fn test_content_security_policy_style_src_elem() {
    let resp = call(
        Helmet::new().add(
            ContentSecurityPolicy::new()
                .style_src_elem(vec!["'self'", "https://youtube.com"]),
        ),
    );

    assert_eq!(
        resp.headers().get("Content-Security-Policy").unwrap(),
        "style-src-elem 'self' https://youtube.com"
    );
}

#[test]
fn test_content_security_policy_worker_src() {
    let resp = call(
        Helmet::new().add(
            ContentSecurityPolicy::new()
                .worker_src(vec!["'self'", "https://youtube.com"]),
        ),
    );

    assert_eq!(
        resp.headers().get("Content-Security-Policy").unwrap(),
        "worker-src 'self' https://youtube.com"
    );
}

#[test]
fn test_content_security_policy_base_uri() {
    let resp = call(
        Helmet::new().add(
            ContentSecurityPolicy::new()
                .base_uri(vec!["'self'", "https://youtube.com"]),
        ),
    );

    assert_eq!(
        resp.headers().get("Content-Security-Policy").unwrap(),
        "base-uri 'self' https://youtube.com"
    );
}

#[test]
fn test_content_security_policy_sandbox() {
    let resp = call(
        Helmet::new().add(
            ContentSecurityPolicy::new()
                .sandbox(vec!["allow-forms", "allow-scripts"]),
        ),
    );

    assert_eq!(
        resp.headers().get("Content-Security-Policy").unwrap(),
        "sandbox allow-forms allow-scripts"
    );
}

#[test]
fn test_content_security_policy_form_action() {
    let resp = call(
        Helmet::new().add(
            ContentSecurityPolicy::new()
                .form_action(vec!["'self'", "https://youtube.com"]),
        ),
    );

    assert_eq!(
        resp.headers().get("Content-Security-Policy").unwrap(),
        "form-action 'self' https://youtube.com"
    );
}

#[test]
fn test_content_security_policy_frame_ancestors() {
    let resp = call(
        Helmet::new().add(
            ContentSecurityPolicy::new()
                .frame_ancestors(vec!["'self'", "https://youtube.com"]),
        ),
    );

    assert_eq!(
        resp.headers().get("Content-Security-Policy").unwrap(),
        "frame-ancestors 'self' https://youtube.com"
    );
}

#[test]
fn test_content_security_policy_report_to() {
    let resp = call(
        Helmet::new().add(
            ContentSecurityPolicy::new()
                .report_to(vec!["default", "endpoint", "group"]),
        ),
    );

    assert_eq!(
        resp.headers()
            .get("Content-Security-Policy")
            .unwrap()
            .to_str()
            .unwrap(),
        "report-to default endpoint group; report-uri default endpoint group"
    );
}

#[test]
fn test_content_security_policy_trusted_types() {
    let resp = call(
        Helmet::new().add(
            ContentSecurityPolicy::new()
                .trusted_types(vec!["'self'", "https://youtube.com"]),
        ),
    );

    assert_eq!(
        resp.headers()
            .get("Content-Security-Policy")
            .unwrap()
            .to_str()
            .unwrap(),
        "trusted-types 'self' https://youtube.com"
    );
}

#[test]
fn test_content_security_policy_require_trusted_types_for() {
    let resp = call(
        Helmet::new().add(
            ContentSecurityPolicy::new()
                .require_trusted_types_for(vec!["script", "style"]),
        ),
    );

    assert_eq!(
        resp.headers()
            .get("Content-Security-Policy")
            .unwrap()
            .to_str()
            .unwrap(),
        "require-trusted-types-for script style"
    );
}

#[test]
fn test_content_security_policy_upgrade_insecure_requests() {
    let resp = call(Helmet::new().add(ContentSecurityPolicy::new().upgrade_insecure_requests()));

    assert_eq!(
        resp.headers().get("Content-Security-Policy").unwrap(),
        "upgrade-insecure-requests"
    );
}

#[test]
fn test_helmet_default() {
    let resp = call(Helmet::default());

    assert_eq!(
        resp.headers().get("Content-Security-Policy").unwrap(),
        "default-src 'self'; base-uri 'self'; font-src 'self' https: data:; form-action 'self'; frame-ancestors 'self'; img-src 'self' data:; object-src 'none'; script-src 'self'; script-src-attr 'none'; style-src 'self' https: 'unsafe-inline'; upgrade-insecure-requests"
    );
    assert_eq!(
        resp.headers().get("Cross-Origin-Opener-Policy").unwrap(),
        "same-origin"
    );
    assert_eq!(
        resp.headers().get("Cross-Origin-Resource-Policy").unwrap(),
        "same-origin"
    );
    assert_eq!(resp.headers().get("Origin-Agent-Cluster").unwrap(), "?1");
    assert_eq!(
        resp.headers().get("Referrer-Policy").unwrap(),
        "no-referrer"
    );
    assert_eq!(
        resp.headers().get("Strict-Transport-Security").unwrap(),
        "max-age=15552000; includeSubDomains"
    );
    assert_eq!(
        resp.headers().get("X-Content-Type-Options").unwrap(),
        "nosniff"
    );
    assert_eq!(resp.headers().get("X-DNS-Prefetch-Control").unwrap(), "off");
    assert_eq!(resp.headers().get("X-Download-Options").unwrap(), "noopen");
    assert_eq!(resp.headers().get("X-Frame-Options").unwrap(), "SAMEORIGIN");
    assert_eq!(
        resp.headers()
            .get("X-Permitted-Cross-Domain-Policies")
            .unwrap(),
        "none"
    );
}

#[test]
fn test_content_security_policy_report_only() {
    let resp = call(
        Helmet::new().add(ContentSecurityPolicy::new().report_only().base_uri(vec!["'self'"])),
    );

    assert!(resp.headers().get("Content-Security-Policy").is_none());

    assert_eq!(
        resp.headers()
            .get("Content-Security-Policy-Report-Only")
            .unwrap()
            .to_str()
            .unwrap(),
        "base-uri 'self'"
    );
}
