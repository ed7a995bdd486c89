//! The policy set: an ordered collection of headers.

use crate::cross_origin::CrossOriginOpenerPolicy;
use crate::cross_origin::CrossOriginResourcePolicy;
use crate::cross_origin::OriginAgentCluster;
use crate::csp;
use crate::csp::ContentSecurityPolicy;
use crate::field;
use crate::header::Header;
use crate::header::line_of;
use crate::header::renders;
use crate::header::Line;
use crate::header::Rendering;
use crate::inject;
use crate::inject::ConfigError;
use crate::inject::Injector;
use crate::legacy::XContentTypeOptions;
use crate::legacy::XDNSPrefetchControl;
use crate::legacy::XDownloadOptions;
use crate::legacy::XFrameOptions;
use crate::legacy::XPermittedCrossDomainPolicies;
use crate::legacy::XXSSProtection;
use crate::referrer::ReferrerPolicy;
use crate::text;
use crate::transport::StrictTransportSecurity;
use vstd::prelude::*;

verus! {

/// An ordered set of security headers for the responses of a service.
///
/// A header is rendered when it is added, and the set keeps the rendered
/// lines in the order in which the headers were added. Nothing is merged: a
/// header family that is added twice gives two lines.
pub struct Helmet {
    lines: Vec<(&'static str, String)>,
}

impl Helmet {
    /// The lines of the set, in the order in which the headers were added.
    pub closed spec fn view(&self) -> Seq<Line> {
        inject::texts_of(self.lines@)
    }

    /// A set without headers.
    pub fn new() -> (helmet: Self)
        ensures
            helmet@ == Seq::<Line>::empty(),
    {
        let helmet = Helmet { lines: Vec::new() };
        assert(helmet@ =~= Seq::<Line>::empty());
        helmet
    }

    /// Adds a header: it is rendered, and its line is put behind the lines
    /// that the set already holds.
    pub fn add(self, header: impl Header + 'static) -> (helmet: Self)
        ensures
            added(self@, &header, helmet@),
    {
        let mut helmet = self;
        let name = header.name();
        let value = header.value();
        helmet.lines.push((name, value));
        assert(helmet@ =~= self@.push((name@, value@)));
        assert(renders(&header, (name@, value@)));
        helmet
    }

    /// The rendered lines, each a name and a value, in the order of the
    /// set.
    pub fn lines(&self) -> (lines: &Vec<(&'static str, String)>)
        ensures
            inject::texts_of(lines@) == self@,
    {
        &self.lines
    }

    /// Has every line of the set accepted as a header line. The set cannot
    /// be used if one of its lines is refused: the error names the first
    /// such line.
    pub fn prepare(&self) -> (prepared: Result<Injector, ConfigError>)
        ensures
            match prepared {
                Ok(injector) => inject::accepted(self@) && injector@ == self@,
                Err(error) => inject::refuses(self@, error),
            },
    {
        Injector::new(&self.lines)
    }
}

/// Whether `after` is `before` with a rendering of `header` put behind it.
pub open spec fn added<H: Header>(before: Seq<Line>, header: &H, after: Seq<Line>) -> bool {
    exists|line: Line| #[trigger] renders(header, line) && after == before.push(line)
}

/// Adding a header of a family with a stated rendering puts exactly its
/// line behind the others: no line is dropped, merged or moved.
pub proof fn lemma_added_line<H: Rendering>(before: Seq<Line>, header: &H, after: Seq<Line>)
    requires
        added(before, header, after),
    ensures
        after == before.push(line_of(header)),
{
    let line = choose|line: Line| #[trigger] renders(header, line) && after == before.push(line);
    header.lemma_rendering(line);
}

/// A family that is added twice is sent twice: two headers of the same
/// name, added one after the other, give two lines, and a response into
/// which the set is injected holds both values under that name, in the
/// order of addition, behind what it held before.
pub proof fn lemma_family_added_twice<H: Rendering>(
    before: Seq<Line>,
    first: &H,
    between: Seq<Line>,
    second: &H,
    after: Seq<Line>,
    fields: field::Fields,
)
    requires
        added(before, first, between),
        added(between, second, after),
        first.name_text() == second.name_text(),
    ensures
        after == before.push(line_of(first)).push(line_of(second)),
        field::values_of(inject::injected(fields, after), field::field_key(first.name_text()))
            == field::values_of(
            inject::injected(fields, before),
            field::field_key(first.name_text()),
        ).push(vstd::utf8::encode_utf8(first.value_text())).push(
            vstd::utf8::encode_utf8(second.value_text()),
        ),
{
    lemma_added_line(before, first, between);
    lemma_added_line(between, second, after);
    inject::lemma_same_name_twice(fields, before, line_of(first), line_of(second));
}

/// The lines of the default set.
pub open spec fn default_lines() -> Seq<Line> {
    seq![
        ("Content-Security-Policy"@, csp::default_policy_text()),
        ("Cross-Origin-Opener-Policy"@, "same-origin"@),
        ("Cross-Origin-Resource-Policy"@, "same-origin"@),
        ("Origin-Agent-Cluster"@, "?1"@),
        ("Referrer-Policy"@, "no-referrer"@),
        ("Strict-Transport-Security"@, "max-age=15552000; includeSubDomains"@),
        ("X-Content-Type-Options"@, "nosniff"@),
        ("X-DNS-Prefetch-Control"@, "off"@),
        ("X-Download-Options"@, "noopen"@),
        ("X-Frame-Options"@, "SAMEORIGIN"@),
        ("X-Permitted-Cross-Domain-Policies"@, "none"@),
        ("X-XSS-Protection"@, "0"@),
    ]
}

impl Default for Helmet {
    /// The default set: twelve headers, in this order.
    ///
    /// ```text
    /// Content-Security-Policy: default-src 'self'; base-uri 'self'; font-src 'self' https: data:; form-action 'self'; frame-ancestors 'self'; img-src 'self' data:; object-src 'none'; script-src 'self'; script-src-attr 'none'; style-src 'self' https: 'unsafe-inline'; upgrade-insecure-requests
    /// Cross-Origin-Opener-Policy: same-origin
    /// Cross-Origin-Resource-Policy: same-origin
    /// Origin-Agent-Cluster: ?1
    /// Referrer-Policy: no-referrer
    /// Strict-Transport-Security: max-age=15552000; includeSubDomains
    /// X-Content-Type-Options: nosniff
    /// X-DNS-Prefetch-Control: off
    /// X-Download-Options: noopen
    /// X-Frame-Options: SAMEORIGIN
    /// X-Permitted-Cross-Domain-Policies: none
    /// X-XSS-Protection: 0
    /// ```
    fn default() -> (helmet: Self)
        ensures
            helmet@ == default_lines(),
    {
        let transport = StrictTransportSecurity::new().max_age(15552000).include_sub_domains();
        proof {
            lemma_half_year(transport);
        }
        let helmet = Helmet::new()
            .add(ContentSecurityPolicy::default())
            .add(CrossOriginOpenerPolicy::same_origin())
            .add(CrossOriginResourcePolicy::same_origin())
            .add(OriginAgentCluster::new(true))
            .add(ReferrerPolicy::no_referrer())
            .add(transport)
            .add(XContentTypeOptions::nosniff())
            .add(XDNSPrefetchControl::off())
            .add(XDownloadOptions::noopen())
            .add(XFrameOptions::same_origin())
            .add(XPermittedCrossDomainPolicies::none())
            .add(XXSSProtection::off());
        assert(helmet@ =~= default_lines());
        helmet
    }
}

/// The value of the transport rule of the default set.
proof fn lemma_half_year(rule: StrictTransportSecurity)
    requires
        rule.max_age_seconds() == 15552000,
        rule.covers_sub_domains(),
        !rule.asks_preload(),
    ensures
        rule.value_text() == "max-age=15552000; includeSubDomains"@,
{
    reveal_strlit("max-age=");
    reveal_strlit("; includeSubDomains");
    reveal_strlit("max-age=15552000; includeSubDomains");
    assert(text::decimal(15552000) =~= seq!['1', '5', '5', '5', '2', '0', '0', '0']) by {
        reveal_with_fuel(text::decimal, 9);
    }
    assert(rule.value_text() =~= "max-age=15552000; includeSubDomains"@);
}

} // verus!
