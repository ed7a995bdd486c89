//! Security response headers for web services.
//!
//! Every header family is a small value type that renders one header line: a
//! fixed field name and a field value computed from the value's state. A
//! [`Helmet`] collects such headers in order, and an [`Injector`] appends the
//! rendered lines to the header collection of each outgoing response.

pub mod acceptance;
pub mod cross_origin;
pub mod csp;
pub mod field;
pub mod header;
pub mod helmet;
pub mod inject;
pub mod legacy;
pub mod referrer;
pub mod text;
pub mod transport;

pub use crate::cross_origin::CrossOriginEmbedderPolicy;
pub use crate::cross_origin::CrossOriginOpenerPolicy;
pub use crate::cross_origin::CrossOriginResourcePolicy;
pub use crate::cross_origin::OriginAgentCluster;
pub use crate::csp::ContentSecurityPolicy;
pub use crate::csp::ContentSecurityPolicyDirective;
pub use crate::field::HeaderField;
pub use crate::field::LineFault;
pub use crate::header::Header;
pub use crate::helmet::Helmet;
pub use crate::inject::ConfigError;
pub use crate::inject::Injector;
pub use crate::legacy::XContentTypeOptions;
pub use crate::legacy::XDNSPrefetchControl;
pub use crate::legacy::XDownloadOptions;
pub use crate::legacy::XFrameOptions;
pub use crate::legacy::XPermittedCrossDomainPolicies;
pub use crate::legacy::XPoweredBy;
pub use crate::legacy::XXSSProtection;
pub use crate::referrer::ReferrerPolicy;
pub use crate::transport::StrictTransportSecurity;
