//! Audit a GitHub organisation's security posture.
//!
//! The library is the audit engine: it drives a fixed set of independent
//! checks (two-factor enforcement, admin push activity, branch protection)
//! over one organisation snapshot, collects every failing check into an
//! ordered report, and renders each failure as a two-part remediation
//! message. Network transport and JSON decoding live outside the library;
//! callers hand it plain data and drive the paginated fetch loops with the
//! per-page step functions of [`fetch`].

pub mod config;
pub mod data;
pub mod engine;
pub mod error;
pub mod fetch;
pub mod links;
pub mod report;
pub mod urls;

pub use config::Config;
pub use data::{AdminActivity, Branch, Event, Member, Organisation, Repo, RepoBranchStatus};
pub use engine::Auditor;
pub use error::{AuditError, Error};
pub use fetch::Page;
