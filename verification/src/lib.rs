//! Classification engine for vulnerability-scan reports of a WordPress
//! installation: turns each component's raw scan fields (version, outdated
//! flag, vulnerability list) into a per-component state, and reduces the
//! per-component states into one overall verdict.

pub mod analyze;
pub mod errors;
pub mod output;
pub mod wpscan;

pub use analyze::{default_analysis, AnalysisSummary, Summary, WpScanAnalysis};
pub use output::{OutputConfig, OutputDetail, OutputFormat};
pub use wpscan::{SanityCheck, WpScan};
