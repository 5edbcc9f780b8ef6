use wpscan_analyze::analyze::{AnalysisSummary, VersionState};
use wpscan_analyze::errors::ErrorKind;
use wpscan_analyze::output::{summary_label, version_state_label, OutputDetail, OutputFormat};

#[test]
fn output_format_from_str() {
    assert_eq!(OutputFormat::from_str("human"), Ok(OutputFormat::Human));
    assert_eq!(OutputFormat::from_str("json"), Ok(OutputFormat::Json));
    assert_eq!(OutputFormat::from_str("none"), Ok(OutputFormat::NoOutput));
    assert!(OutputFormat::from_str("lukas").is_err());
}

#[test]
fn output_detail_from_str() {
    assert_eq!(OutputDetail::from_str("all"), Ok(OutputDetail::All));
    assert_eq!(OutputDetail::from_str("nok"), Ok(OutputDetail::NotOkay));
    assert!(OutputDetail::from_str("lukas").is_err());
}

#[test]
fn output_format_from_str_is_case_insensitive() {
    assert_eq!(OutputFormat::from_str("HUMAN"), Ok(OutputFormat::Human));
    assert_eq!(OutputFormat::from_str("Json"), Ok(OutputFormat::Json));
    assert_eq!(OutputFormat::from_str("NONE"), Ok(OutputFormat::NoOutput));
}

#[test]
fn output_detail_from_str_is_case_insensitive() {
    assert_eq!(OutputDetail::from_str("All"), Ok(OutputDetail::All));
    assert_eq!(OutputDetail::from_str("NOK"), Ok(OutputDetail::NotOkay));
}

#[test]
fn output_format_error_carries_the_selector() {
    assert_eq!(
        OutputFormat::from_str("lukas"),
        Err(ErrorKind::InvalidOutputFormat("lukas".to_owned()))
    );
}

#[test]
fn output_detail_error_carries_the_selector() {
    assert_eq!(
        OutputDetail::from_str("lukas"),
        Err(ErrorKind::InvalidOutputDetail("lukas".to_owned()))
    );
}

#[test]
fn version_state_labels() {
    assert_eq!(version_state_label(VersionState::Latest), "Latest");
    assert_eq!(version_state_label(VersionState::Outdated), "Outdated");
    assert_eq!(version_state_label(VersionState::Unknown), "Unknown");
}

#[test]
fn summary_labels() {
    assert_eq!(summary_label(AnalysisSummary::Okay), "Ok");
    assert_eq!(summary_label(AnalysisSummary::Outdated), "Outdated");
    assert_eq!(summary_label(AnalysisSummary::Unknown), "Unknown");
    assert_eq!(summary_label(AnalysisSummary::Vulnerable), "Vulnerable");
    assert_eq!(summary_label(AnalysisSummary::Failed), "Failed");
}
