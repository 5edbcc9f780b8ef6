use wpscan_analyze::analyze::{
    count_vulnerabilities, default_analysis, Analysis, AnalysisSummary, AnalyzerResult, Summary,
    VersionState,
};
use wpscan_analyze::errors::ErrorKind;
use wpscan_analyze::wpscan::{
    Banner, MainTheme, Plugin, SanityCheck, Version, Vulnerabilities, WpScan,
};

fn sane_scan() -> WpScan {
    WpScan {
        banner: Banner {
            version: "3.2.1".to_owned(),
        },
        db_update_started: false,
        db_update_finished: false,
        start_time: 1532002802,
        stop_time: 1532002845,
        data_sent: 103384,
        data_received: 2416536,
        target_url: "http://www.example.com/".to_owned(),
        effective_url: "http://www.example.com/".to_owned(),
        word_press: Some(Version {
            number: "4.9.10".to_owned(),
            status: Some("latest".to_owned()),
            confidence: 100,
            vulnerabilities: Vulnerabilities::List(Vec::new()),
        }),
        main_theme: Some(MainTheme {
            latest_version: Some("3.2.1".to_owned()),
            last_updated: None,
            outdated: Some(false),
            style_name: "example".to_owned(),
            style_uri: "http://www.example.com/style.css".to_owned(),
            vulnerabilities: Vulnerabilities::List(Vec::new()),
            version: Some(Version {
                number: "3.2.1".to_owned(),
                status: None,
                confidence: 100,
                vulnerabilities: Vulnerabilities::List(Vec::new()),
            }),
        }),
        plugins: Vec::new(),
    }
}

fn bare_plugin(outdated: Option<bool>, version_number: Option<&str>, vulns: usize) -> Plugin {
    let mut entries = Vec::new();
    for i in 0..vulns {
        entries.push(format!("advisory {}", i));
    }
    Plugin {
        slug: "a-plugin".to_owned(),
        latest_version: None,
        last_updated: None,
        outdated,
        vulnerabilities: Vulnerabilities::List(entries),
        version: version_number.map(|n| Version {
            number: n.to_owned(),
            status: None,
            confidence: 100,
            vulnerabilities: Vulnerabilities::List(Vec::new()),
        }),
    }
}

#[test]
fn core_with_latest_status_is_ok() {
    let scan = sane_scan();

    let analysis = default_analysis(&scan);

    assert_eq!(analysis.word_press.version_state(), VersionState::Latest);
    assert_eq!(analysis.word_press.vulnerabilities(), 0);
    assert_eq!(analysis.word_press.summary(), AnalysisSummary::Okay);
}

#[test]
fn core_with_other_status_is_outdated() {
    let mut scan = sane_scan();
    scan.word_press.as_mut().unwrap().status = Some("insecure".to_owned());

    let analysis = default_analysis(&scan);

    assert_eq!(analysis.word_press.version_state(), VersionState::Outdated);
}

#[test]
fn core_without_status_is_unknown() {
    let mut scan = sane_scan();
    scan.word_press.as_mut().unwrap().status = None;

    let analysis = default_analysis(&scan);

    assert_eq!(analysis.word_press.version_state(), VersionState::Unknown);
}

#[test]
fn outdated_plugin_with_version_is_outdated() {
    let mut scan = sane_scan();
    scan.plugins
        .push(("a-plugin".to_owned(), bare_plugin(Some(true), Some("9.4"), 0)));

    let analysis = default_analysis(&scan);

    let result = &analysis.plugins[0].1;
    assert_eq!(
        *result,
        AnalyzerResult::Success(Analysis {
            version: "9.4".to_owned(),
            version_state: VersionState::Outdated,
            vulnerabilities: 0,
        })
    );
    assert_eq!(result.summary(), AnalysisSummary::Outdated);
}

#[test]
fn vulnerable_plugin_overrides_outdated() {
    let mut scan = sane_scan();
    scan.plugins
        .push(("a-plugin".to_owned(), bare_plugin(Some(true), Some("8.0"), 1)));

    let analysis = default_analysis(&scan);

    assert_eq!(analysis.plugins[0].1.summary(), AnalysisSummary::Vulnerable);
}

#[test]
fn outdated_plugin_without_version_is_unknown() {
    let mut scan = sane_scan();
    scan.plugins
        .push(("a-plugin".to_owned(), bare_plugin(Some(true), None, 0)));

    let analysis = default_analysis(&scan);

    assert_eq!(
        analysis.plugins[0].1,
        AnalyzerResult::Success(Analysis {
            version: "-".to_owned(),
            version_state: VersionState::Unknown,
            vulnerabilities: 0,
        })
    );
}

#[test]
fn theme_flagged_outdated_without_version_is_unknown() {
    let mut scan = sane_scan();
    {
        let theme = scan.main_theme.as_mut().unwrap();
        theme.outdated = Some(true);
        theme.version = None;
    }

    let analysis = default_analysis(&scan);

    assert_eq!(analysis.main_theme.version_state(), VersionState::Unknown);
    assert_eq!(analysis.main_theme.version(), Some("-"));
}

#[test]
fn undetected_components_are_unknown_without_vulnerabilities() {
    let mut scan = sane_scan();
    scan.word_press = None;
    scan.main_theme = None;

    let analysis = default_analysis(&scan);

    assert_eq!(analysis.word_press.version_state(), VersionState::Unknown);
    assert_eq!(analysis.word_press.vulnerabilities(), 0);
    assert_eq!(analysis.main_theme.version_state(), VersionState::Unknown);
    assert_eq!(analysis.main_theme.vulnerabilities(), 0);
}

#[test]
fn analysis_is_deterministic() {
    let mut scan = sane_scan();
    scan.plugins
        .push(("a-plugin".to_owned(), bare_plugin(Some(true), Some("8.0"), 2)));
    scan.plugins
        .push(("b-plugin".to_owned(), bare_plugin(None, None, 0)));

    let first = default_analysis(&scan);
    let second = default_analysis(&scan);

    assert_eq!(first, second);
}

#[test]
fn report_with_mixed_components_is_vulnerable() {
    let mut scan = sane_scan();
    scan.plugins
        .push(("bad".to_owned(), bare_plugin(Some(false), Some("8.0"), 1)));
    scan.plugins
        .push(("old".to_owned(), bare_plugin(Some(true), Some("9.4"), 0)));

    let analysis = default_analysis(&scan);

    assert_eq!(analysis.word_press.summary(), AnalysisSummary::Okay);
    assert_eq!(analysis.main_theme.summary(), AnalysisSummary::Okay);
    assert_eq!(analysis.summary(), AnalysisSummary::Vulnerable);
}

#[test]
fn sanity_rejects_report_without_data_sent() {
    let mut scan = sane_scan();
    scan.data_sent = 0;

    assert_eq!(
        scan.is_sane(),
        Err(ErrorKind::InsaneWpScan("no data has been sent.".to_owned()))
    );
}

#[test]
fn sanity_rejects_report_without_data_received() {
    let mut scan = sane_scan();
    scan.data_received = 0;

    assert_eq!(
        scan.is_sane(),
        Err(ErrorKind::InsaneWpScan(
            "no data has been received.".to_owned()
        ))
    );
}

#[test]
fn sanity_rejects_report_without_core_platform() {
    let mut scan = sane_scan();
    scan.word_press = None;

    assert_eq!(
        scan.is_sane(),
        Err(ErrorKind::InsaneWpScan(
            "WordPress version could not be recognized.".to_owned()
        ))
    );
}

#[test]
fn sanity_rejects_report_without_main_theme() {
    let mut scan = sane_scan();
    scan.main_theme = None;

    assert_eq!(
        scan.is_sane(),
        Err(ErrorKind::InsaneWpScan(
            "Main theme could not be recognized.".to_owned()
        ))
    );
}

#[test]
fn sanity_reports_the_first_violation() {
    let mut scan = sane_scan();
    scan.data_sent = 0;
    scan.data_received = 0;
    scan.word_press = None;

    assert_eq!(
        scan.is_sane(),
        Err(ErrorKind::InsaneWpScan("no data has been sent.".to_owned()))
    );
}

#[test]
fn sanity_permits_empty_plugin_set() {
    let scan = sane_scan();

    assert!(scan.plugins.is_empty());
    assert_eq!(scan.is_sane(), Ok(()));
}

#[test]
fn vulnerability_counter_is_defensive() {
    assert_eq!(count_vulnerabilities(&Vulnerabilities::Absent), 0);
    assert_eq!(count_vulnerabilities(&Vulnerabilities::NotList), 0);
    assert_eq!(
        count_vulnerabilities(&Vulnerabilities::List(vec![
            "one".to_owned(),
            "two".to_owned(),
        ])),
        2
    );
}
