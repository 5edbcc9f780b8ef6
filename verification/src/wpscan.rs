//! The report model: the typed representation of one vulnerability scan of a
//! WordPress installation, and the sanity pre-check that gates the analysis.

use vstd::prelude::*;

use crate::errors::{ErrorKind, ErrorKindView};

verus! {

/// Spec-level image of `Banner`.
pub struct BannerView {
    pub version: Seq<char>,
}

/// Spec-level image of `Vulnerabilities`.
pub enum VulnerabilitiesView {
    Absent,
    NotList,
    List(Seq<Seq<char>>),
}

/// Spec-level image of `Version`.
pub struct VersionView {
    pub number: Seq<char>,
    pub status: Option<Seq<char>>,
    pub confidence: nat,
    pub vulnerabilities: VulnerabilitiesView,
}

/// Spec-level image of `MainTheme`.
pub struct MainThemeView {
    pub latest_version: Option<Seq<char>>,
    pub last_updated: Option<Seq<char>>,
    pub outdated: Option<bool>,
    pub style_name: Seq<char>,
    pub style_uri: Seq<char>,
    pub vulnerabilities: VulnerabilitiesView,
    pub version: Option<VersionView>,
}

/// Spec-level image of `Plugin`.
pub struct PluginView {
    pub slug: Seq<char>,
    pub latest_version: Option<Seq<char>>,
    pub last_updated: Option<Seq<char>>,
    pub outdated: Option<bool>,
    pub vulnerabilities: VulnerabilitiesView,
    pub version: Option<VersionView>,
}

/// Spec-level image of `WpScan`.
pub struct WpScanView {
    pub banner: BannerView,
    pub db_update_started: bool,
    pub db_update_finished: bool,
    pub start_time: nat,
    pub stop_time: nat,
    pub data_sent: nat,
    pub data_received: nat,
    pub target_url: Seq<char>,
    pub effective_url: Seq<char>,
    pub word_press: Option<VersionView>,
    pub main_theme: Option<MainThemeView>,
    pub plugins: Seq<(Seq<char>, PluginView)>,
}

/// The banner of the scanning tool that produced the report.
#[derive(Debug, Clone, PartialEq)]
pub struct Banner {
    pub version: String,
}

/// A component's vulnerability field as the scanner delivered it: missing
/// altogether, present but not shaped like a list (for instance null), or a
/// list of advisory records, each kept as one text entry.
#[derive(Debug, Clone, PartialEq)]
pub enum Vulnerabilities {
    Absent,
    NotList,
    List(Vec<String>),
}

/// Version information of a detected component: the version number, an
/// optional explicit status (the core platform reports `"latest"` when it is
/// up to date), the scanner's confidence, and the vulnerability field.
#[derive(Debug, Clone, PartialEq)]
pub struct Version {
    pub number: String,
    pub status: Option<String>,
    pub confidence: usize,
    pub vulnerabilities: Vulnerabilities,
}

/// The active theme: freshness is signalled by an optional boolean
/// `outdated` flag, and the installed version record may be missing even
/// when the flag is present.
#[derive(Debug, Clone, PartialEq)]
pub struct MainTheme {
    pub latest_version: Option<String>,
    pub last_updated: Option<String>,
    pub outdated: Option<bool>,
    pub style_name: String,
    pub style_uri: String,
    pub vulnerabilities: Vulnerabilities,
    pub version: Option<Version>,
}

/// One installed plugin; the same freshness shape as the theme.
#[derive(Debug, Clone, PartialEq)]
pub struct Plugin {
    pub slug: String,
    pub latest_version: Option<String>,
    pub last_updated: Option<String>,
    pub outdated: Option<bool>,
    pub vulnerabilities: Vulnerabilities,
    pub version: Option<Version>,
}

/// One whole scan report: scan metadata, the optional core platform version,
/// the optional active theme, and the installed plugins keyed by their
/// identifier (each key occurs once; the order carries no meaning).
#[derive(Debug, Clone, PartialEq)]
pub struct WpScan {
    pub banner: Banner,
    pub db_update_started: bool,
    pub db_update_finished: bool,
    pub start_time: usize,
    pub stop_time: usize,
    pub data_sent: usize,
    pub data_received: usize,
    pub target_url: String,
    pub effective_url: String,
    pub word_press: Option<Version>,
    pub main_theme: Option<MainTheme>,
    pub plugins: Vec<(String, Plugin)>,
}

impl DeepView for Banner {
    type V = BannerView;

    open spec fn deep_view(&self) -> BannerView {
        BannerView { version: self.version@ }
    }
}

impl DeepView for Vulnerabilities {
    type V = VulnerabilitiesView;

    open spec fn deep_view(&self) -> VulnerabilitiesView {
        match self {
            Vulnerabilities::Absent => VulnerabilitiesView::Absent,
            Vulnerabilities::NotList => VulnerabilitiesView::NotList,
            Vulnerabilities::List(entries) => VulnerabilitiesView::List(entries.deep_view()),
        }
    }
}

impl DeepView for Version {
    type V = VersionView;

    open spec fn deep_view(&self) -> VersionView {
        VersionView {
            number: self.number@,
            status: self.status.deep_view(),
            confidence: self.confidence as nat,
            vulnerabilities: self.vulnerabilities.deep_view(),
        }
    }
}

impl DeepView for MainTheme {
    type V = MainThemeView;

    open spec fn deep_view(&self) -> MainThemeView {
        MainThemeView {
            latest_version: self.latest_version.deep_view(),
            last_updated: self.last_updated.deep_view(),
            outdated: self.outdated,
            style_name: self.style_name@,
            style_uri: self.style_uri@,
            vulnerabilities: self.vulnerabilities.deep_view(),
            version: self.version.deep_view(),
        }
    }
}

impl DeepView for Plugin {
    type V = PluginView;

    open spec fn deep_view(&self) -> PluginView {
        PluginView {
            slug: self.slug@,
            latest_version: self.latest_version.deep_view(),
            last_updated: self.last_updated.deep_view(),
            outdated: self.outdated,
            vulnerabilities: self.vulnerabilities.deep_view(),
            version: self.version.deep_view(),
        }
    }
}

impl DeepView for WpScan {
    type V = WpScanView;

    open spec fn deep_view(&self) -> WpScanView {
        WpScanView {
            banner: self.banner.deep_view(),
            db_update_started: self.db_update_started,
            db_update_finished: self.db_update_finished,
            start_time: self.start_time as nat,
            stop_time: self.stop_time as nat,
            data_sent: self.data_sent as nat,
            data_received: self.data_received as nat,
            target_url: self.target_url@,
            effective_url: self.effective_url@,
            word_press: self.word_press.deep_view(),
            main_theme: self.main_theme.deep_view(),
            plugins: self.plugins.deep_view(),
        }
    }
}

/// Spec-level image of a sanity-check outcome.
pub open spec fn sanity_result_view(r: Result<(), ErrorKind>) -> Result<(), ErrorKindView> {
    match r {
        Result::Ok(()) => Result::Ok(()),
        Result::Err(e) => Result::Err(e.deep_view()),
    }
}

/// What the sanity pre-check decides: the first violated condition wins, in
/// this fixed order; an empty plugin set is not a violation.
pub open spec fn spec_sanity(scan: WpScanView) -> Result<(), ErrorKindView> {
    if scan.data_sent == 0 {
        Result::Err(ErrorKindView::InsaneWpScan("no data has been sent."@))
    } else if scan.data_received == 0 {
        Result::Err(ErrorKindView::InsaneWpScan("no data has been received."@))
    } else if scan.word_press is None {
        Result::Err(ErrorKindView::InsaneWpScan("WordPress version could not be recognized."@))
    } else if scan.main_theme is None {
        Result::Err(ErrorKindView::InsaneWpScan("Main theme could not be recognized."@))
    } else {
        Result::Ok(())
    }
}

/// A structural plausibility gate that a value must pass before it is worth
/// analyzing.
pub trait SanityCheck {
    type Error;

    /// What `is_sane` promises about its result.
    spec fn sane_spec(&self, r: &Result<(), Self::Error>) -> bool;

    /// Checks the value and reports the first implausibility found.
    fn is_sane(&self) -> (r: Result<(), Self::Error>)
        ensures
            self.sane_spec(&r),
    ;
}

impl SanityCheck for WpScan {
    type Error = ErrorKind;

    open spec fn sane_spec(&self, r: &Result<(), ErrorKind>) -> bool {
        sanity_result_view(*r) == spec_sanity(self.deep_view())
    }

    /// Rejects a report that is structurally implausible: no bytes sent, no
    /// bytes received, no detected core platform, or no detected theme, in
    /// that order, first violation wins. An empty plugin set passes.
    fn is_sane(&self) -> (r: Result<(), ErrorKind>)
        ensures
            sanity_result_view(r) == spec_sanity(self.deep_view()),
    {
        if self.data_sent == 0 {
            return Result::Err(ErrorKind::InsaneWpScan("no data has been sent.".to_owned()));
        }
        if self.data_received == 0 {
            return Result::Err(ErrorKind::InsaneWpScan("no data has been received.".to_owned()));
        }
        if self.word_press.is_none() {
            return Result::Err(
                ErrorKind::InsaneWpScan("WordPress version could not be recognized.".to_owned()),
            );
        }
        if self.main_theme.is_none() {
            return Result::Err(
                ErrorKind::InsaneWpScan("Main theme could not be recognized.".to_owned()),
            );
        }
        Result::Ok(())
    }
}

} // verus!
