//! The classification engine: turns each component of a scan report into a
//! per-component analysis, aggregates the analyses, and reduces them to one
//! overall verdict.

use vstd::prelude::*;

use crate::wpscan::{
    MainThemeView, Plugin, PluginView, VersionView, Vulnerabilities, VulnerabilitiesView, WpScan,
    WpScanView,
};

verus! {

/// Freshness classification of one component.
#[derive(Debug, PartialEq, Eq, Structural, Clone, Copy)]
pub enum VersionState {
    Latest,
    Outdated,
    Unknown,
}

impl VersionState {
    pub fn is_latest(&self) -> (r: bool)
        ensures
            r == (*self == VersionState::Latest),
    {
        *self == VersionState::Latest
    }

    pub fn is_outdated(&self) -> (r: bool)
        ensures
            r == (*self == VersionState::Outdated),
    {
        *self == VersionState::Outdated
    }

    pub fn is_unknown(&self) -> (r: bool)
        ensures
            r == (*self == VersionState::Unknown),
    {
        *self == VersionState::Unknown
    }
}

/// Spec-level image of `Analysis`.
pub struct AnalysisView {
    pub version: Seq<char>,
    pub version_state: VersionState,
    pub vulnerabilities: nat,
}

/// Spec-level image of `AnalyzerResult`.
pub enum AnalyzerResultView {
    Success(AnalysisView),
    Failed(Seq<char>),
}

/// Spec-level image of `WpScanAnalysis`.
pub struct WpScanAnalysisView {
    pub word_press: AnalyzerResultView,
    pub main_theme: AnalyzerResultView,
    pub plugins: Seq<(Seq<char>, AnalyzerResultView)>,
}

/// The per-component result of the analysis: the displayed version (the
/// sentinel `"-"` when the component carries none), the freshness state, and
/// the number of known vulnerabilities.
#[derive(Debug, Clone, PartialEq)]
pub struct Analysis {
    pub version: String,
    pub version_state: VersionState,
    pub vulnerabilities: usize,
}

/// Either a completed per-component analysis, or the marker that the
/// component could not be analyzed at all, with the reason.
#[derive(Debug, Clone, PartialEq)]
pub enum AnalyzerResult {
    Success(Analysis),
    Failed(String),
}

/// The aggregate analysis of one report: one result for the core platform,
/// one for the active theme, and one per plugin, keyed by the plugin
/// identifier.
#[derive(Debug, Clone, PartialEq)]
pub struct WpScanAnalysis {
    pub word_press: AnalyzerResult,
    pub main_theme: AnalyzerResult,
    pub plugins: Vec<(String, AnalyzerResult)>,
}

impl DeepView for Analysis {
    type V = AnalysisView;

    open spec fn deep_view(&self) -> AnalysisView {
        AnalysisView {
            version: self.version@,
            version_state: self.version_state,
            vulnerabilities: self.vulnerabilities as nat,
        }
    }
}

impl DeepView for AnalyzerResult {
    type V = AnalyzerResultView;

    open spec fn deep_view(&self) -> AnalyzerResultView {
        match self {
            AnalyzerResult::Success(a) => AnalyzerResultView::Success(a.deep_view()),
            AnalyzerResult::Failed(reason) => AnalyzerResultView::Failed(reason@),
        }
    }
}

impl DeepView for WpScanAnalysis {
    type V = WpScanAnalysisView;

    open spec fn deep_view(&self) -> WpScanAnalysisView {
        WpScanAnalysisView {
            word_press: self.word_press.deep_view(),
            main_theme: self.main_theme.deep_view(),
            plugins: self.plugins.deep_view(),
        }
    }
}

impl AnalyzerResultView {
    /// The vulnerability count a result contributes: a failed result
    /// contributes none.
    pub open spec fn vuln_count(self) -> nat {
        match self {
            AnalyzerResultView::Success(a) => a.vulnerabilities,
            AnalyzerResultView::Failed(_) => 0,
        }
    }

    /// The freshness state a result carries: a failed result counts as
    /// `Unknown`.
    pub open spec fn state(self) -> VersionState {
        match self {
            AnalyzerResultView::Success(a) => a.version_state,
            AnalyzerResultView::Failed(_) => VersionState::Unknown,
        }
    }

    pub open spec fn is_failed(self) -> bool {
        self is Failed
    }
}

impl AnalyzerResult {
    /// The analyzed component's version, or nothing for a failed result.
    pub fn version(&self) -> (r: Option<&str>)
        ensures
            match r {
                Option::Some(v) => (self.deep_view() matches AnalyzerResultView::Success(a)
                    && v@ == a.version),
                Option::None => self.deep_view() is Failed,
            },
    {
        match self {
            AnalyzerResult::Success(analysis) => Option::Some(analysis.version.as_str()),
            AnalyzerResult::Failed(_) => Option::None,
        }
    }

    pub fn vulnerabilities(&self) -> (r: usize)
        ensures
            r as nat == self.deep_view().vuln_count(),
    {
        match self {
            AnalyzerResult::Success(analysis) => analysis.vulnerabilities,
            AnalyzerResult::Failed(_) => 0,
        }
    }

    pub fn version_state(&self) -> (r: VersionState)
        ensures
            r == self.deep_view().state(),
    {
        match self {
            AnalyzerResult::Success(analysis) => analysis.version_state,
            AnalyzerResult::Failed(_) => VersionState::Unknown,
        }
    }

    pub fn failed(&self) -> (r: bool)
        ensures
            r == self.deep_view().is_failed(),
    {
        match self {
            AnalyzerResult::Success(_) => false,
            AnalyzerResult::Failed(_) => true,
        }
    }
}

/// Freshness of the core platform, which reports an explicit status string:
/// the literal `"latest"` means up to date, any other status means outdated,
/// and a missing status means the freshness cannot be determined.
pub open spec fn core_version_state(status: Option<Seq<char>>) -> VersionState {
    match status {
        Option::Some(s) => if s == "latest"@ {
            VersionState::Latest
        } else {
            VersionState::Outdated
        },
        Option::None => VersionState::Unknown,
    }
}

/// Freshness of a theme or plugin, which reports a boolean `outdated` flag:
/// a flag set to `true` without an identified version is indeterminate, not
/// outdated.
pub open spec fn flag_version_state(outdated: Option<bool>, version: Option<VersionView>) -> VersionState {
    match outdated {
        Option::Some(false) => VersionState::Latest,
        Option::Some(true) => if version is None {
            VersionState::Unknown
        } else {
            VersionState::Outdated
        },
        Option::None => VersionState::Unknown,
    }
}

/// How many vulnerability entries a component's vulnerability field holds: 0
/// unless the field is an actual list.
pub open spec fn vuln_list_count(v: VulnerabilitiesView) -> nat {
    match v {
        VulnerabilitiesView::List(entries) => entries.len(),
        _ => 0,
    }
}

/// The version to display for a component: its version number, or the
/// sentinel when no version record exists.
pub open spec fn displayed_version(version: Option<VersionView>) -> Seq<char> {
    match version {
        Option::Some(v) => v.number,
        Option::None => "-"@,
    }
}

/// The analysis of the core platform.
pub open spec fn analyze_core_spec(word_press: Option<VersionView>) -> AnalysisView {
    match word_press {
        Option::None => AnalysisView {
            version: "-"@,
            version_state: VersionState::Unknown,
            vulnerabilities: 0,
        },
        Option::Some(v) => AnalysisView {
            version: v.number,
            version_state: core_version_state(v.status),
            vulnerabilities: vuln_list_count(v.vulnerabilities),
        },
    }
}

/// The analysis of the active theme.
pub open spec fn analyze_theme_spec(main_theme: Option<MainThemeView>) -> AnalysisView {
    match main_theme {
        Option::None => AnalysisView {
            version: "-"@,
            version_state: VersionState::Unknown,
            vulnerabilities: 0,
        },
        Option::Some(mt) => AnalysisView {
            version: displayed_version(mt.version),
            version_state: flag_version_state(mt.outdated, mt.version),
            vulnerabilities: vuln_list_count(mt.vulnerabilities),
        },
    }
}

/// The analysis of one plugin.
pub open spec fn analyze_plugin_spec(plugin: PluginView) -> AnalysisView {
    AnalysisView {
        version: displayed_version(plugin.version),
        version_state: flag_version_state(plugin.outdated, plugin.version),
        vulnerabilities: vuln_list_count(plugin.vulnerabilities),
    }
}

/// The analyses of all plugins, each under its identifier.
pub open spec fn analyze_plugins_spec(plugins: Seq<(Seq<char>, PluginView)>) -> Seq<
    (Seq<char>, AnalyzerResultView),
> {
    plugins.map_values(
        |entry: (Seq<char>, PluginView)|
            (entry.0, AnalyzerResultView::Success(analyze_plugin_spec(entry.1))),
    )
}

/// The whole analysis of one report. Detection absence never fails a
/// component: it yields a successful analysis in the `Unknown` state with no
/// vulnerabilities.
pub open spec fn analyze_spec(scan: WpScanView) -> WpScanAnalysisView {
    WpScanAnalysisView {
        word_press: AnalyzerResultView::Success(analyze_core_spec(scan.word_press)),
        main_theme: AnalyzerResultView::Success(analyze_theme_spec(scan.main_theme)),
        plugins: analyze_plugins_spec(scan.plugins),
    }
}

/// Counts the entries of a component's vulnerability field; a field that is
/// absent or not list-shaped never crashes the engine and counts as 0.
pub fn count_vulnerabilities(v: &Vulnerabilities) -> (r: usize)
    ensures
        r as nat == vuln_list_count(v.deep_view()),
{
    match v {
        Vulnerabilities::List(entries) => entries.len(),
        Vulnerabilities::Absent => 0,
        Vulnerabilities::NotList => 0,
    }
}

/// Analyzes a whole report with the default rules.
pub fn default_analysis(wpscan: &WpScan) -> (r: WpScanAnalysis)
    ensures
        r.deep_view() == analyze_spec(wpscan.deep_view()),
{
    let analyzer = DefaultAnalyzer::new(wpscan);
    analyzer.analyze()
}

/// Anything that can turn a scan report into an aggregate analysis.
pub trait Analyzer {
    /// The analysis this analyzer computes.
    spec fn analysis_spec(&self) -> WpScanAnalysisView;

    fn analyze(&self) -> (r: WpScanAnalysis)
        ensures
            r.deep_view() == self.analysis_spec(),
    ;
}

/// The analyzer implementing the default classification rules.
pub struct DefaultAnalyzer<'a> {
    pub wpscan: &'a WpScan,
}

impl<'a> DefaultAnalyzer<'a> {
    pub fn new(wpscan: &'a WpScan) -> (r: DefaultAnalyzer<'a>)
        ensures
            r.wpscan == wpscan,
    {
        DefaultAnalyzer { wpscan }
    }
}

impl<'a> Analyzer for DefaultAnalyzer<'a> {
    open spec fn analysis_spec(&self) -> WpScanAnalysisView {
        analyze_spec(self.wpscan.deep_view())
    }

    fn analyze(&self) -> (r: WpScanAnalysis) {
        let word_press = self.analyze_word_press();
        let main_theme = self.analyze_main_theme();
        let plugins = self.analyze_plugins();
        WpScanAnalysis { word_press, main_theme, plugins }
    }
}

impl<'a> DefaultAnalyzer<'a> {
    fn analyze_word_press(&self) -> (r: AnalyzerResult)
        ensures
            r.deep_view() == AnalyzerResultView::Success(
                analyze_core_spec(self.wpscan.deep_view().word_press),
            ),
    {
        match &self.wpscan.word_press {
            Option::None => AnalyzerResult::Success(
                Analysis {
                    version: "-".to_owned(),
                    version_state: VersionState::Unknown,
                    vulnerabilities: 0,
                },
            ),
            Option::Some(word_press) => {
                let version_state = match &word_press.status {
                    Option::Some(status) => {
                        let latest = "latest".to_owned();
                        if *status == latest {
                            VersionState::Latest
                        } else {
                            VersionState::Outdated
                        }
                    },
                    Option::None => VersionState::Unknown,
                };
                let vulnerabilities = count_vulnerabilities(&word_press.vulnerabilities);
                AnalyzerResult::Success(
                    Analysis { version: word_press.number.clone(), version_state, vulnerabilities },
                )
            },
        }
    }

    fn analyze_main_theme(&self) -> (r: AnalyzerResult)
        ensures
            r.deep_view() == AnalyzerResultView::Success(
                analyze_theme_spec(self.wpscan.deep_view().main_theme),
            ),
    {
        match &self.wpscan.main_theme {
            Option::None => AnalyzerResult::Success(
                Analysis {
                    version: "-".to_owned(),
                    version_state: VersionState::Unknown,
                    vulnerabilities: 0,
                },
            ),
            Option::Some(main_theme) => {
                let version_state = match main_theme.outdated {
                    Option::Some(false) => VersionState::Latest,
                    Option::Some(true) => if main_theme.version.is_none() {
                        VersionState::Unknown
                    } else {
                        VersionState::Outdated
                    },
                    Option::None => VersionState::Unknown,
                };
                let vulnerabilities = count_vulnerabilities(&main_theme.vulnerabilities);
                let version = match &main_theme.version {
                    Option::Some(v) => v.number.clone(),
                    Option::None => "-".to_owned(),
                };
                AnalyzerResult::Success(Analysis { version, version_state, vulnerabilities })
            },
        }
    }

    fn analyze_plugin(plugin: &Plugin) -> (r: AnalyzerResult)
        ensures
            r.deep_view() == AnalyzerResultView::Success(analyze_plugin_spec(plugin.deep_view())),
    {
        let version_state = match plugin.outdated {
            Option::Some(false) => VersionState::Latest,
            Option::Some(true) => if plugin.version.is_none() {
                VersionState::Unknown
            } else {
                VersionState::Outdated
            },
            Option::None => VersionState::Unknown,
        };
        let vulnerabilities = count_vulnerabilities(&plugin.vulnerabilities);
        let version = match &plugin.version {
            Option::Some(v) => v.number.clone(),
            Option::None => "-".to_owned(),
        };
        AnalyzerResult::Success(Analysis { version, version_state, vulnerabilities })
    }

    fn analyze_plugins(&self) -> (r: Vec<(String, AnalyzerResult)>)
        ensures
            r.deep_view() == analyze_plugins_spec(self.wpscan.deep_view().plugins),
    {
        let plugins = &self.wpscan.plugins;
        let mut out: Vec<(String, AnalyzerResult)> = Vec::new();
        let n = plugins.len();
        assert(out.deep_view() =~= analyze_plugins_spec(plugins.deep_view().subrange(0, 0)));
        for i in 0..n
            invariant
                n == plugins.len(),
                out.deep_view() =~= analyze_plugins_spec(plugins.deep_view().subrange(0, i as int)),
        {
            let entry = &plugins[i];
            let analyzed = DefaultAnalyzer::analyze_plugin(&entry.1);
            let ghost prev = out.deep_view();
            out.push((entry.0.clone(), analyzed));
            proof {
                assert(out.deep_view() =~= prev.push((entry.0@, analyzed.deep_view())));
                assert(plugins.deep_view()[i as int] == (entry.0@, entry.1.deep_view()));
                assert(analyze_plugins_spec(plugins.deep_view().subrange(0, i as int + 1)) =~= prev.push(
                    (entry.0@, analyzed.deep_view()),
                ));
            }
        }
        assert(plugins.deep_view().subrange(0, n as int) =~= plugins.deep_view());
        out
    }
}

/// The vulnerabilities that a sequence of per-plugin results carries in
/// total.
pub open spec fn plugins_vuln_sum(s: Seq<(Seq<char>, AnalyzerResultView)>) -> nat
    decreases s.len(),
{
    if s.len() == 0 {
        0
    } else {
        plugins_vuln_sum(s.drop_last()) + s.last().1.vuln_count()
    }
}

/// How many of a sequence of per-plugin results carry the given freshness
/// state.
pub open spec fn plugins_state_count(
    s: Seq<(Seq<char>, AnalyzerResultView)>,
    state: VersionState,
) -> nat
    decreases s.len(),
{
    if s.len() == 0 {
        0
    } else {
        plugins_state_count(s.drop_last(), state) + (if s.last().1.state() == state {
            1nat
        } else {
            0nat
        })
    }
}

/// How many of a sequence of per-plugin results are failed.
pub open spec fn plugins_failed_count(s: Seq<(Seq<char>, AnalyzerResultView)>) -> nat
    decreases s.len(),
{
    if s.len() == 0 {
        0
    } else {
        plugins_failed_count(s.drop_last()) + (if s.last().1.is_failed() {
            1nat
        } else {
            0nat
        })
    }
}

proof fn lemma_vuln_sum_extend(s: Seq<(Seq<char>, AnalyzerResultView)>, i: int)
    requires
        0 <= i < s.len(),
    ensures
        plugins_vuln_sum(s.subrange(0, i + 1)) == plugins_vuln_sum(s.subrange(0, i))
            + s[i].1.vuln_count(),
{
    assert(s.subrange(0, i + 1).drop_last() =~= s.subrange(0, i));
}

proof fn lemma_vuln_sum_prefix(s: Seq<(Seq<char>, AnalyzerResultView)>, i: int)
    requires
        0 <= i <= s.len(),
    ensures
        plugins_vuln_sum(s.subrange(0, i)) <= plugins_vuln_sum(s),
    decreases s.len() - i,
{
    if i == s.len() {
        assert(s.subrange(0, i) =~= s);
    } else {
        lemma_vuln_sum_extend(s, i);
        lemma_vuln_sum_prefix(s, i + 1);
    }
}

proof fn lemma_state_count_extend(s: Seq<(Seq<char>, AnalyzerResultView)>, i: int, state: VersionState)
    requires
        0 <= i < s.len(),
    ensures
        plugins_state_count(s.subrange(0, i + 1), state) == plugins_state_count(
            s.subrange(0, i),
            state,
        ) + (if s[i].1.state() == state {
            1nat
        } else {
            0nat
        }),
{
    assert(s.subrange(0, i + 1).drop_last() =~= s.subrange(0, i));
}

proof fn lemma_failed_count_extend(s: Seq<(Seq<char>, AnalyzerResultView)>, i: int)
    requires
        0 <= i < s.len(),
    ensures
        plugins_failed_count(s.subrange(0, i + 1)) == plugins_failed_count(s.subrange(0, i)) + (
        if s[i].1.is_failed() {
            1nat
        } else {
            0nat
        }),
{
    assert(s.subrange(0, i + 1).drop_last() =~= s.subrange(0, i));
}

impl WpScanAnalysisView {
    /// The vulnerabilities of the whole report: core, theme and every plugin
    /// counted together.
    pub open spec fn vuln_total(self) -> nat {
        self.word_press.vuln_count() + self.main_theme.vuln_count() + plugins_vuln_sum(self.plugins)
    }

    /// How many components of the report carry the given freshness state.
    pub open spec fn state_total(self, state: VersionState) -> nat {
        plugins_state_count(self.plugins, state) + (if self.word_press.state() == state {
            1nat
        } else {
            0nat
        }) + (if self.main_theme.state() == state {
            1nat
        } else {
            0nat
        })
    }

    /// How many components of the report could not be analyzed.
    pub open spec fn failed_total(self) -> nat {
        plugins_failed_count(self.plugins) + (if self.word_press.is_failed() {
            1nat
        } else {
            0nat
        }) + (if self.main_theme.is_failed() {
            1nat
        } else {
            0nat
        })
    }
}

/// Counts the plugin results that carry the given freshness state.
fn count_plugins_in_state(plugins: &Vec<(String, AnalyzerResult)>, state: VersionState) -> (r:
    usize)
    ensures
        r as nat == plugins_state_count(plugins.deep_view(), state),
        r <= plugins.deep_view().len(),
{
    let mut count: usize = 0;
    let n = plugins.len();
    assert(plugins.deep_view().subrange(0, 0) =~= Seq::<(Seq<char>, AnalyzerResultView)>::empty());
    for i in 0..n
        invariant
            n == plugins.len(),
            count as nat == plugins_state_count(plugins.deep_view().subrange(0, i as int), state),
            count <= i,
    {
        proof {
            lemma_state_count_extend(plugins.deep_view(), i as int, state);
        }
        let st = plugins[i].1.version_state();
        if st == state {
            count = count + 1;
        }
    }
    assert(plugins.deep_view().subrange(0, n as int) =~= plugins.deep_view());
    count
}

/// Counts the plugin results that are failed.
fn count_plugins_failed(plugins: &Vec<(String, AnalyzerResult)>) -> (r: usize)
    ensures
        r as nat == plugins_failed_count(plugins.deep_view()),
        r <= plugins.deep_view().len(),
{
    let mut count: usize = 0;
    let n = plugins.len();
    assert(plugins.deep_view().subrange(0, 0) =~= Seq::<(Seq<char>, AnalyzerResultView)>::empty());
    for i in 0..n
        invariant
            n == plugins.len(),
            count as nat == plugins_failed_count(plugins.deep_view().subrange(0, i as int)),
            count <= i,
    {
        proof {
            lemma_failed_count_extend(plugins.deep_view(), i as int);
        }
        if plugins[i].1.failed() {
            count = count + 1;
        }
    }
    assert(plugins.deep_view().subrange(0, n as int) =~= plugins.deep_view());
    count
}

impl WpScanAnalysis {
    /// The vulnerabilities of the whole report: core, theme and every plugin
    /// counted together, with no short-circuiting.
    pub fn vulnerabilities(&self) -> (r: usize)
        requires
            self.deep_view().vuln_total() <= usize::MAX,
        ensures
            r as nat == self.deep_view().vuln_total(),
    {
        let ghost all = self.deep_view().plugins;
        let mut total: usize = self.word_press.vulnerabilities();
        proof {
            lemma_vuln_sum_prefix(all, 0);
        }
        total = total + self.main_theme.vulnerabilities();
        let n = self.plugins.len();
        assert(all.subrange(0, 0) =~= Seq::<(Seq<char>, AnalyzerResultView)>::empty());
        for i in 0..n
            invariant
                n == self.plugins.len(),
                all == self.deep_view().plugins,
                self.deep_view().vuln_total() <= usize::MAX,
                total as nat == self.word_press.deep_view().vuln_count()
                    + self.main_theme.deep_view().vuln_count() + plugins_vuln_sum(
                    all.subrange(0, i as int),
                ),
        {
            proof {
                lemma_vuln_sum_extend(all, i as int);
                lemma_vuln_sum_prefix(all, i as int + 1);
            }
            total = total + self.plugins[i].1.vulnerabilities();
        }
        assert(all.subrange(0, n as int) =~= all);
        total
    }

    /// How many components of the report are outdated.
    pub fn outdated(&self) -> (r: usize)
        requires
            self.deep_view().plugins.len() + 2 <= usize::MAX,
        ensures
            r as nat == self.deep_view().state_total(VersionState::Outdated),
    {
        let mut count = count_plugins_in_state(&self.plugins, VersionState::Outdated);
        if self.word_press.version_state().is_outdated() {
            count = count + 1;
        }
        if self.main_theme.version_state().is_outdated() {
            count = count + 1;
        }
        count
    }

    /// How many components of the report have indeterminate freshness.
    pub fn unknown(&self) -> (r: usize)
        requires
            self.deep_view().plugins.len() + 2 <= usize::MAX,
        ensures
            r as nat == self.deep_view().state_total(VersionState::Unknown),
    {
        let mut count = count_plugins_in_state(&self.plugins, VersionState::Unknown);
        if self.word_press.version_state().is_unknown() {
            count = count + 1;
        }
        if self.main_theme.version_state().is_unknown() {
            count = count + 1;
        }
        count
    }

    /// How many components of the report could not be analyzed.
    pub fn failed(&self) -> (r: usize)
        requires
            self.deep_view().plugins.len() + 2 <= usize::MAX,
        ensures
            r as nat == self.deep_view().failed_total(),
    {
        let mut count = count_plugins_failed(&self.plugins);
        if self.word_press.failed() {
            count = count + 1;
        }
        if self.main_theme.failed() {
            count = count + 1;
        }
        count
    }
}

/// The severity classification of a component or of a whole report.
#[derive(Debug, PartialEq, Eq, Structural, Clone, Copy)]
pub enum AnalysisSummary {
    Outdated,
    Unknown,
    Vulnerable,
    Failed,
    Okay,
}

impl AnalyzerResultView {
    /// The severity of one component: vulnerabilities take precedence over an
    /// outdated version, which takes precedence over an indeterminate one;
    /// a component that could not be analyzed is `Failed` whatever else holds.
    pub open spec fn summary(self) -> AnalysisSummary {
        match self {
            AnalyzerResultView::Failed(_) => AnalysisSummary::Failed,
            AnalyzerResultView::Success(a) => if a.vulnerabilities > 0 {
                AnalysisSummary::Vulnerable
            } else if a.version_state == VersionState::Outdated {
                AnalysisSummary::Outdated
            } else if a.version_state == VersionState::Unknown {
                AnalysisSummary::Unknown
            } else {
                AnalysisSummary::Okay
            },
        }
    }
}

/// Whether any result of the sequence is failed.
pub open spec fn plugins_any_failed(s: Seq<(Seq<char>, AnalyzerResultView)>) -> bool {
    exists|i: int| 0 <= i < s.len() && s[i].1.is_failed()
}

/// Whether any result of the sequence carries the given freshness state.
pub open spec fn plugins_any_in_state(
    s: Seq<(Seq<char>, AnalyzerResultView)>,
    state: VersionState,
) -> bool {
    exists|i: int| 0 <= i < s.len() && s[i].1.state() == state
}

/// The severity of a collection of components: one failed entry fails the
/// whole collection; otherwise any vulnerability makes it vulnerable, any
/// outdated entry outdated, any indeterminate entry unknown.
pub open spec fn collection_summary(s: Seq<(Seq<char>, AnalyzerResultView)>) -> AnalysisSummary {
    if plugins_any_failed(s) {
        AnalysisSummary::Failed
    } else if plugins_vuln_sum(s) > 0 {
        AnalysisSummary::Vulnerable
    } else if plugins_any_in_state(s, VersionState::Outdated) {
        AnalysisSummary::Outdated
    } else if plugins_any_in_state(s, VersionState::Unknown) {
        AnalysisSummary::Unknown
    } else {
        AnalysisSummary::Okay
    }
}

/// The severity of a whole report, combining the core, theme and plugin
/// summaries with the fixed precedence Vulnerable > Outdated > Failed; an
/// `Unknown` summary is not propagated to this level.
pub open spec fn report_summary(a: WpScanAnalysisView) -> AnalysisSummary {
    let core = a.word_press.summary();
    let theme = a.main_theme.summary();
    let plugins = collection_summary(a.plugins);
    if core == AnalysisSummary::Vulnerable || theme == AnalysisSummary::Vulnerable || plugins
        == AnalysisSummary::Vulnerable {
        AnalysisSummary::Vulnerable
    } else if core == AnalysisSummary::Outdated || theme == AnalysisSummary::Outdated || plugins
        == AnalysisSummary::Outdated {
        AnalysisSummary::Outdated
    } else if core == AnalysisSummary::Failed || theme == AnalysisSummary::Failed || plugins
        == AnalysisSummary::Failed {
        AnalysisSummary::Failed
    } else {
        AnalysisSummary::Okay
    }
}

proof fn lemma_any_failed_extend(s: Seq<(Seq<char>, AnalyzerResultView)>, i: int)
    requires
        0 <= i < s.len(),
    ensures
        plugins_any_failed(s.subrange(0, i + 1)) == (plugins_any_failed(s.subrange(0, i))
            || s[i].1.is_failed()),
{
    let pre = s.subrange(0, i);
    let ext = s.subrange(0, i + 1);
    if plugins_any_failed(ext) {
        let j = choose|j: int| 0 <= j < ext.len() && ext[j].1.is_failed();
        if j < i {
            assert(pre[j].1.is_failed());
        }
    }
    if plugins_any_failed(pre) {
        let j = choose|j: int| 0 <= j < pre.len() && pre[j].1.is_failed();
        assert(ext[j].1.is_failed());
    }
    if s[i].1.is_failed() {
        assert(ext[i].1.is_failed());
    }
}

proof fn lemma_any_state_extend(s: Seq<(Seq<char>, AnalyzerResultView)>, i: int, state: VersionState)
    requires
        0 <= i < s.len(),
    ensures
        plugins_any_in_state(s.subrange(0, i + 1), state) == (plugins_any_in_state(
            s.subrange(0, i),
            state,
        ) || s[i].1.state() == state),
{
    let pre = s.subrange(0, i);
    let ext = s.subrange(0, i + 1);
    if plugins_any_in_state(ext, state) {
        let j = choose|j: int| 0 <= j < ext.len() && ext[j].1.state() == state;
        if j < i {
            assert(pre[j].1.state() == state);
        }
    }
    if plugins_any_in_state(pre, state) {
        let j = choose|j: int| 0 <= j < pre.len() && pre[j].1.state() == state;
        assert(ext[j].1.state() == state);
    }
    if s[i].1.state() == state {
        assert(ext[i].1.state() == state);
    }
}

/// Anything that reduces to one severity classification.
pub trait Summary {
    /// The severity this value reduces to.
    spec fn summary_spec(&self) -> AnalysisSummary;

    /// Reduces the value to its severity classification.
    fn summary(&self) -> (s: AnalysisSummary)
        ensures
            s == self.summary_spec(),
    ;
}

impl Summary for AnalyzerResult {
    open spec fn summary_spec(&self) -> AnalysisSummary {
        self.deep_view().summary()
    }

    fn summary(&self) -> (s: AnalysisSummary) {
        match self {
            AnalyzerResult::Failed(_) => AnalysisSummary::Failed,
            AnalyzerResult::Success(analysis) => if analysis.vulnerabilities > 0 {
                AnalysisSummary::Vulnerable
            } else if analysis.version_state.is_outdated() {
                AnalysisSummary::Outdated
            } else if analysis.version_state.is_unknown() {
                AnalysisSummary::Unknown
            } else {
                AnalysisSummary::Okay
            },
        }
    }
}

impl Summary for Vec<(String, AnalyzerResult)> {
    open spec fn summary_spec(&self) -> AnalysisSummary {
        collection_summary(self.deep_view())
    }

    fn summary(&self) -> (s: AnalysisSummary) {
        let ghost all = self.deep_view();
        let mut any_fail = false;
        let mut any_vuln = false;
        let mut any_outdated = false;
        let mut any_unknown = false;
        let n = self.len();
        assert(all.subrange(0, 0) =~= Seq::<(Seq<char>, AnalyzerResultView)>::empty());
        for i in 0..n
            invariant
                n == self.len(),
                all == self.deep_view(),
                any_fail == plugins_any_failed(all.subrange(0, i as int)),
                any_vuln == (plugins_vuln_sum(all.subrange(0, i as int)) > 0),
                any_outdated == plugins_any_in_state(
                    all.subrange(0, i as int),
                    VersionState::Outdated,
                ),
                any_unknown == plugins_any_in_state(
                    all.subrange(0, i as int),
                    VersionState::Unknown,
                ),
        {
            proof {
                lemma_any_failed_extend(all, i as int);
                lemma_vuln_sum_extend(all, i as int);
                lemma_any_state_extend(all, i as int, VersionState::Outdated);
                lemma_any_state_extend(all, i as int, VersionState::Unknown);
            }
            let result = &self[i].1;
            any_fail = any_fail || result.failed();
            any_vuln = any_vuln || result.vulnerabilities() > 0;
            let state = result.version_state();
            any_outdated = any_outdated || state.is_outdated();
            any_unknown = any_unknown || state.is_unknown();
        }
        assert(all.subrange(0, n as int) =~= all);
        if any_fail {
            AnalysisSummary::Failed
        } else if any_vuln {
            AnalysisSummary::Vulnerable
        } else if any_outdated {
            AnalysisSummary::Outdated
        } else if any_unknown {
            AnalysisSummary::Unknown
        } else {
            AnalysisSummary::Okay
        }
    }
}

impl Summary for WpScanAnalysis {
    open spec fn summary_spec(&self) -> AnalysisSummary {
        report_summary(self.deep_view())
    }

    fn summary(&self) -> (s: AnalysisSummary) {
        let core = self.word_press.summary();
        let theme = self.main_theme.summary();
        let plugins = self.plugins.summary();
        if core == AnalysisSummary::Vulnerable || theme == AnalysisSummary::Vulnerable || plugins
            == AnalysisSummary::Vulnerable {
            AnalysisSummary::Vulnerable
        } else if core == AnalysisSummary::Outdated || theme == AnalysisSummary::Outdated || plugins
            == AnalysisSummary::Outdated {
            AnalysisSummary::Outdated
        } else if core == AnalysisSummary::Failed || theme == AnalysisSummary::Failed || plugins
            == AnalysisSummary::Failed {
            AnalysisSummary::Failed
        } else {
            AnalysisSummary::Okay
        }
    }
}

/// A core platform with no detection info is classified `Unknown` and
/// contributes no vulnerabilities.
pub proof fn lemma_undetected_core_is_unknown(scan: WpScanView)
    requires
        scan.word_press is None,
    ensures
        analyze_spec(scan).word_press.state() == VersionState::Unknown,
        analyze_spec(scan).word_press.vuln_count() == 0,
{
}

/// A theme with no detection info is classified `Unknown` and contributes no
/// vulnerabilities.
pub proof fn lemma_undetected_theme_is_unknown(scan: WpScanView)
    requires
        scan.main_theme is None,
    ensures
        analyze_spec(scan).main_theme.state() == VersionState::Unknown,
        analyze_spec(scan).main_theme.vuln_count() == 0,
{
}

/// A plugin flagged outdated without an identified version is classified
/// `Unknown`, not `Outdated`.
pub proof fn lemma_flagged_plugin_without_version_is_unknown(p: PluginView)
    requires
        p.outdated == Option::Some(true),
        p.version is None,
    ensures
        analyze_plugin_spec(p).version_state == VersionState::Unknown,
{
}

/// A theme flagged outdated without an identified version is classified
/// `Unknown`, not `Outdated`.
pub proof fn lemma_flagged_theme_without_version_is_unknown(mt: MainThemeView)
    requires
        mt.outdated == Option::Some(true),
        mt.version is None,
    ensures
        analyze_theme_spec(Option::Some(mt)).version_state == VersionState::Unknown,
{
}

/// A component with any vulnerabilities is summarized `Vulnerable`, whatever
/// its version state.
pub proof fn lemma_vulnerable_takes_precedence(r: AnalyzerResultView)
    requires
        r.vuln_count() > 0,
    ensures
        r.summary() == AnalysisSummary::Vulnerable,
{
}

/// Analyzing one immutable report twice yields identical analyses: the
/// analysis is a function of the report alone.
pub proof fn lemma_analysis_deterministic(
    scan: WpScan,
    first: WpScanAnalysis,
    second: WpScanAnalysis,
)
    requires
        first.deep_view() == analyze_spec(scan.deep_view()),
        second.deep_view() == analyze_spec(scan.deep_view()),
    ensures
        first.deep_view() == second.deep_view(),
{
}

} // verus!
