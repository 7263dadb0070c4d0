//! Detection: several independent checks each say whether they see a pending
//! reboot, and the detector combines what they say.
//!
//! A check that fails has no vote. The machine needs a reboot as soon as one
//! check that is switched on says so, and the evidence is what those checks
//! found, in the order in which the checks were made.

use vstd::prelude::*;
use vstd::string::StringExecFns;
use crate::config::models::{DetectionMethodsConfig, RebootConfig};
use crate::database::models::{found_source, new_id, RebootSource, RebootSourceView};
use crate::reboot::system_info::{
    boot_time_of, describe_system, is_described, parse_boot_time, BootTimeError, SystemInfo,
    SystemReport,
};
use crate::time::{utc_now, Timestamp};
use crate::utils::registry::compare_computer_names;

verus! {

/// The checks that the detector knows.
#[derive(Debug, Clone, Copy, PartialEq, Eq, Structural)]
pub enum DetectionMethod {
    WindowsUpdate,
    Sccm,
    Registry,
    PendingFileOperations,
}

/// What a check came back with.
#[derive(Debug, Clone)]
pub enum CheckOutcome {
    /// The check ran; `source` describes what it looked at.
    Completed { required: bool, source: RebootSource },
    /// The check could not be made.
    Failed,
}

/// The outcome of one check.
#[derive(Debug, Clone)]
pub struct CheckReport {
    pub method: DetectionMethod,
    pub outcome: CheckOutcome,
}

/// Whether `method` is switched on.
pub open spec fn method_enabled(methods: DetectionMethodsConfig, method: DetectionMethod) -> bool {
    match method {
        DetectionMethod::WindowsUpdate => methods.windows_update,
        DetectionMethod::Sccm => methods.sccm,
        DetectionMethod::Registry => methods.registry,
        DetectionMethod::PendingFileOperations => methods.pending_file_operations,
    }
}

/// Whether a report votes for a reboot: its check is switched on, it ran, and
/// it found a reboot pending.
pub open spec fn votes_for_reboot(methods: DetectionMethodsConfig, report: CheckReport) -> bool {
    &&& method_enabled(methods, report.method)
    &&& report.outcome matches CheckOutcome::Completed { required, .. }
    &&& required
}

/// The evidence in a run of reports: the sources of those that vote for a
/// reboot, in the order of the reports.
pub open spec fn evidence(methods: DetectionMethodsConfig, reports: Seq<CheckReport>) -> Seq<
    RebootSource,
>
    decreases reports.len(),
{
    if reports.len() == 0 {
        Seq::empty()
    } else {
        let before = evidence(methods, reports.drop_last());
        if votes_for_reboot(methods, reports.last()) {
            before.push(reports.last().outcome->source)
        } else {
            before
        }
    }
}

/// The check `method` if it is switched on, and nothing if it is not.
pub open spec fn check_if_enabled(methods: DetectionMethodsConfig, method: DetectionMethod) -> Seq<
    DetectionMethod,
> {
    if method_enabled(methods, method) {
        seq![method]
    } else {
        Seq::empty()
    }
}

/// The checks to make, in the order in which they are made: Windows
/// Update, SCCM, the registry and the pending file operations, each if it
/// is switched on.
pub open spec fn checks_due(methods: DetectionMethodsConfig) -> Seq<DetectionMethod> {
    check_if_enabled(methods, DetectionMethod::WindowsUpdate) + check_if_enabled(
        methods,
        DetectionMethod::Sccm,
    ) + check_if_enabled(methods, DetectionMethod::Registry) + check_if_enabled(
        methods,
        DetectionMethod::PendingFileOperations,
    )
}

/// Combines the reports of the checks.
pub struct RebootDetector {
    methods: DetectionMethodsConfig,
}

impl RebootDetector {
    /// The checks that this detector counts.
    pub closed spec fn methods(&self) -> DetectionMethodsConfig {
        self.methods
    }

    /// A detector for the checks that `config` switches on.
    pub fn new(config: &RebootConfig) -> (detector: Self)
        ensures
            detector.methods() == config.detection_methods,
    {
        RebootDetector { methods: config.detection_methods }
    }

    /// Whether the detector counts the check `method`; the host makes only
    /// the checks that are counted.
    pub fn is_enabled(&self, method: DetectionMethod) -> (enabled: bool)
        ensures
            enabled == method_enabled(self.methods(), method),
    {
        match method {
            DetectionMethod::WindowsUpdate => self.methods.windows_update,
            DetectionMethod::Sccm => self.methods.sccm,
            DetectionMethod::Registry => self.methods.registry,
            DetectionMethod::PendingFileOperations => self.methods.pending_file_operations,
        }
    }

    /// The checks to make, in the order in which they are made.
    pub fn checks_to_make(&self) -> (checks: Vec<DetectionMethod>)
        ensures
            checks@ == checks_due(self.methods()),
    {
        let mut checks: Vec<DetectionMethod> = Vec::new();
        if self.methods.windows_update {
            checks.push(DetectionMethod::WindowsUpdate);
        }
        if self.methods.sccm {
            checks.push(DetectionMethod::Sccm);
        }
        if self.methods.registry {
            checks.push(DetectionMethod::Registry);
        }
        if self.methods.pending_file_operations {
            checks.push(DetectionMethod::PendingFileOperations);
        }
        assert(checks@ =~= checks_due(self.methods()));
        checks
    }

    /// Makes the checks that are switched on, one after the other in their
    /// fixed order, each by a call of `check`, and hands out what they
    /// report in that order.
    pub fn run_checks<F: Fn(DetectionMethod) -> CheckReport>(&self, check: F) -> (reports: Vec<
        CheckReport,
    >)
        requires
            forall|method: DetectionMethod| #[trigger] check.requires((method,)),
        ensures
            reports@.len() == checks_due(self.methods()).len(),
            forall|i: int|
                0 <= i < reports@.len() ==> check.ensures(
                    (checks_due(self.methods())[i],),
                    #[trigger] reports@[i],
                ),
    {
        let checks = self.checks_to_make();
        let mut reports: Vec<CheckReport> = Vec::new();
        let mut i: usize = 0;
        while i < checks.len()
            invariant
                checks@ == checks_due(self.methods()),
                i <= checks.len(),
                reports@.len() == i,
                forall|method: DetectionMethod| #[trigger] check.requires((method,)),
                forall|k: int|
                    0 <= k < i ==> check.ensures((checks@[k],), #[trigger] reports@[k]),
            decreases checks.len() - i,
        {
            let report = check(checks[i]);
            reports.push(report);
            i += 1;
        }
        reports
    }

    /// Whether a reboot is required according to `reports`, and the evidence
    /// for it.
    pub fn check_reboot_required(&self, reports: &Vec<CheckReport>) -> (result: (
        bool,
        Vec<RebootSource>,
    ))
        ensures
            result.1@ == evidence(self.methods(), reports@),
            result.0 == (result.1@.len() > 0),
    {
        let mut sources: Vec<RebootSource> = Vec::new();
        let mut i: usize = 0;
        while i < reports.len()
            invariant
                i <= reports.len(),
                sources@ == evidence(self.methods(), reports@.take(i as int)),
            decreases reports.len() - i,
        {
            proof {
                assert(reports@.take(i + 1).drop_last() == reports@.take(i as int));
            }
            let report = &reports[i];
            if self.is_enabled(report.method) {
                match &report.outcome {
                    CheckOutcome::Completed { required, source } => {
                        if *required {
                            sources.push(source.clone());
                        }
                    },
                    CheckOutcome::Failed => {},
                }
            }
            i += 1;
        }
        proof {
            assert(reports@.take(reports@.len() as int) == reports@);
        }
        (sources.len() > 0, sources)
    }

    /// The time of the last boot, from the boot times that the management
    /// interface reports for the operating system: the first of them.
    pub fn get_last_boot_time(&self, reported: &Vec<String>) -> (time: Result<
        Timestamp,
        BootTimeError,
    >)
        ensures
            time == if reported@.len() == 0 {
                Err(BootTimeError::NotReported)
            } else {
                boot_time_of(reported@[0]@)
            },
    {
        if reported.len() == 0 {
            return Err(BootTimeError::NotReported);
        }
        parse_boot_time(reported[0].as_str())
    }

    /// What is told of the machine at the time `now`, the last boot having
    /// been at `last_boot_time`.
    pub fn get_system_info(&self, report: &SystemReport, last_boot_time: Timestamp, now: Timestamp) -> (info:
        SystemInfo)
        ensures
            is_described(*report, last_boot_time, now, info),
    {
        describe_system(report, last_boot_time, now)
    }
}

/// Every piece of evidence is the source of a report that votes for a
/// reboot.
pub proof fn lemma_evidence_has_voted(
    methods: DetectionMethodsConfig,
    reports: Seq<CheckReport>,
    k: int,
)
    requires
        0 <= k < evidence(methods, reports).len(),
    ensures
        exists|i: int|
            0 <= i < reports.len() && votes_for_reboot(methods, #[trigger] reports[i])
                && evidence(methods, reports)[k] == reports[i].outcome->source,
    decreases reports.len(),
{
    let before = evidence(methods, reports.drop_last());
    if k < before.len() {
        lemma_evidence_has_voted(methods, reports.drop_last(), k);
        let i = choose|i: int|
            0 <= i < reports.drop_last().len() && votes_for_reboot(
                methods,
                #[trigger] reports.drop_last()[i],
            ) && before[k] == reports.drop_last()[i].outcome->source;
        assert(reports[i] == reports.drop_last()[i]);
    } else {
        assert(votes_for_reboot(methods, reports[reports.len() - 1]));
    }
}

/// Where no check that is switched on reports a pending reboot, there is no
/// evidence, and so no reboot is required.
pub proof fn lemma_no_vote_no_evidence(methods: DetectionMethodsConfig, reports: Seq<CheckReport>)
    requires
        forall|i: int| 0 <= i < reports.len() ==> !votes_for_reboot(methods, #[trigger] reports[i]),
    ensures
        evidence(methods, reports).len() == 0,
    decreases reports.len(),
{
    if reports.len() > 0 {
        assert forall|i: int| 0 <= i < reports.drop_last().len() implies !votes_for_reboot(
            methods,
            #[trigger] reports.drop_last()[i],
        ) by {
            assert(reports.drop_last()[i] == reports[i]);
        }
        lemma_no_vote_no_evidence(methods, reports.drop_last());
        assert(!votes_for_reboot(methods, reports[reports.len() - 1]));
    }
}

/// Where a check that is switched on reports a pending reboot, its source
/// is part of the evidence, whatever the other checks report, and so a
/// reboot is required.
pub proof fn lemma_vote_is_kept(methods: DetectionMethodsConfig, reports: Seq<CheckReport>, i: int)
    requires
        0 <= i < reports.len(),
        votes_for_reboot(methods, reports[i]),
    ensures
        evidence(methods, reports).contains(reports[i].outcome->source),
        evidence(methods, reports).len() > 0,
    decreases reports.len(),
{
    let before = evidence(methods, reports.drop_last());
    let all = evidence(methods, reports);
    if i == reports.len() - 1 {
        assert(all == before.push(reports[i].outcome->source));
        assert(all[all.len() - 1] == reports[i].outcome->source);
    } else {
        assert(reports.drop_last()[i] == reports[i]);
        lemma_vote_is_kept(methods, reports.drop_last(), i);
        let k = choose|k: int| 0 <= k < before.len() && before[k] == reports[i].outcome->source;
        assert(all[k] == reports[i].outcome->source);
    }
}

/// The name under which the evidence of a check is kept.
pub open spec fn source_name(method: DetectionMethod) -> Seq<char> {
    match method {
        DetectionMethod::WindowsUpdate => "windows_update"@,
        DetectionMethod::Sccm => "sccm"@,
        DetectionMethod::Registry => "registry"@,
        DetectionMethod::PendingFileOperations => "pending_file_operations"@,
    }
}

/// What the evidence of a check says in general.
pub open spec fn source_description(method: DetectionMethod) -> Seq<char> {
    match method {
        DetectionMethod::WindowsUpdate => "Windows Update requires a reboot"@,
        DetectionMethod::Sccm => "SCCM requires a reboot"@,
        DetectionMethod::Registry => "Registry indicates a reboot is required"@,
        DetectionMethod::PendingFileOperations => "Pending file operations require a reboot"@,
    }
}

/// The evidence of a check of `method` that ran at `detected_at` and found
/// `finding`: the finding is its detail.
pub open spec fn check_source(
    id: Seq<char>,
    detected_at: Timestamp,
    method: DetectionMethod,
    finding: Option<Seq<char>>,
) -> RebootSourceView {
    RebootSourceView {
        details: finding,
        ..found_source(
            id,
            detected_at,
            source_name(method),
            Some(source_description(method)),
            "required"@,
        )
    }
}

/// Whether `report` is the report of a check of `method` that ran and found
/// `finding`: a reboot is pending exactly if there is a finding.
pub open spec fn is_report_of(
    report: CheckReport,
    method: DetectionMethod,
    finding: Option<Seq<char>>,
) -> bool {
    &&& report.method == method
    &&& report.outcome matches CheckOutcome::Completed { required, source }
    &&& required == finding is Some
    &&& source@ == check_source(source@.id, source@.detected_at, method, finding)
}

impl CheckReport {
    /// The report of a check that could not be made.
    pub fn failed(method: DetectionMethod) -> (report: CheckReport)
        ensures
            report.method == method,
            report.outcome is Failed,
    {
        CheckReport { method, outcome: CheckOutcome::Failed }
    }

    /// The report of a check that ran now and found `finding`.
    pub fn completed(method: DetectionMethod, finding: Option<String>) -> (report: CheckReport)
        ensures
            is_report_of(report, method, finding.deep_view()),
            report.outcome->source@.id.len() == 36,
    {
        CheckReport::completed_at(new_id(), utc_now(), method, finding)
    }

    /// The report of a check that ran at `now` and found `finding`; its
    /// evidence gets the identifier `id`.
    pub fn completed_at(
        id: String,
        now: Timestamp,
        method: DetectionMethod,
        finding: Option<String>,
    ) -> (report: CheckReport)
        ensures
            is_report_of(report, method, finding.deep_view()),
            report.outcome->source@ == check_source(id@, now, method, finding.deep_view()),
    {
        let (name, description) = match method {
            DetectionMethod::WindowsUpdate => ("windows_update", "Windows Update requires a reboot"),
            DetectionMethod::Sccm => ("sccm", "SCCM requires a reboot"),
            DetectionMethod::Registry => ("registry", "Registry indicates a reboot is required"),
            DetectionMethod::PendingFileOperations => (
                "pending_file_operations",
                "Pending file operations require a reboot",
            ),
        };
        let mut source = RebootSource::found(id, now, name, Some(description), "required");
        let required = finding.is_some();
        source.details = finding;
        CheckReport { method, outcome: CheckOutcome::Completed { required, source } }
    }
}

/// The registry key whose presence says that Windows Update waits for a
/// reboot.
pub const WINDOWS_UPDATE_REBOOT_KEY: &'static str =
    "SOFTWARE\\Microsoft\\Windows\\CurrentVersion\\WindowsUpdate\\Auto Update\\RebootRequired";

/// The registry keys whose presence says that the SCCM client waits for a
/// reboot.
pub const SCCM_REBOOT_PENDING_KEY: &'static str = "SOFTWARE\\Microsoft\\CCM\\ClientSDK\\RebootPending";

pub const SCCM_REBOOT_DATA_KEY: &'static str =
    "SOFTWARE\\Microsoft\\SMS\\Mobile Client\\Reboot Management\\RebootData";

/// The files whose presence says that the SCCM client waits for a reboot.
pub const SCCM_NOTIFY_FILE: &'static str = "C:\\Windows\\CCM\\ClientCache\\SCNotify.exe.reboot";

pub const SCCM_STATE_FILE: &'static str = "C:\\Windows\\CCM\\CIStateStore\\Reboot";

/// The registry key whose presence says that component servicing waits for
/// a reboot.
pub const SERVICING_REBOOT_KEY: &'static str =
    "SOFTWARE\\Microsoft\\Windows\\CurrentVersion\\Component Based Servicing\\RebootPending";

/// The registry key and value that list the file renames put off to the next
/// start.
pub const SESSION_MANAGER_KEY: &'static str = "SYSTEM\\CurrentControlSet\\Control\\Session Manager";

pub const PENDING_RENAMES_VALUE: &'static str = "PendingFileRenameOperations";

/// The registry keys that hold the computer's name as it is and as it will
/// be after the next start, and the value in which they hold it.
pub const ACTIVE_COMPUTER_NAME_KEY: &'static str =
    "SYSTEM\\CurrentControlSet\\Control\\ComputerName\\ActiveComputerName";

pub const PENDING_COMPUTER_NAME_KEY: &'static str =
    "SYSTEM\\CurrentControlSet\\Control\\ComputerName\\ComputerName";

pub const COMPUTER_NAME_VALUE: &'static str = "ComputerName";

/// What the Windows Update check finds, given whether its registry key is
/// present.
pub fn windows_update_finding(key_present: bool) -> (finding: Option<String>)
    ensures
        finding.deep_view() == if key_present {
            Some("Windows Update registry key indicates a reboot is required"@)
        } else {
            None
        },
{
    if key_present {
        Some("Windows Update registry key indicates a reboot is required".to_owned())
    } else {
        None
    }
}

/// What the SCCM check looked at.
#[derive(Debug, Clone, Copy, PartialEq, Eq, Structural)]
pub struct SccmReadings {
    pub client_installed: bool,
    pub reboot_pending_key: bool,
    pub reboot_data_key: bool,
    pub notify_file: bool,
    pub state_file: bool,
}

/// What the SCCM check finds: nothing without a client; else the first of
/// the two registry keys and the two files that is present.
pub open spec fn sccm_finding_text(readings: SccmReadings) -> Option<Seq<char>> {
    if !readings.client_installed {
        None
    } else if readings.reboot_pending_key {
        Some("SCCM registry key indicates a reboot is pending: "@ + SCCM_REBOOT_PENDING_KEY@)
    } else if readings.reboot_data_key {
        Some("SCCM registry key indicates a reboot is pending: "@ + SCCM_REBOOT_DATA_KEY@)
    } else if readings.notify_file {
        Some("SCCM reboot file exists: "@ + SCCM_NOTIFY_FILE@)
    } else if readings.state_file {
        Some("SCCM reboot file exists: "@ + SCCM_STATE_FILE@)
    } else {
        None
    }
}

pub fn sccm_finding(readings: &SccmReadings) -> (finding: Option<String>)
    ensures
        finding.deep_view() == sccm_finding_text(*readings),
{
    if !readings.client_installed {
        None
    } else if readings.reboot_pending_key {
        Some("SCCM registry key indicates a reboot is pending: ".to_owned().concat(SCCM_REBOOT_PENDING_KEY))
    } else if readings.reboot_data_key {
        Some("SCCM registry key indicates a reboot is pending: ".to_owned().concat(SCCM_REBOOT_DATA_KEY))
    } else if readings.notify_file {
        Some("SCCM reboot file exists: ".to_owned().concat(SCCM_NOTIFY_FILE))
    } else if readings.state_file {
        Some("SCCM reboot file exists: ".to_owned().concat(SCCM_STATE_FILE))
    } else {
        None
    }
}

/// What the registry check looked at.
#[derive(Debug, Clone)]
pub struct RegistryReadings {
    /// Whether the key of component servicing is present.
    pub servicing_key: bool,
    /// The list of file renames put off to the next start, where there is
    /// one.
    pub pending_renames: Option<String>,
    /// The computer's name as it is.
    pub active_name: Option<String>,
    /// The computer's name as it will be after the next start.
    pub pending_name: Option<String>,
}

/// Whether there are file renames put off to the next start.
pub open spec fn has_pending_renames(pending_renames: Option<String>) -> bool {
    pending_renames is Some && pending_renames.unwrap()@.len() > 0
}

/// What the registry check finds: component servicing that waits, else
/// pending file renames, else a computer name that will change.
pub open spec fn registry_finding_text(readings: RegistryReadings) -> Option<Seq<char>> {
    if readings.servicing_key {
        Some("Component Based Servicing registry key indicates a reboot is pending"@)
    } else if has_pending_renames(readings.pending_renames) {
        Some("Session Manager registry key indicates pending file rename operations"@)
    } else if readings.active_name is Some && readings.pending_name is Some
        && !crate::utils::text::same_ignoring_ascii_case(
        readings.active_name.unwrap()@,
        readings.pending_name.unwrap()@,
    ) {
        Some("Computer name change is pending"@)
    } else {
        None
    }
}

/// Whether there are file renames put off to the next start, given what
/// was read of their list.
pub fn renames_pending(pending_renames: &Option<String>) -> (pending: bool)
    ensures
        pending == has_pending_renames(*pending_renames),
{
    match pending_renames {
        Some(list) => !list.as_str().is_empty(),
        None => false,
    }
}

pub fn registry_finding(readings: &RegistryReadings) -> (finding: Option<String>)
    ensures
        finding.deep_view() == registry_finding_text(*readings),
{
    if readings.servicing_key {
        return Some("Component Based Servicing registry key indicates a reboot is pending".to_owned());
    }
    if renames_pending(&readings.pending_renames) {
        return Some("Session Manager registry key indicates pending file rename operations".to_owned());
    }
    match (&readings.active_name, &readings.pending_name) {
        (Some(active), Some(pending)) => {
            if !compare_computer_names(active.as_str(), pending.as_str()) {
                return Some("Computer name change is pending".to_owned());
            }
        },
        _ => {},
    }
    None
}

/// What the check for pending file operations looked at.
#[derive(Debug, Clone)]
pub struct FileOperationReadings {
    /// The list of file renames put off to the next start, where there is
    /// one.
    pub pending_renames: Option<String>,
    /// Whether the directory `Windows.~BT` of an upgrade is present.
    pub upgrade_bt_directory: bool,
    /// Whether the directory `Windows.~WS` of an upgrade is present.
    pub upgrade_ws_directory: bool,
}

/// What the check for pending file operations finds: pending file renames,
/// else one of the two directories of a Windows upgrade.
pub open spec fn file_operations_finding_text(readings: FileOperationReadings) -> Option<Seq<char>> {
    if has_pending_renames(readings.pending_renames) {
        Some("Pending file rename operations detected"@)
    } else if readings.upgrade_bt_directory {
        Some("Windows.~BT directory exists, indicating a pending Windows upgrade"@)
    } else if readings.upgrade_ws_directory {
        Some("Windows.~WS directory exists, indicating a pending Windows upgrade"@)
    } else {
        None
    }
}

pub fn file_operations_finding(readings: &FileOperationReadings) -> (finding: Option<String>)
    ensures
        finding.deep_view() == file_operations_finding_text(*readings),
{
    if renames_pending(&readings.pending_renames) {
        Some("Pending file rename operations detected".to_owned())
    } else if readings.upgrade_bt_directory {
        Some("Windows.~BT directory exists, indicating a pending Windows upgrade".to_owned())
    } else if readings.upgrade_ws_directory {
        Some("Windows.~WS directory exists, indicating a pending Windows upgrade".to_owned())
    } else {
        None
    }
}

} // verus!
