use rebootreminder::config::{
    default_system_reboot_config, DetectionMethodsConfig, RebootConfig,
};
use rebootreminder::reboot::detector::{
    file_operations_finding, registry_finding, renames_pending, sccm_finding,
    windows_update_finding, CheckOutcome,
    CheckReport, DetectionMethod, FileOperationReadings, RebootDetector, RegistryReadings,
    SccmReadings,
};
use rebootreminder::reboot::system_info::{
    boot_time_in_report, first_ipv4, is_virtual_machine, parse_boot_time, BootTimeError,
    SystemReport,
};
use rebootreminder::time::Timestamp;
use rebootreminder::utils::registry::compare_computer_names;

fn detector(windows_update: bool, sccm: bool, registry: bool, files: bool) -> RebootDetector {
    RebootDetector::new(&RebootConfig {
        timeframes: vec![],
        detection_methods: DetectionMethodsConfig {
            windows_update,
            sccm,
            registry,
            pending_file_operations: files,
        },
        system_reboot: default_system_reboot_config(),
    })
}

fn report(method: DetectionMethod, id: &str, finding: Option<&str>) -> CheckReport {
    CheckReport::completed_at(
        id.to_string(),
        Timestamp::from_secs(1_000),
        method,
        finding.map(|f| f.to_string()),
    )
}

#[test]
fn no_reboot_is_required_when_no_check_finds_one() {
    let all = detector(true, true, true, true);
    let reports = vec![
        report(DetectionMethod::WindowsUpdate, "a", None),
        report(DetectionMethod::Sccm, "b", None),
        report(DetectionMethod::Registry, "c", None),
        report(DetectionMethod::PendingFileOperations, "d", None),
    ];
    let (required, sources) = all.check_reboot_required(&reports);
    assert!(!required);
    assert!(sources.is_empty());
    let (required, sources) = all.check_reboot_required(&vec![]);
    assert!(!required);
    assert!(sources.is_empty());
}

#[test]
fn one_finding_is_enough_whatever_the_other_checks_say() {
    let all = detector(true, true, true, true);
    let reports = vec![
        CheckReport::failed(DetectionMethod::WindowsUpdate),
        report(DetectionMethod::Sccm, "b", None),
        report(DetectionMethod::Registry, "c", Some("Computer name change is pending")),
        CheckReport::failed(DetectionMethod::PendingFileOperations),
    ];
    let (required, sources) = all.check_reboot_required(&reports);
    assert!(required);
    assert_eq!(sources.len(), 1);
    assert_eq!(sources[0].id, "c");
    assert_eq!(sources[0].name, "registry");
    assert_eq!(sources[0].description.as_deref(), Some("Registry indicates a reboot is required"));
    assert_eq!(sources[0].severity, "required");
    assert_eq!(sources[0].details.as_deref(), Some("Computer name change is pending"));
    assert_eq!(sources[0].detected_at, Timestamp::from_secs(1_000));
    assert_eq!(sources[0].expires_at, None);
}

#[test]
fn the_evidence_keeps_the_order_of_the_checks_and_leaves_out_disabled_ones() {
    let reports = vec![
        report(DetectionMethod::WindowsUpdate, "a", Some("update")),
        report(DetectionMethod::Sccm, "b", Some("sccm")),
        report(DetectionMethod::Registry, "c", None),
        report(DetectionMethod::PendingFileOperations, "d", Some("files")),
    ];
    let (required, sources) = detector(true, true, true, true).check_reboot_required(&reports);
    assert!(required);
    let ids: Vec<&str> = sources.iter().map(|s| s.id.as_str()).collect();
    assert_eq!(ids, vec!["a", "b", "d"]);

    let (required, sources) = detector(false, true, true, false).check_reboot_required(&reports);
    assert!(required);
    let ids: Vec<&str> = sources.iter().map(|s| s.id.as_str()).collect();
    assert_eq!(ids, vec!["b"]);

    let (required, sources) = detector(false, false, true, false).check_reboot_required(&reports);
    assert!(!required);
    assert!(sources.is_empty());

    // the same reports give the same answer again
    let again = detector(true, true, true, true).check_reboot_required(&reports);
    assert_eq!(again.1.iter().map(|s| s.id.as_str()).collect::<Vec<_>>(), vec!["a", "b", "d"]);
}

#[test]
fn a_detector_counts_the_checks_that_are_switched_on() {
    let some = detector(true, false, false, true);
    assert!(some.is_enabled(DetectionMethod::WindowsUpdate));
    assert!(!some.is_enabled(DetectionMethod::Sccm));
    assert!(!some.is_enabled(DetectionMethod::Registry));
    assert!(some.is_enabled(DetectionMethod::PendingFileOperations));
}

#[test]
fn a_completed_check_draws_its_own_identifier() {
    let done = CheckReport::completed(DetectionMethod::WindowsUpdate, Some("found".to_string()));
    assert_eq!(done.method, DetectionMethod::WindowsUpdate);
    match done.outcome {
        CheckOutcome::Completed { required, source } => {
            assert!(required);
            assert_eq!(source.id.len(), 36);
            assert_eq!(source.name, "windows_update");
            assert_eq!(source.description.as_deref(), Some("Windows Update requires a reboot"));
            assert_eq!(source.details.as_deref(), Some("found"));
            assert!(source.detected_at.secs > 1_600_000_000);
        }
        CheckOutcome::Failed => panic!("the check ran"),
    }
    let nothing = CheckReport::completed(DetectionMethod::Sccm, None);
    match nothing.outcome {
        CheckOutcome::Completed { required, source } => {
            assert!(!required);
            assert_eq!(source.name, "sccm");
            assert_eq!(source.description.as_deref(), Some("SCCM requires a reboot"));
            assert_eq!(source.details, None);
        }
        CheckOutcome::Failed => panic!("the check ran"),
    }
    let files = CheckReport::completed(DetectionMethod::PendingFileOperations, None);
    match files.outcome {
        CheckOutcome::Completed { source, .. } => {
            assert_eq!(source.name, "pending_file_operations");
            assert_eq!(
                source.description.as_deref(),
                Some("Pending file operations require a reboot")
            );
        }
        CheckOutcome::Failed => panic!("the check ran"),
    }
    assert!(matches!(
        CheckReport::failed(DetectionMethod::Registry).outcome,
        CheckOutcome::Failed
    ));
}

#[test]
fn the_windows_update_check_goes_by_its_registry_key() {
    assert_eq!(
        windows_update_finding(true).as_deref(),
        Some("Windows Update registry key indicates a reboot is required")
    );
    assert_eq!(windows_update_finding(false), None);
}

#[test]
fn the_sccm_check_reports_the_first_sign_it_finds() {
    let none = SccmReadings {
        client_installed: true,
        reboot_pending_key: false,
        reboot_data_key: false,
        notify_file: false,
        state_file: false,
    };
    assert_eq!(sccm_finding(&none), None);
    let all = SccmReadings {
        client_installed: true,
        reboot_pending_key: true,
        reboot_data_key: true,
        notify_file: true,
        state_file: true,
    };
    assert_eq!(
        sccm_finding(&all).as_deref(),
        Some("SCCM registry key indicates a reboot is pending: SOFTWARE\\Microsoft\\CCM\\ClientSDK\\RebootPending")
    );
    assert_eq!(
        sccm_finding(&SccmReadings { reboot_pending_key: false, ..all }).as_deref(),
        Some("SCCM registry key indicates a reboot is pending: SOFTWARE\\Microsoft\\SMS\\Mobile Client\\Reboot Management\\RebootData")
    );
    assert_eq!(
        sccm_finding(&SccmReadings { reboot_pending_key: false, reboot_data_key: false, ..all })
            .as_deref(),
        Some("SCCM reboot file exists: C:\\Windows\\CCM\\ClientCache\\SCNotify.exe.reboot")
    );
    assert_eq!(
        sccm_finding(&SccmReadings { state_file: true, ..none }).as_deref(),
        Some("SCCM reboot file exists: C:\\Windows\\CCM\\CIStateStore\\Reboot")
    );
    assert_eq!(sccm_finding(&SccmReadings { client_installed: false, ..all }), None);
}

#[test]
fn the_registry_check_looks_at_servicing_renames_and_the_computer_name() {
    let quiet = RegistryReadings {
        servicing_key: false,
        pending_renames: None,
        active_name: Some("WORKSTATION".to_string()),
        pending_name: Some("workstation".to_string()),
    };
    assert_eq!(registry_finding(&quiet), None);
    assert_eq!(
        registry_finding(&RegistryReadings { servicing_key: true, ..quiet.clone() }).as_deref(),
        Some("Component Based Servicing registry key indicates a reboot is pending")
    );
    assert_eq!(
        registry_finding(&RegistryReadings {
            pending_renames: Some("\\??\\C:\\old".to_string()),
            ..quiet.clone()
        })
        .as_deref(),
        Some("Session Manager registry key indicates pending file rename operations")
    );
    assert_eq!(
        registry_finding(&RegistryReadings { pending_renames: Some(String::new()), ..quiet.clone() }),
        None
    );
    assert_eq!(
        registry_finding(&RegistryReadings {
            pending_name: Some("NEWNAME".to_string()),
            ..quiet.clone()
        })
        .as_deref(),
        Some("Computer name change is pending")
    );
    assert_eq!(registry_finding(&RegistryReadings { pending_name: None, ..quiet.clone() }), None);
    assert_eq!(registry_finding(&RegistryReadings { active_name: None, ..quiet }), None);
}

#[test]
fn computer_names_are_compared_without_regard_to_ascii_case() {
    assert!(compare_computer_names("Host-01", "HOST-01"));
    assert!(compare_computer_names("", ""));
    assert!(!compare_computer_names("Host-01", "Host-02"));
    assert!(!compare_computer_names("Host", "Host1"));
    assert!(!compare_computer_names("STRAßE", "STRASSE"));
    assert!(!compare_computer_names("é", "É"));
    for (a, b) in [("aZ@[`{", "Az@[`{"), ("@", "`"), ("[", "{"), ("K", "k")] {
        assert_eq!(compare_computer_names(a, b), a.eq_ignore_ascii_case(b), "{} {}", a, b);
    }
}

#[test]
fn the_file_operations_check_looks_at_renames_and_upgrade_directories() {
    let quiet = FileOperationReadings {
        pending_renames: None,
        upgrade_bt_directory: false,
        upgrade_ws_directory: false,
    };
    assert_eq!(file_operations_finding(&quiet), None);
    assert_eq!(
        file_operations_finding(&FileOperationReadings {
            pending_renames: Some("x".to_string()),
            upgrade_bt_directory: true,
            upgrade_ws_directory: true,
        })
        .as_deref(),
        Some("Pending file rename operations detected")
    );
    assert_eq!(
        file_operations_finding(&FileOperationReadings {
            upgrade_bt_directory: true,
            upgrade_ws_directory: true,
            ..quiet.clone()
        })
        .as_deref(),
        Some("Windows.~BT directory exists, indicating a pending Windows upgrade")
    );
    assert_eq!(
        file_operations_finding(&FileOperationReadings { upgrade_ws_directory: true, ..quiet })
            .as_deref(),
        Some("Windows.~WS directory exists, indicating a pending Windows upgrade")
    );
}

#[test]
fn boot_times_are_read_from_their_first_fourteen_characters() {
    assert_eq!(
        parse_boot_time("20230101000000.000000+000"),
        Ok(Timestamp::from_secs(1_672_531_200))
    );
    assert_eq!(parse_boot_time("20150515000000"), Ok(Timestamp::from_secs(1_431_648_000)));
    assert_eq!(parse_boot_time("2023010100000"), Err(BootTimeError::TooShort));
    assert_eq!(parse_boot_time(""), Err(BootTimeError::TooShort));
    assert_eq!(parse_boot_time("20231301000000.000000+000"), Err(BootTimeError::NotATime));
    assert_eq!(parse_boot_time("2023-01-01 00:00:00"), Err(BootTimeError::NotATime));

    let detector = detector(true, true, true, true);
    assert_eq!(detector.get_last_boot_time(&vec![]), Err(BootTimeError::NotReported));
    assert_eq!(
        detector.get_last_boot_time(&vec![
            "20230101000000.000000+000".to_string(),
            "nonsense".to_string()
        ]),
        Ok(Timestamp::from_secs(1_672_531_200))
    );
}

fn system_report() -> SystemReport {
    SystemReport {
        computer_name: Some("HOST-01".to_string()),
        caption: Some("Microsoft Windows 11 Pro".to_string()),
        domain: None,
        model: Some("VMware Virtual Platform".to_string()),
        last_boot_up_time: Some("20230101000000.000000+000".to_string()),
        addresses: vec![
            vec!["fe80::1".to_string()],
            vec!["fe80::2".to_string(), "10.0.0.7".to_string(), "192.168.1.2".to_string()],
        ],
        sccm_client_installed: false,
        sccm_client_version: Some("5.00".to_string()),
    }
}

#[test]
fn the_machine_is_described_from_what_is_reported() {
    let report = system_report();
    let boot = boot_time_in_report(&report).expect("a boot time");
    assert_eq!(boot, Timestamp::from_secs(1_672_531_200));
    let now = Timestamp::from_secs(1_672_531_200 + 3_600);
    let info = detector(true, true, true, true).get_system_info(&report, boot, now);
    assert_eq!(info.computer_name, "HOST-01");
    assert_eq!(info.os_version, "Microsoft Windows 11 Pro");
    assert_eq!(info.domain, "Unknown");
    assert_eq!(info.last_boot_time, boot);
    assert_eq!(info.uptime, 3_600);
    assert_eq!(info.ip_address.as_deref(), Some("10.0.0.7"));
    assert!(info.is_virtual_machine);
    assert!(!info.sccm_client_installed);
    assert_eq!(info.sccm_client_version, None);

    let mut bare = system_report();
    bare.computer_name = None;
    bare.caption = None;
    bare.model = None;
    bare.last_boot_up_time = Some("soon".to_string());
    bare.addresses = vec![vec![], vec!["::1".to_string()]];
    bare.sccm_client_installed = true;
    assert_eq!(boot_time_in_report(&bare), None);
    let info = detector(true, true, true, true).get_system_info(&bare, boot, boot);
    assert_eq!(info.computer_name, "Unknown");
    assert_eq!(info.os_version, "Unknown");
    assert_eq!(info.uptime, 0);
    assert_eq!(info.ip_address, None);
    assert!(!info.is_virtual_machine);
    assert_eq!(info.sccm_client_version.as_deref(), Some("5.00"));
}

#[test]
fn virtual_machines_are_known_by_their_model() {
    assert!(is_virtual_machine("Virtual Machine"));
    assert!(is_virtual_machine("VMWARE7,1"));
    assert!(is_virtual_machine("Microsoft Hyper-V"));
    assert!(!is_virtual_machine("Latitude 7420"));
    assert!(!is_virtual_machine(""));
    assert!(!is_virtual_machine("hyper"));
}

#[test]
fn the_first_address_with_a_dot_is_the_ip_address() {
    assert_eq!(first_ipv4(&vec![]), None);
    assert_eq!(first_ipv4(&vec![vec![], vec![]]), None);
    assert_eq!(
        first_ipv4(&vec![vec!["a:b".to_string(), "1.2.3.4".to_string()], vec!["5.6.7.8".to_string()]])
            .as_deref(),
        Some("1.2.3.4")
    );
}

#[test]
fn test_wmi_last_boot_time() {
    // Create a new detector
    let detector = RebootDetector::new(&RebootConfig {
        timeframes: vec![],
        detection_methods: DetectionMethodsConfig {
            windows_update: true,
            sccm: true,
            registry: true,
            pending_file_operations: true,
        },
        system_reboot: default_system_reboot_config(),
    });

    // Get last boot time
    let last_boot_time =
        detector.get_last_boot_time(&vec!["20240229235959.500000+060".to_string()]);

    // The test should not fail
    assert!(last_boot_time.is_ok(), "Failed to get last boot time");

    // The last boot time should be in the past
    let now = Timestamp::from_secs(chrono::Utc::now().timestamp());
    assert!(last_boot_time.unwrap() <= now, "Last boot time is in the future");
    assert_eq!(last_boot_time, Ok(Timestamp::from_secs(1_709_251_199)));
}

#[test]
fn test_system_info() {
    // Create a new detector
    let detector = RebootDetector::new(&RebootConfig {
        timeframes: vec![],
        detection_methods: DetectionMethodsConfig {
            windows_update: true,
            sccm: true,
            registry: true,
            pending_file_operations: true,
        },
        system_reboot: default_system_reboot_config(),
    });

    // Get system info
    let report = system_report();
    let now = Timestamp::from_secs(chrono::Utc::now().timestamp());
    let boot = boot_time_in_report(&report).expect("Failed to get last boot time");
    let info = detector.get_system_info(&report, boot, now);

    // Check system info properties
    assert!(!info.computer_name.is_empty(), "Computer name is empty");
    assert!(!info.os_version.is_empty(), "OS version is empty");
    assert!(!info.domain.is_empty(), "Domain is empty");

    // The last boot time should be in the past
    assert!(info.last_boot_time <= now, "Last boot time is in the future");

    // Uptime should be positive
    assert!(info.uptime > 0, "Uptime is not positive");
}

#[test]
fn the_checks_are_made_in_a_fixed_order() {
    let all = detector(true, true, true, true);
    assert_eq!(
        all.checks_to_make(),
        vec![
            DetectionMethod::WindowsUpdate,
            DetectionMethod::Sccm,
            DetectionMethod::Registry,
            DetectionMethod::PendingFileOperations,
        ]
    );
    assert_eq!(
        detector(false, true, false, true).checks_to_make(),
        vec![DetectionMethod::Sccm, DetectionMethod::PendingFileOperations]
    );
    assert!(detector(false, false, false, false).checks_to_make().is_empty());

    let asked = std::cell::RefCell::new(Vec::new());
    let reports = detector(true, false, true, true).run_checks(|method| {
        asked.borrow_mut().push(method);
        match method {
            DetectionMethod::Registry => CheckReport::failed(method),
            other => report(other, "id", Some("found")),
        }
    });
    assert_eq!(
        asked.into_inner(),
        vec![
            DetectionMethod::WindowsUpdate,
            DetectionMethod::Registry,
            DetectionMethod::PendingFileOperations,
        ]
    );
    assert_eq!(reports.len(), 3);
    assert_eq!(reports[0].method, DetectionMethod::WindowsUpdate);
    assert!(matches!(reports[1].outcome, CheckOutcome::Failed));
    let (required, sources) = detector(true, false, true, true).check_reboot_required(&reports);
    assert!(required);
    let names: Vec<&str> = sources.iter().map(|s| s.name.as_str()).collect();
    assert_eq!(names, vec!["windows_update", "pending_file_operations"]);
}

#[test]
fn pending_renames_are_a_list_that_is_not_empty() {
    assert!(renames_pending(&Some("x".to_string())));
    assert!(!renames_pending(&Some(String::new())));
    assert!(!renames_pending(&None));
}
