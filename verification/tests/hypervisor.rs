use secbench::hvdetect::{
    bhyve_probe, hyperv_probe, hypervisor_flagged, identity_matches, kvm_probe, read_cpu,
    xen_probe, CpuReading, Hypervisor, HypervisorResult, HypervisorTest,
};
use secbench::{Test, TestResult};

const VENDORS: [Hypervisor; 4] =
    [Hypervisor::Xen, Hypervisor::KVM, Hypervisor::Bhyve, Hypervisor::HyperV];

/// The outcome of the four probes where each of them sees `reading`.
fn outcome_of(reading: CpuReading) -> HypervisorResult {
    HypervisorResult::from_probes(
        reading.reports(Hypervisor::Xen).unwrap(),
        reading.reports(Hypervisor::KVM).unwrap(),
        reading.reports(Hypervisor::Bhyve).unwrap(),
        reading.reports(Hypervisor::HyperV).unwrap(),
    )
}

/// The outcome on an architecture that can be probed.
fn outcome_for(hypervisor_flag: Option<bool>, identity: Option<Hypervisor>) -> HypervisorResult {
    outcome_of(CpuReading { probeable: true, hypervisor_flag, identity })
}

#[test]
fn reading_reports_only_its_own_vendor() {
    for identity in VENDORS {
        let reading =
            CpuReading { probeable: true, hypervisor_flag: Some(true), identity: Some(identity) };
        for vendor in VENDORS {
            assert_eq!(reading.reports(vendor), Ok(vendor == identity));
        }
    }
}

#[test]
fn reading_without_the_bit_reports_no_vendor() {
    for hypervisor_flag in [Some(false), None] {
        for identity in VENDORS {
            let reading = CpuReading { probeable: true, hypervisor_flag, identity: Some(identity) };
            for vendor in VENDORS {
                assert_eq!(reading.reports(vendor), Ok(false));
            }
        }
    }
}

#[test]
fn unprobeable_reading_reports_no_vendor_whatever_the_cpu_state() {
    for hypervisor_flag in [Some(true), Some(false), None] {
        for identity in [None, Some(Hypervisor::Xen), Some(Hypervisor::HyperV)] {
            let reading = CpuReading { probeable: false, hypervisor_flag, identity };
            for vendor in VENDORS {
                assert_eq!(reading.reports(vendor), Ok(false));
            }
            let outcome = outcome_of(reading);
            assert!(!outcome.present);
            assert_eq!(outcome.hypervisor, "unknown");
        }
    }
}

#[test]
fn reading_nothing_where_the_cpu_cannot_be_asked() {
    assert_eq!(
        read_cpu(false),
        CpuReading { probeable: false, hypervisor_flag: None, identity: None }
    );
}

#[test]
fn reading_this_machine_stops_without_the_bit() {
    let reading = read_cpu(true);
    assert!(reading.probeable);
    if reading.hypervisor_flag != Some(true) {
        assert_eq!(reading.identity, None);
    }
}

#[test]
fn probes_of_this_machine_agree_with_its_reading() {
    let reading = read_cpu(true);
    assert_eq!(xen_probe(true), reading.reports(Hypervisor::Xen));
    assert_eq!(kvm_probe(true), reading.reports(Hypervisor::KVM));
    assert_eq!(bhyve_probe(true), reading.reports(Hypervisor::Bhyve));
    assert_eq!(hyperv_probe(true), reading.reports(Hypervisor::HyperV));
    let outcome = HypervisorTest {}.run(true).unwrap();
    let expected = outcome_of(reading);
    assert_eq!(outcome.present, expected.present);
    assert_eq!(outcome.hypervisor, expected.hypervisor);
}

#[test]
fn hypervisor_name_is_its_description() {
    assert_eq!(HypervisorTest {}.name(), "whether we are running under a hypervisor");
}

#[test]
fn xen_signature_is_reported_as_xen() {
    let outcome = outcome_for(Some(true), Some(Hypervisor::Xen));
    assert!(outcome.present);
    assert_eq!(outcome.hypervisor, "Xen");
    assert!(outcome.success());
    assert_eq!(outcome.as_string(), "present");
    assert_eq!(outcome.explain(), vec!["  + Xen hypervisor control surface detected.".to_string()]);
}

#[test]
fn kvm_signature_is_reported_as_kvm() {
    let outcome = outcome_for(Some(true), Some(Hypervisor::KVM));
    assert!(outcome.present);
    assert_eq!(outcome.hypervisor, "KVM");
    assert_eq!(outcome.explain(), vec!["  + KVM hypervisor control surface detected.".to_string()]);
}

#[test]
fn bhyve_signature_is_reported_as_bhyve() {
    let outcome = outcome_for(Some(true), Some(Hypervisor::Bhyve));
    assert!(outcome.present);
    assert_eq!(outcome.hypervisor, "bhyve");
    assert_eq!(
        outcome.explain(),
        vec!["  + bhyve hypervisor control surface detected.".to_string()]
    );
}

#[test]
fn hyperv_signature_is_reported_as_hyperv() {
    let outcome = outcome_for(Some(true), Some(Hypervisor::HyperV));
    assert!(outcome.present);
    assert_eq!(outcome.hypervisor, "Hyper-V");
    assert_eq!(
        outcome.explain(),
        vec!["  + Hyper-V hypervisor control surface detected.".to_string()]
    );
}

#[test]
fn no_hypervisor_bit_is_reported_as_unknown() {
    for flag in [Some(false), None] {
        for identity in [None, Some(Hypervisor::Xen), Some(Hypervisor::KVM)] {
            let outcome = outcome_for(flag, identity);
            assert!(!outcome.present);
            assert_eq!(outcome.hypervisor, "unknown");
            assert!(!outcome.success());
            assert_eq!(outcome.as_string(), "not present");
        }
    }
}

#[test]
fn absent_hypervisor_is_explained_in_three_parts() {
    let outcome = outcome_for(Some(false), None);
    assert_eq!(
        outcome.explain(),
        vec![
            "  - No hypervisor detected.".to_string(),
            "  - Why: VM-based barriers provide the strongest isolation guarantees".to_string(),
            "         for workloads.".to_string(),
            "  - Suggestion: Use a hypervisor-based solution such as Edera Protect,".to_string(),
            "                Kata Containers or Firecracker.".to_string(),
        ]
    );
}

#[test]
fn other_vendors_are_no_match() {
    let others = [
        Hypervisor::VMware,
        Hypervisor::QEMU,
        Hypervisor::QNX,
        Hypervisor::ACRN,
        Hypervisor::Unknown(0x1234_5678, 0, 0xffff_ffff),
    ];
    for identity in others {
        let outcome = outcome_for(Some(true), Some(identity));
        assert!(!outcome.present);
        assert_eq!(outcome.hypervisor, "unknown");
    }
}

#[test]
fn flag_without_identity_leaf_is_no_match() {
    let outcome = outcome_for(Some(true), None);
    assert!(!outcome.present);
    assert_eq!(outcome.hypervisor, "unknown");
}

#[test]
fn hypervisor_flagged_reads_the_bit() {
    assert!(hypervisor_flagged(Some(true)));
    assert!(!hypervisor_flagged(Some(false)));
    assert!(!hypervisor_flagged(None));
}

#[test]
fn identity_matches_only_the_same_vendor() {
    assert!(identity_matches(Some(Hypervisor::Xen), Hypervisor::Xen));
    assert!(!identity_matches(Some(Hypervisor::Xen), Hypervisor::KVM));
    assert!(!identity_matches(Some(Hypervisor::KVM), Hypervisor::Xen));
    assert!(!identity_matches(None, Hypervisor::Xen));
    assert!(identity_matches(Some(Hypervisor::Unknown(1, 2, 3)), Hypervisor::Unknown(1, 2, 3)));
    assert!(!identity_matches(Some(Hypervisor::Unknown(1, 2, 3)), Hypervisor::Unknown(1, 2, 4)));
}

#[test]
fn last_vendor_in_probing_order_wins() {
    assert_eq!(HypervisorResult::from_probes(true, false, false, false).hypervisor, "Xen");
    assert_eq!(HypervisorResult::from_probes(true, true, false, false).hypervisor, "KVM");
    assert_eq!(HypervisorResult::from_probes(true, true, true, false).hypervisor, "bhyve");
    assert_eq!(HypervisorResult::from_probes(true, true, true, true).hypervisor, "Hyper-V");
    assert_eq!(HypervisorResult::from_probes(true, false, false, true).hypervisor, "Hyper-V");
    assert_eq!(HypervisorResult::from_probes(false, true, true, false).hypervisor, "bhyve");
}

#[test]
fn every_combination_of_answers_is_present_iff_one_is_yes() {
    for bits in 0..16u8 {
        let (xen, kvm, bhyve, hyperv) =
            (bits & 1 != 0, bits & 2 != 0, bits & 4 != 0, bits & 8 != 0);
        let outcome = HypervisorResult::from_probes(xen, kvm, bhyve, hyperv);
        assert_eq!(outcome.present, xen || kvm || bhyve || hyperv);
        assert_eq!(outcome.present, outcome.hypervisor != "unknown");
    }
}

#[test]
fn unprobeable_architecture_answers_no_for_every_vendor() {
    assert_eq!(xen_probe(false), Ok(false));
    assert_eq!(kvm_probe(false), Ok(false));
    assert_eq!(bhyve_probe(false), Ok(false));
    assert_eq!(hyperv_probe(false), Ok(false));
}

#[test]
fn unprobeable_architecture_reports_no_hypervisor() {
    let outcome = HypervisorTest {}.run(false).unwrap();
    assert!(!outcome.present);
    assert_eq!(outcome.hypervisor, "unknown");
    assert!(!outcome.success());
}

#[test]
fn probing_this_machine_never_fails() {
    assert!(xen_probe(true).is_ok());
    assert!(kvm_probe(true).is_ok());
    assert!(bhyve_probe(true).is_ok());
    assert!(hyperv_probe(true).is_ok());
}

#[test]
fn probing_this_machine_names_at_most_one_vendor() {
    let answers = [
        xen_probe(true).unwrap(),
        kvm_probe(true).unwrap(),
        bhyve_probe(true).unwrap(),
        hyperv_probe(true).unwrap(),
    ];
    assert!(answers.iter().filter(|found| **found).count() <= 1);
}

#[test]
fn running_on_this_machine_gives_a_consistent_outcome() {
    let outcome = HypervisorTest {}.run(true).unwrap();
    let known = ["Xen", "KVM", "bhyve", "Hyper-V"];
    if outcome.present {
        assert!(known.contains(&outcome.hypervisor.as_str()));
    } else {
        assert_eq!(outcome.hypervisor, "unknown");
    }
    assert_eq!(outcome.success(), outcome.present);
}

#[test]
fn hypervisor_default_is_empty_and_absent() {
    let outcome = HypervisorResult::default();
    assert!(!outcome.present);
    assert_eq!(outcome.hypervisor, "");
}
