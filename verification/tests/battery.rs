use secbench::battery::{battery, Observation, Probe, ProbeOutcome};
use secbench::{Test, TestResult};

#[test]
fn battery_is_in_registration_order() {
    assert_eq!(
        battery(),
        vec![Probe::Docker, Probe::ContainerD, Probe::Hypervisor, Probe::MmapRWX, Probe::Yama]
    );
}

#[test]
fn probes_carry_their_descriptions() {
    assert_eq!(Probe::Docker.name(), "for docker socket");
    assert_eq!(Probe::ContainerD.name(), "for containerd socket");
    assert_eq!(Probe::Hypervisor.name(), "whether we are running under a hypervisor");
    assert_eq!(Probe::MmapRWX.name(), "whether RWX memory mappings are allowed");
    assert_eq!(Probe::Yama.name(), "whether the Yama LSM is present");
}

#[test]
fn probe_judges_an_observation_of_its_kind() {
    match Probe::Docker.run(Observation::Connection(true)) {
        Ok(ProbeOutcome::Docker(found)) => assert!(found.allowed),
        _ => panic!("the docker probe gives a docker outcome"),
    }
    match Probe::ContainerD.run(Observation::Connection(false)) {
        Ok(ProbeOutcome::ContainerD(found)) => assert!(!found.allowed),
        _ => panic!("the containerd probe gives a containerd outcome"),
    }
    match Probe::Hypervisor.run(Observation::Architecture(false)) {
        Ok(ProbeOutcome::Hypervisor(found)) => {
            assert!(!found.present);
            assert_eq!(found.hypervisor, "unknown");
        }
        _ => panic!("the hypervisor probe gives a hypervisor outcome"),
    }
    match Probe::MmapRWX.run(Observation::Mapping(true)) {
        Ok(ProbeOutcome::MmapRWX(found)) => assert!(found.allowed),
        _ => panic!("the mapping probe gives a mapping outcome"),
    }
    match Probe::Yama.run(Observation::SymbolTable(Ok(vec!["d yama_lsmid".to_string()]))) {
        Ok(ProbeOutcome::Yama(found)) => assert!(found.present),
        _ => panic!("the module probe gives a module outcome"),
    }
}

#[test]
fn probe_cannot_be_carried_out_on_another_kind_of_observation() {
    assert!(Probe::Docker.run(Observation::Mapping(true)).is_err());
    assert!(Probe::ContainerD.run(Observation::Architecture(true)).is_err());
    assert!(Probe::Hypervisor.run(Observation::Connection(true)).is_err());
    assert!(Probe::MmapRWX.run(Observation::SymbolTable(Err(()))).is_err());
    assert!(Probe::Yama.run(Observation::Connection(false)).is_err());
}

#[test]
fn polarity_is_kept_per_probe() {
    let absent_socket = Probe::Docker.run(Observation::Connection(false)).unwrap();
    assert!(absent_socket.success());
    assert_eq!(absent_socket.as_string(), "not usable");
    let reachable_socket = Probe::ContainerD.run(Observation::Connection(true)).unwrap();
    assert!(!reachable_socket.success());
    assert_eq!(reachable_socket.as_string(), "usable");
    let absent_hypervisor = Probe::Hypervisor.run(Observation::Architecture(false)).unwrap();
    assert!(!absent_hypervisor.success());
    assert_eq!(absent_hypervisor.as_string(), "not present");
    let refused_mapping = Probe::MmapRWX.run(Observation::Mapping(false)).unwrap();
    assert!(refused_mapping.success());
    assert_eq!(refused_mapping.as_string(), "not allowed");
    let listed_module =
        Probe::Yama.run(Observation::SymbolTable(Ok(vec!["d yama_lsmid".to_string()]))).unwrap();
    assert!(listed_module.success());
    assert_eq!(listed_module.as_string(), "present");
    let unreadable_table = Probe::Yama.run(Observation::SymbolTable(Err(()))).unwrap();
    assert!(!unreadable_table.success());
    assert_eq!(unreadable_table.as_string(), "not present");
}

#[test]
fn outcome_of_the_battery_explains_as_the_probe_s_own() {
    let outcome = Probe::MmapRWX.run(Observation::Mapping(false)).unwrap();
    assert_eq!(outcome.explain(), vec!["  + RWX memory mappings are not allowed.".to_string()]);
    let outcome = Probe::Yama.run(Observation::SymbolTable(Ok(Vec::new()))).unwrap();
    assert_eq!(
        outcome.explain(),
        vec![
            "  - Yama LSM is not present.".to_string(),
            "  - Why: Yama LSM prevents several types of ptrace-based container escapes."
                .to_string(),
            "  - Suggestion: Use a kernel with Yama LSM enabled.".to_string(),
        ]
    );
}
