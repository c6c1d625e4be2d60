use secbench::containerd::{ContainerDResult, ContainerDTest};
use secbench::docker::{DockerResult, DockerTest};
use secbench::{Test, TestResult};

#[test]
fn docker_name_is_its_description() {
    assert_eq!(DockerTest {}.name(), "for docker socket");
}

#[test]
fn docker_connection_made_is_usable_and_fails() {
    let outcome = DockerTest {}.run(true).unwrap();
    assert!(outcome.allowed);
    assert!(!outcome.success());
    assert_eq!(outcome.as_string(), "usable");
    assert_eq!(
        outcome.explain(),
        vec![
            "  - A usable docker socket was found.".to_string(),
            "  - Why: `docker run --privileged` can be used to compromise the system through"
                .to_string(),
            "         the use of privileged containers.".to_string(),
            "  - Suggestion: Don't share the docker socket with untrusted containers.".to_string(),
        ]
    );
}

#[test]
fn docker_no_listener_is_not_usable_and_passes() {
    let outcome = DockerTest {}.run(false).unwrap();
    assert!(!outcome.allowed);
    assert!(outcome.success());
    assert_eq!(outcome.as_string(), "not usable");
    assert_eq!(outcome.explain(), vec!["  + No usable docker socket was found.".to_string()]);
}

#[test]
fn docker_verdict_negates_allowed() {
    for allowed in [false, true] {
        let outcome = DockerResult { allowed };
        assert_eq!(outcome.success(), !allowed);
    }
}

#[test]
fn docker_default_is_not_allowed() {
    assert!(!DockerResult::default().allowed);
}

#[test]
fn containerd_name_is_its_description() {
    assert_eq!(ContainerDTest {}.name(), "for containerd socket");
}

#[test]
fn containerd_connection_made_is_usable_and_fails() {
    let outcome = ContainerDTest {}.run(true).unwrap();
    assert!(outcome.allowed);
    assert!(!outcome.success());
    assert_eq!(outcome.as_string(), "usable");
    assert_eq!(
        outcome.explain(),
        vec![
            "  - A usable containerd socket was found.".to_string(),
            "  - Why: `nerdctl run --privileged` can be used to compromise the system through"
                .to_string(),
            "         the use of privileged containers.".to_string(),
            "  - Suggestion: Don't share the docker socket with untrusted containers.".to_string(),
        ]
    );
}

#[test]
fn containerd_no_listener_is_not_usable_and_passes() {
    let outcome = ContainerDTest {}.run(false).unwrap();
    assert!(!outcome.allowed);
    assert!(outcome.success());
    assert_eq!(outcome.as_string(), "not usable");
    assert_eq!(outcome.explain(), vec!["  + No usable containerd socket was found.".to_string()]);
}

#[test]
fn containerd_verdict_negates_allowed() {
    for allowed in [false, true] {
        let outcome = ContainerDResult { allowed };
        assert_eq!(outcome.success(), !allowed);
    }
}

#[test]
fn containerd_default_is_not_allowed() {
    assert!(!ContainerDResult::default().allowed);
}

#[test]
fn outcome_facts_do_not_change_with_use() {
    let outcome = DockerResult { allowed: true };
    let before = outcome.success();
    let first = outcome.explain();
    let label = outcome.as_string();
    assert_eq!(outcome.success(), before);
    assert_eq!(outcome.explain(), first);
    assert_eq!(outcome.as_string(), label);
    assert!(outcome.allowed);
}
