use challenge_deployer::config::{ChallengeConfig, ExposeType, PodConfig, PortSpec};
use challenge_deployer::fleet::{aggregate_fleet, required_tcp_ports};
use challenge_deployer::pipeline::{DeployError, DeployResult, ErrorKind, PodDeployResult, Stage};

fn ok_result(domain: &str) -> Result<DeployResult, DeployError> {
    Ok(DeployResult {
        exposed: vec![PodDeployResult::Http { domain: domain.to_string() }],
    })
}

fn err_result(challenge: &str, kind: ErrorKind) -> Result<DeployResult, DeployError> {
    Err(DeployError {
        kind,
        stage: Stage::Deployment,
        challenge: challenge.to_string(),
        pod: Some("app".to_string()),
        reason: "probe failed".to_string(),
    })
}

fn chal(directory: &str, ports: Vec<PortSpec>) -> ChallengeConfig {
    ChallengeConfig {
        directory: directory.to_string(),
        slug: directory.to_string(),
        pods: vec![PodConfig { name: "app".to_string(), ports }],
    }
}

#[test]
fn all_succeeding_returns_one_result_per_challenge() {
    let outcomes = vec![
        ok_result("a.chal.example.com"),
        ok_result("b.chal.example.com"),
        ok_result("c.chal.example.com"),
    ];
    let r = aggregate_fleet(outcomes).expect("every challenge succeeded");
    assert_eq!(r.len(), 3);
    assert_eq!(
        r[1].exposed,
        vec![PodDeployResult::Http { domain: "b.chal.example.com".to_string() }]
    );
}

#[test]
fn empty_fleet_succeeds_with_no_results() {
    let r = aggregate_fleet(vec![]).expect("an empty fleet has nothing to fail");
    assert!(r.is_empty());
}

#[test]
fn first_fatal_error_propagates() {
    let outcomes = vec![
        ok_result("a.chal.example.com"),
        err_result("web02", ErrorKind::Timeout),
        err_result("web03", ErrorKind::Apply),
    ];
    let e = aggregate_fleet(outcomes).expect_err("a failed challenge fails the run");
    assert_eq!(e.challenge, "web02");
    assert_eq!(e.kind, ErrorKind::Timeout);
}

#[test]
fn sibling_failure_leaves_other_outcomes_intact() {
    // the same fleet, with challenge b succeeding in one run and failing in
    // the other: challenge a's own outcome is identical in both
    let run1 = vec![ok_result("a.chal.example.com"), ok_result("b.chal.example.com")];
    let run2 = vec![ok_result("a.chal.example.com"), err_result("b", ErrorKind::Timeout)];
    let a1 = run1.into_iter().next().unwrap().unwrap();
    let a2 = run2.into_iter().next().unwrap().unwrap();
    assert_eq!(a1.exposed, a2.exposed);
}

#[test]
fn required_ports_are_the_tcp_union_without_duplicates() {
    let challenges = vec![
        chal(
            "web01",
            vec![
                PortSpec { number: 80, expose: ExposeType::Http },
                PortSpec { number: 1337, expose: ExposeType::Tcp },
            ],
        ),
        chal(
            "pwn01",
            vec![
                PortSpec { number: 1337, expose: ExposeType::Tcp },
                PortSpec { number: 31337, expose: ExposeType::Tcp },
            ],
        ),
        chal("web02", vec![PortSpec { number: 8080, expose: ExposeType::Http }]),
    ];
    let ports = required_tcp_ports(&challenges);
    assert_eq!(ports, vec![1337, 31337]);
}

#[test]
fn no_tcp_exposure_needs_no_ports() {
    let challenges = vec![chal("web02", vec![PortSpec { number: 8080, expose: ExposeType::Http }])];
    assert!(required_tcp_ports(&challenges).is_empty());
}
