use challenge_deployer::config::{
    BuildResult, ChallengeConfig, ExposeType, PodConfig, PodImage, PortSpec, ProfileConfig,
};
use challenge_deployer::pipeline::{
    resolve_profile_for, run_pipeline, start_pipeline, step, Action, ClusterObjectRef, DeployInput,
    ErrorKind, Event, PhaseTag, PodDeployResult, Stage, READY_TIMEOUT_SECS,
};
use challenge_deployer::render::TemplateKind;

fn web01_input() -> DeployInput {
    DeployInput {
        profile: ProfileConfig {
            name: "prod".to_string(),
            cluster: "https://cluster.example.com".to_string(),
            challenges_domain: "chal.example.com".to_string(),
        },
        chal: ChallengeConfig {
            directory: "web01".to_string(),
            slug: "web01".to_string(),
            pods: vec![PodConfig {
                name: "app".to_string(),
                ports: vec![
                    PortSpec { number: 80, expose: ExposeType::Http },
                    PortSpec { number: 1337, expose: ExposeType::Tcp },
                ],
            }],
        },
        build: BuildResult {
            images: vec![PodImage {
                pod_name: "app".to_string(),
                image: "registry.example.com/web01-app:latest".to_string(),
            }],
        },
    }
}

fn obj(kind: &str, name: &str) -> ClusterObjectRef {
    ClusterObjectRef {
        kind: kind.to_string(),
        namespace: "web01".to_string(),
        name: name.to_string(),
    }
}

#[test]
fn scenario_web01_full_deploy() {
    let inp = web01_input();
    let events = vec![
        Event::Connected,
        Event::Applied { objects: vec![obj("Namespace", "web01")] },
        Event::Ready,
        Event::Applied { objects: vec![obj("Deployment", "app")] },
        Event::Ready,
        Event::Applied { objects: vec![obj("Service", "app-tcp")] },
        Event::Ready,
        Event::Applied { objects: vec![obj("Ingress", "app-http")] },
        Event::Ready,
    ];
    let (end, acts) = run_pipeline(&inp, events);
    assert_eq!(end.phase, PhaseTag::Complete);
    assert_eq!(acts.len(), 9);

    match &acts[0] {
        Action::Apply { kind, ctx } => {
            assert_eq!(*kind, TemplateKind::Namespace);
            assert_eq!(ctx.slug, "web01");
            assert_eq!(ctx.directory, "web01");
            assert_eq!(ctx.profile_name, "prod");
        }
        _ => panic!("expected the namespace apply"),
    }
    match &acts[1] {
        Action::WaitReady { object, bounded } => {
            assert_eq!(object.kind, "Namespace");
            assert!(!*bounded);
        }
        _ => panic!("expected the namespace wait"),
    }
    match &acts[2] {
        Action::Apply { kind, ctx } => {
            assert_eq!(*kind, TemplateKind::Deployment);
            assert_eq!(ctx.pod_name, "app");
            assert_eq!(ctx.pod_image, "registry.example.com/web01-app:latest");
        }
        _ => panic!("expected the deployment apply"),
    }
    match &acts[3] {
        Action::WaitReady { bounded, .. } => assert!(*bounded),
        _ => panic!("expected the deployment wait"),
    }
    match &acts[4] {
        Action::Apply { kind, ctx } => {
            assert_eq!(*kind, TemplateKind::ServiceTcp);
            assert_eq!(ctx.ports, vec![1337]);
            assert_eq!(ctx.domain_base, "chal.example.com");
        }
        _ => panic!("expected the tcp service apply"),
    }
    match &acts[6] {
        Action::Apply { kind, ctx } => {
            assert_eq!(*kind, TemplateKind::ServiceHttp);
            assert_eq!(ctx.ports, vec![80]);
            assert_eq!(ctx.host, "web01-app.chal.example.com");
        }
        _ => panic!("expected the http service/ingress apply"),
    }
    match &acts[8] {
        Action::Done => {}
        _ => panic!("expected the pipeline to be done"),
    }

    assert_eq!(
        end.exposed,
        vec![PodDeployResult::Http { domain: "web01-app.chal.example.com".to_string() }]
    );
}

#[test]
fn timeout_on_deployment_fails_challenge() {
    let inp = web01_input();
    let events = vec![
        Event::Connected,
        Event::Applied { objects: vec![obj("Namespace", "web01")] },
        Event::Ready,
        Event::Applied { objects: vec![obj("Deployment", "app")] },
        Event::TimedOut,
        // anything after the failure is answered with Done and changes nothing
        Event::Ready,
        Event::Applied { objects: vec![obj("Service", "late")] },
    ];
    let (end, acts) = run_pipeline(&inp, events);
    assert_eq!(end.phase, PhaseTag::Failed);
    let err = end.error.expect("a failed pipeline carries its error");
    assert_eq!(err.kind, ErrorKind::Timeout);
    assert_eq!(err.stage, Stage::Deployment);
    assert_eq!(err.challenge, "web01");
    assert_eq!(err.pod, Some("app".to_string()));
    assert_eq!(err.reason, "");
    assert!(matches!(acts[4], Action::Done));
    assert!(matches!(acts[5], Action::Done));
    assert!(matches!(acts[6], Action::Done));
    assert!(end.exposed.is_empty());
}

#[test]
fn timeout_on_tcp_service_names_the_stage() {
    let inp = web01_input();
    let events = vec![
        Event::Connected,
        Event::Applied { objects: vec![obj("Namespace", "web01")] },
        Event::Ready,
        Event::Applied { objects: vec![obj("Deployment", "app")] },
        Event::Ready,
        Event::Applied { objects: vec![obj("Service", "app-tcp")] },
        Event::TimedOut,
    ];
    let (end, _acts) = run_pipeline(&inp, events);
    assert_eq!(end.phase, PhaseTag::Failed);
    let err = end.error.unwrap();
    assert_eq!(err.kind, ErrorKind::Timeout);
    assert_eq!(err.stage, Stage::TcpService);
    assert_eq!(err.pod, Some("app".to_string()));
}

#[test]
fn empty_port_list_applies_no_exposure() {
    let mut inp = web01_input();
    inp.chal.pods[0].ports = vec![];
    let events = vec![
        Event::Connected,
        Event::Applied { objects: vec![obj("Namespace", "web01")] },
        Event::Ready,
        Event::Applied { objects: vec![obj("Deployment", "app")] },
        Event::Ready,
    ];
    let (end, acts) = run_pipeline(&inp, events);
    assert_eq!(end.phase, PhaseTag::Complete);
    assert!(end.exposed.is_empty());
    for a in &acts {
        if let Action::Apply { kind, .. } = a {
            assert!(
                !matches!(kind, TemplateKind::ServiceTcp | TemplateKind::ServiceHttp),
                "no service or ingress may be applied for a pod without ports"
            );
        }
    }
    assert!(matches!(acts[4], Action::Done));
}

#[test]
fn connect_failure_aborts_challenge() {
    let inp = web01_input();
    let (st, first) = start_pipeline();
    assert!(matches!(first, Action::Connect));
    let (end, act) = step(
        &inp,
        st,
        Event::ConnectFailed { reason: "connection refused".to_string() },
    );
    assert_eq!(end.phase, PhaseTag::Failed);
    let err = end.error.unwrap();
    assert_eq!(err.kind, ErrorKind::Connection);
    assert_eq!(err.stage, Stage::Connect);
    assert_eq!(err.challenge, "web01");
    assert_eq!(err.pod, None);
    assert_eq!(err.reason, "connection refused");
    assert!(matches!(act, Action::Done));
}

#[test]
fn missing_build_record_is_an_image_resolution_error() {
    let mut inp = web01_input();
    inp.build.images.clear();
    let events = vec![
        Event::Connected,
        Event::Applied { objects: vec![obj("Namespace", "web01")] },
        Event::Ready,
    ];
    let (end, _acts) = run_pipeline(&inp, events);
    assert_eq!(end.phase, PhaseTag::Failed);
    let err = end.error.unwrap();
    assert_eq!(err.kind, ErrorKind::ImageResolution);
    assert_eq!(err.pod, Some("app".to_string()));
}

#[test]
fn render_failure_is_fatal() {
    let inp = web01_input();
    let events = vec![
        Event::Connected,
        Event::RenderFailed { reason: "undefined value".to_string() },
    ];
    let (end, _acts) = run_pipeline(&inp, events);
    assert_eq!(end.phase, PhaseTag::Failed);
    let err = end.error.unwrap();
    assert_eq!(err.kind, ErrorKind::Render);
    assert_eq!(err.stage, Stage::Namespace);
    assert_eq!(err.reason, "undefined value");
}

#[test]
fn rerunning_identical_inputs_gives_identical_decisions() {
    let inp = web01_input();
    let events = || {
        vec![
            Event::Connected,
            Event::Applied { objects: vec![obj("Namespace", "web01")] },
            Event::Ready,
            Event::Applied { objects: vec![obj("Deployment", "app")] },
            Event::Ready,
            Event::Applied { objects: vec![obj("Service", "app-tcp")] },
            Event::Ready,
            Event::Applied { objects: vec![obj("Ingress", "app-http")] },
            Event::Ready,
        ]
    };
    let (end1, acts1) = run_pipeline(&inp, events());
    let (end2, acts2) = run_pipeline(&inp, events());
    assert_eq!(end1.phase, end2.phase);
    assert_eq!(end1.exposed, end2.exposed);
    assert_eq!(acts1.len(), acts2.len());
    for (a, b) in acts1.iter().zip(acts2.iter()) {
        match (a, b) {
            (Action::Apply { kind: k1, ctx: c1 }, Action::Apply { kind: k2, ctx: c2 }) => {
                assert_eq!(k1, k2);
                assert_eq!(c1.slug, c2.slug);
                assert_eq!(c1.host, c2.host);
                assert_eq!(c1.ports, c2.ports);
            }
            (Action::WaitReady { object: o1, .. }, Action::WaitReady { object: o2, .. }) => {
                assert_eq!(o1.kind, o2.kind);
                assert_eq!(o1.name, o2.name);
            }
            (Action::Connect, Action::Connect) => {}
            (Action::Done, Action::Done) => {}
            _ => panic!("the two runs diverged"),
        }
    }
}

#[test]
fn multi_pod_challenge_is_sequential() {
    let mut inp = web01_input();
    inp.chal.pods.push(PodConfig {
        name: "db".to_string(),
        ports: vec![PortSpec { number: 5432, expose: ExposeType::Tcp }],
    });
    inp.build.images.push(PodImage {
        pod_name: "db".to_string(),
        image: "registry.example.com/web01-db:latest".to_string(),
    });
    let events = vec![
        Event::Connected,
        Event::Applied { objects: vec![obj("Namespace", "web01")] },
        Event::Ready,
        // pod app
        Event::Applied { objects: vec![obj("Deployment", "app")] },
        Event::Ready,
        Event::Applied { objects: vec![obj("Service", "app-tcp")] },
        Event::Ready,
        Event::Applied { objects: vec![obj("Ingress", "app-http")] },
        Event::Ready,
        // pod db
        Event::Applied { objects: vec![obj("Deployment", "db")] },
        Event::Ready,
        Event::Applied { objects: vec![obj("Service", "db-tcp")] },
        Event::Ready,
    ];
    let (end, acts) = run_pipeline(&inp, events);
    assert_eq!(end.phase, PhaseTag::Complete);
    // the db deployment is applied only after app's whole phase sequence
    match &acts[8] {
        Action::Apply { kind, ctx } => {
            assert_eq!(*kind, TemplateKind::Deployment);
            assert_eq!(ctx.pod_name, "db");
        }
        _ => panic!("expected db's deployment apply after app finished"),
    }
    assert_eq!(
        end.exposed,
        vec![PodDeployResult::Http { domain: "web01-app.chal.example.com".to_string() }]
    );
}

#[test]
fn timeout_bound_is_five_minutes() {
    assert_eq!(READY_TIMEOUT_SECS, 300);
}

#[test]
fn unknown_profile_is_a_config_error() {
    let inp = web01_input();
    let profiles = vec![inp.profile.clone()];
    assert_eq!(resolve_profile_for(&profiles, &"prod".to_string(), &inp.chal), Ok(0));
    let e = resolve_profile_for(&profiles, &"staging".to_string(), &inp.chal)
        .expect_err("an unknown profile aborts the challenge");
    assert_eq!(e.kind, ErrorKind::Config);
    assert_eq!(e.stage, Stage::Profile);
    assert_eq!(e.challenge, "web01");
    assert_eq!(e.pod, None);
}

#[test]
fn rejected_manifest_is_an_apply_error() {
    let inp = web01_input();
    let events = vec![
        Event::Connected,
        Event::Applied { objects: vec![obj("Namespace", "web01")] },
        Event::Ready,
        Event::ApplyFailed { reason: "denied by admission webhook".to_string() },
    ];
    let (end, _acts) = run_pipeline(&inp, events);
    assert_eq!(end.phase, PhaseTag::Failed);
    let err = end.error.unwrap();
    assert_eq!(err.kind, ErrorKind::Apply);
    assert_eq!(err.stage, Stage::Deployment);
    assert_eq!(err.pod, Some("app".to_string()));
    assert_eq!(err.reason, "denied by admission webhook");
}

#[test]
fn failed_object_condition_is_a_status_error() {
    let inp = web01_input();
    let events = vec![
        Event::Connected,
        Event::Applied { objects: vec![obj("Namespace", "web01")] },
        Event::StatusFailed { reason: "namespace is terminating".to_string() },
    ];
    let (end, _acts) = run_pipeline(&inp, events);
    assert_eq!(end.phase, PhaseTag::Failed);
    let err = end.error.unwrap();
    assert_eq!(err.kind, ErrorKind::Status);
    assert_eq!(err.stage, Stage::Namespace);
    assert_eq!(err.pod, None);
    assert_eq!(err.reason, "namespace is terminating");
}

#[test]
fn namespace_with_several_objects_waits_on_each() {
    let inp = web01_input();
    let events = vec![
        Event::Connected,
        Event::Applied {
            objects: vec![obj("Namespace", "web01"), obj("ResourceQuota", "web01-quota")],
        },
        Event::Ready,
        Event::Ready,
    ];
    let (end, acts) = run_pipeline(&inp, events);
    assert_eq!(end.phase, PhaseTag::AwaitDeploymentApply);
    match &acts[1] {
        Action::WaitReady { object, .. } => assert_eq!(object.kind, "Namespace"),
        _ => panic!("expected the first namespace object's wait"),
    }
    match &acts[2] {
        Action::WaitReady { object, .. } => assert_eq!(object.kind, "ResourceQuota"),
        _ => panic!("expected the second namespace object's wait"),
    }
    match &acts[3] {
        Action::Apply { kind, .. } => assert_eq!(*kind, TemplateKind::Deployment),
        _ => panic!("expected the deployment apply once the namespace is ready"),
    }
}
