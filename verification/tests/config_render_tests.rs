use challenge_deployer::config::{
    check_slug, resolve_profile, BuildResult, ChallengeConfig, ExposeType, PodConfig, PodImage,
    PortSpec, ProfileConfig,
};
use challenge_deployer::pipeline::{domain_for, partition_ports};
use challenge_deployer::render::{render_manifest, RenderContext, TemplateKind, TemplateSet};

fn profile(name: &str) -> ProfileConfig {
    ProfileConfig {
        name: name.to_string(),
        cluster: "https://cluster.example.com".to_string(),
        challenges_domain: "chal.example.com".to_string(),
    }
}

fn empty_ctx() -> RenderContext {
    RenderContext {
        slug: String::new(),
        directory: String::new(),
        pod_name: String::new(),
        pod_image: String::new(),
        profile_name: String::new(),
        domain_base: String::new(),
        host: String::new(),
        ports: vec![],
    }
}

#[test]
fn partition_splits_by_expose_type_only() {
    let ports = vec![
        PortSpec { number: 80, expose: ExposeType::Http },
        PortSpec { number: 1337, expose: ExposeType::Tcp },
        PortSpec { number: 8080, expose: ExposeType::Http },
        PortSpec { number: 31337, expose: ExposeType::Tcp },
    ];
    let (tcp, http) = partition_ports(&ports);
    assert_eq!(tcp, vec![
        PortSpec { number: 1337, expose: ExposeType::Tcp },
        PortSpec { number: 31337, expose: ExposeType::Tcp },
    ]);
    assert_eq!(http, vec![
        PortSpec { number: 80, expose: ExposeType::Http },
        PortSpec { number: 8080, expose: ExposeType::Http },
    ]);
    assert_eq!(tcp.len() + http.len(), ports.len());
}

#[test]
fn partition_of_empty_list_is_empty() {
    let (tcp, http) = partition_ports(&vec![]);
    assert!(tcp.is_empty());
    assert!(http.is_empty());
}

#[test]
fn domain_joins_slug_pod_and_base() {
    let d = domain_for(
        &"web01".to_string(),
        &"app".to_string(),
        &"chal.example.com".to_string(),
    );
    assert_eq!(d, "web01-app.chal.example.com");
}

#[test]
fn resolve_profile_finds_first_match() {
    let profiles = vec![profile("dev"), profile("prod"), profile("prod")];
    assert_eq!(resolve_profile(&profiles, &"prod".to_string()), Some(1));
    assert_eq!(resolve_profile(&profiles, &"dev".to_string()), Some(0));
    assert_eq!(resolve_profile(&profiles, &"staging".to_string()), None);
}

#[test]
fn image_lookup_takes_first_record() {
    let build = BuildResult {
        images: vec![
            PodImage { pod_name: "app".to_string(), image: "img:1".to_string() },
            PodImage { pod_name: "db".to_string(), image: "img:2".to_string() },
            PodImage { pod_name: "app".to_string(), image: "img:3".to_string() },
        ],
    };
    assert_eq!(build.image_for_pod(&"app".to_string()), Some("img:1".to_string()));
    assert_eq!(build.image_for_pod(&"db".to_string()), Some("img:2".to_string()));
    assert_eq!(build.image_for_pod(&"cache".to_string()), None);
}

#[test]
fn slug_validation_accepts_dns_safe_names() {
    assert!(check_slug("web01"));
    assert!(check_slug("my-chal-2"));
    assert!(!check_slug(""));
    assert!(!check_slug("Web01"));
    assert!(!check_slug("web_01"));
    assert!(!check_slug("web 01"));
}

#[test]
fn challenge_constructor_enforces_slug() {
    let ok = ChallengeConfig::new(
        "Web 01".to_string(),
        "web-01".to_string(),
        vec![PodConfig { name: "app".to_string(), ports: vec![] }],
    );
    assert!(ok.is_ok());
    let bad = ChallengeConfig::new("web01".to_string(), "Web 01".to_string(), vec![]);
    assert!(bad.is_err());
}

#[test]
fn render_substitutes_context_values() {
    let templates = TemplateSet {
        namespace_tpl: "apiVersion: v1\nkind: Namespace\nmetadata:\n  name: {{ slug }}"
            .to_string(),
        deployment_tpl: "pod: {{ pod_name }}\nimage: {{ pod_image }}".to_string(),
        service_tcp_tpl: "ports: [{% for p in ports %}{{ p }},{% endfor %}]".to_string(),
        service_http_tpl: "host: {{ host }}".to_string(),
    };
    let mut ctx = empty_ctx();
    ctx.slug = "web01".to_string();
    let ns = render_manifest(&templates, TemplateKind::Namespace, &ctx).unwrap();
    assert_eq!(ns, "apiVersion: v1\nkind: Namespace\nmetadata:\n  name: web01");

    let mut ctx = empty_ctx();
    ctx.pod_name = "app".to_string();
    ctx.pod_image = "img:1".to_string();
    let depl = render_manifest(&templates, TemplateKind::Deployment, &ctx).unwrap();
    assert_eq!(depl, "pod: app\nimage: img:1");

    let mut ctx = empty_ctx();
    ctx.ports = vec![1337, 31337];
    let tcp = render_manifest(&templates, TemplateKind::ServiceTcp, &ctx).unwrap();
    assert_eq!(tcp, "ports: [1337,31337,]");

    let mut ctx = empty_ctx();
    ctx.host = "web01-app.chal.example.com".to_string();
    let http = render_manifest(&templates, TemplateKind::ServiceHttp, &ctx).unwrap();
    assert_eq!(http, "host: web01-app.chal.example.com");
}

#[test]
fn render_reports_a_broken_template() {
    let templates = TemplateSet {
        namespace_tpl: "{% for %}".to_string(),
        deployment_tpl: String::new(),
        service_tcp_tpl: String::new(),
        service_http_tpl: String::new(),
    };
    let r = render_manifest(&templates, TemplateKind::Namespace, &empty_ctx());
    let message = r.expect_err("a broken template is a render error");
    assert!(!message.is_empty());
}

#[test]
fn render_is_deterministic_across_invocations() {
    let templates = TemplateSet {
        namespace_tpl: "name: {{ slug }} for {{ profile_name }}".to_string(),
        deployment_tpl: String::new(),
        service_tcp_tpl: String::new(),
        service_http_tpl: String::new(),
    };
    let mut ctx = empty_ctx();
    ctx.slug = "web01".to_string();
    ctx.profile_name = "prod".to_string();
    let first = render_manifest(&templates, TemplateKind::Namespace, &ctx);
    let second = render_manifest(&templates, TemplateKind::Namespace, &ctx);
    assert_eq!(first, second);
    assert_eq!(first.unwrap(), "name: web01 for prod");
}
