use unidpp_config::{
    render_env, substitute_env, Branding, ConfigError, Deployment, EgressPolicy, FeedbackPolicy,
    Features, GatewayService, HubService, IssuerService, LogService, OperatorManifest, Profile,
    RegistryService, ResolverService, ScanPolicy, Services, Sovereignty, Theme,
};

const REFERENCE: &str = r#"
api_version: unidpp.org/v1
deployment:
  name: unidpp-reference
  profile: reference
  base_url: https://registry.unidpp.org
branding:
  organization: UniDPP
  product_name: UniDPP Reference Deployment
services:
  registry:
    bind: 127.0.0.1:8390
    admin_token: ${TEST_ADMIN_TOKEN}
    state_file: registry-journal.jsonl
  log:
    bind: 127.0.0.1:8392
    log_id: unidpp-pilot-log-1
    state_file: run/log-journal.jsonl
    external_tsa_url: http://timestamp.digicert.com
  issuer:
    bind: 127.0.0.1:8393
    pack_suites: [ecdsa-p256, sm2]
    registry_url: http://127.0.0.1:8390
  gateway:
    bind: 127.0.0.1:8395
    issuer_url: http://127.0.0.1:8393
  hub:
    bind: 127.0.0.1:8397
    hub_id: unidpp-hub-pilot
    seed: test-hub-seed
sovereignty:
  external_calls: external
"#;

fn s(text: &str) -> String {
    text.to_string()
}

fn env(pairs: &[(&str, &str)]) -> Vec<(String, String)> {
    pairs.iter().map(|(k, v)| (s(k), s(v))).collect()
}

fn gateway(bind: &str) -> GatewayService {
    GatewayService {
        bind: s(bind),
        admin_token: None,
        issuer_url: None,
        public_url: None,
        feedback: FeedbackPolicy::default(),
        scan_policy: None,
        timeout_ms: None,
    }
}

fn registry(bind: &str) -> RegistryService {
    RegistryService {
        bind: s(bind),
        admin_token: None,
        state_file: None,
        public_url: None,
        seed_on_demand: None,
        seed_express: None,
    }
}

fn manifest(name: &str, profile: Profile, base_url: &str, services: Services, external_calls: EgressPolicy) -> OperatorManifest {
    OperatorManifest {
        api_version: s("unidpp.org/v1"),
        deployment: Deployment { name: s(name), profile, base_url: s(base_url) },
        branding: Branding::default(),
        services,
        features: Features::default(),
        sovereignty: Sovereignty { data_residency: None, external_calls, egress_override_reason: None },
    }
}

/// The manifest that `REFERENCE` declares, with `${TEST_ADMIN_TOKEN}` set to `x`
/// and the defaults its omitted knobs take.
fn reference() -> OperatorManifest {
    let mut services = Services::default();
    let mut reg = registry("127.0.0.1:8390");
    reg.admin_token = Some(s("x"));
    reg.state_file = Some(s("registry-journal.jsonl"));
    services.registry = Some(reg);
    services.log = Some(LogService {
        bind: s("127.0.0.1:8392"),
        admin_token: None,
        state_file: Some(s("run/log-journal.jsonl")),
        log_id: s("unidpp-pilot-log-1"),
        public_url: None,
        external_tsa_url: Some(s("http://timestamp.digicert.com")),
        suite: None,
        seed: None,
    });
    services.issuer = Some(IssuerService {
        bind: s("127.0.0.1:8393"),
        admin_token: None,
        state_file: None,
        pack_suites: vec![s("ecdsa-p256"), s("sm2")],
        public_url: None,
        registry_url: Some(s("http://127.0.0.1:8390")),
        registry_token: None,
        max_age: None,
        event_seed: None,
        pack_seed: None,
        seed: None,
    });
    let mut gw = gateway("127.0.0.1:8395");
    gw.issuer_url = Some(s("http://127.0.0.1:8393"));
    services.gateway = Some(gw);
    services.hub = Some(HubService {
        bind: s("127.0.0.1:8397"),
        admin_token: None,
        hub_id: s("unidpp-hub-pilot"),
        seed: Some(s("test-hub-seed")),
        public_url: None,
    });
    let mut m = manifest(
        "unidpp-reference",
        Profile::Reference,
        "https://registry.unidpp.org",
        services,
        EgressPolicy::External,
    );
    m.branding.organization = s("UniDPP");
    m.branding.product_name = s("UniDPP Reference Deployment");
    m
}

/// The sovereign manifest of the egress test: one issuer, data pinned to CN,
/// no egress.
fn sovereign() -> OperatorManifest {
    let mut services = Services::default();
    services.issuer = Some(IssuerService {
        bind: s("127.0.0.1:9393"),
        admin_token: None,
        state_file: None,
        pack_suites: vec![s("sm2")],
        public_url: None,
        registry_url: None,
        registry_token: None,
        max_age: None,
        event_seed: None,
        pack_seed: None,
        seed: None,
    });
    let mut m = manifest("acme-cn", Profile::Sovereign, "https://dpp.acme.cn", services, EgressPolicy::NoEgress);
    m.sovereignty.data_residency = Some(s("CN"));
    m
}

fn refusal(r: Result<(), ConfigError>) -> String {
    match r {
        Ok(()) => panic!("expected a refusal"),
        Err(e) => e.0,
    }
}

#[test]
fn reference_manifest_loads_and_renders_the_pilot_env() {
    // The secret reference resolves from the environment.
    let text = substitute_env(REFERENCE, &env(&[("TEST_ADMIN_TOKEN", "x")])).expect("the reference manifest loads");
    assert!(text.contains("    admin_token: x\n"));
    let manifest = reference();
    manifest.validate().expect("the reference manifest validates");
    assert_eq!(manifest.deployment.profile, Profile::Reference);
    assert_eq!(manifest.branding.product_name, "UniDPP Reference Deployment");
    let env = render_env(&manifest, "log").unwrap();
    assert!(env.contains("UNIDPP_LOG_BIND=127.0.0.1:8392"));
    assert!(env.contains("UNIDPP_LOG_ID=unidpp-pilot-log-1"));
    assert!(env.contains("UNIDPP_LOG_EXTERNAL_TSA_URL=http://timestamp.digicert.com"));
    let env = render_env(&manifest, "issuer").unwrap();
    assert!(env.contains("UNIDPP_ISSUER_PACK_SUITE=ecdsa-p256,sm2"));
    assert!(env.contains("UNIDPP_ISSUER_REGISTRY_URL=http://127.0.0.1:8390"));
    let env = render_env(&manifest, "hub").unwrap();
    assert!(env.contains("UNIDPP_HUB_BIND=127.0.0.1:8397"));
    assert!(env.contains("UNIDPP_HUB_ID=unidpp-hub-pilot"));
    assert!(env.contains("UNIDPP_HUB_SEED=test-hub-seed"));
    let env = render_env(&manifest, "registry").unwrap();
    assert!(env.contains("UNIDPP_REGISTRY_ADMIN_TOKEN=x"));
}

#[test]
fn secrets_must_resolve() {
    let text = REFERENCE.replace("${TEST_ADMIN_TOKEN}", "${UNIDPP_TEST_UNSET_VAR}");
    let err = substitute_env(&text, &env(&[("TEST_ADMIN_TOKEN", "x")])).unwrap_err();
    assert!(err.0.contains("unset variable `UNIDPP_TEST_UNSET_VAR`"), "{}", err.0);
}

#[test]
fn wrong_api_version_is_refused() {
    let mut m = reference();
    m.api_version = m.api_version.replace("unidpp.org/v1", "unidpp.org/v0");
    let err = refusal(m.validate());
    assert!(err.contains("api_version"), "{err}");
}

#[test]
fn bad_theme_color_is_refused() {
    let mut m = reference();
    m.branding.theme.primary = s("red");
    let err = refusal(m.validate());
    assert!(err.contains("#rrggbb"), "{err}");
}

#[test]
fn sovereign_profile_requires_a_reasoned_egress() {
    // No egress: valid as-is.
    sovereign().validate().expect("sealed sovereign deployment validates");
    // Egress without a recorded reason: refused.
    let mut leaky = sovereign();
    leaky.sovereignty.external_calls = EgressPolicy::TsaOnly;
    let err = refusal(leaky.validate());
    assert!(err.contains("egress_override_reason"), "{err}");
    // With the reason: valid.
    let mut reasoned = leaky.clone();
    reasoned.sovereignty.egress_override_reason = Some(s("CN AICPA timestamp regulation 2026-14"));
    reasoned.validate().expect("reasoned egress validates");
}

#[test]
fn locale_defaults_validates_and_refuses_unknowns() {
    let manifest = reference();
    assert_eq!(manifest.branding.locale, "en");
    manifest.validate().unwrap();
    let mut zh = reference();
    zh.branding.locale = s("zh-CN");
    zh.validate().unwrap();
    assert_eq!(zh.branding.locale, "zh-CN");
    let mut klingon = reference();
    klingon.branding.locale = s("klingon");
    let err = refusal(klingon.validate());
    assert!(err.contains("branding.locale"), "{err}");
}

#[test]
fn resolver_block_renders_the_binarys_own_env_names() {
    let mut manifest = reference();
    manifest.services.resolver = Some(ResolverService {
        bind: s("127.0.0.1:8397"),
        admin_token: None,
        state_file: None,
        upstream: Some(s("http://127.0.0.1:8080")),
        cache_ttl_secs: 60,
        public_url: None,
    });
    manifest.validate().unwrap();
    assert!(manifest.service_names().contains(&"resolver"));
    let env = render_env(&manifest, "resolver").unwrap();
    assert!(env.contains("UNIDPP_BIND=127.0.0.1:8397"), "{env}");
    assert!(env.contains("UNIDPP_UPSTREAM=http://127.0.0.1:8080"), "{env}");
    assert!(env.contains("UNIDPP_CACHE_TTL_SECS=60"), "{env}");
    // No block, no render.
    assert!(render_env(&reference(), "resolver").is_err());
}

#[test]
fn public_url_is_optional_and_addressable_per_service() {
    let manifest = reference();
    assert_eq!(manifest.service_public_url("registry"), None);
    let mut declared = reference();
    if let Some(r) = declared.services.registry.as_mut() {
        r.public_url = Some(s("https://registry.unidpp.org"));
    }
    declared.validate().unwrap();
    assert_eq!(declared.service_public_url("registry").as_deref(), Some("https://registry.unidpp.org"));
    assert_eq!(declared.service_public_url("log"), None);
    assert_eq!(declared.service_public_url("billing"), None);
    assert_eq!(declared.service_names().len(), manifest.service_names().len());
}

#[test]
fn render_env_rejects_absent_services_and_unknown_names() {
    let manifest = reference();
    assert!(render_env(&manifest, "console").is_err());
    assert!(render_env(&manifest, "billing").is_err());
    assert_eq!(manifest.service_names(), vec!["registry", "log", "issuer", "gateway", "hub"]);
}

fn edge(feedback: FeedbackPolicy, scan_policy: Option<ScanPolicy>) -> OperatorManifest {
    let mut services = Services::default();
    let mut gw = gateway("127.0.0.1:8094");
    gw.feedback = feedback;
    gw.scan_policy = scan_policy;
    services.gateway = Some(gw);
    manifest("edge", Profile::Whitelabel, "https://edge.example.org", services, EgressPolicy::NoEgress)
}

#[test]
fn gateway_renders_feedback_and_scan_policy() {
    let manifest = edge(
        FeedbackPolicy { journal: Some(s("/var/lib/unidpp/feedback.jsonl")), rate_per_minute: 3 },
        Some(ScanPolicy { token_ttl_secs: 300, issue_limit_per_minute: 60 }),
    );
    manifest.validate().unwrap();
    let env = render_env(&manifest, "gateway").unwrap();
    assert!(env.contains("UNIDPP_GATEWAY_FEEDBACK_JOURNAL=/var/lib/unidpp/feedback.jsonl"));
    assert!(env.contains("UNIDPP_GATEWAY_FEEDBACK_RATE=3"));
    assert!(env.contains("UNIDPP_GATEWAY_SCAN_TTL_SECS=300"));
    assert!(env.contains("UNIDPP_GATEWAY_SCAN_LIMIT_PER_MIN=60"));
    // The default posture stays open: no policy, no vars.
    let open_manifest = edge(FeedbackPolicy::default(), None);
    open_manifest.validate().unwrap();
    let open = render_env(&open_manifest, "gateway").unwrap();
    assert!(!open.contains("SCAN_TTL"));
    assert!(!open.contains("FEEDBACK_RATE"));
}

// ---------------------------------------------------------------------------
// Exact outputs, edge cases and laws on concrete values
// ---------------------------------------------------------------------------

#[test]
fn render_lists_every_variable_once_in_name_order() {
    let mut m = reference();
    if let Some(r) = m.services.registry.as_mut() {
        r.seed_on_demand = Some(true);
        r.seed_express = Some(false);
    }
    assert_eq!(
        render_env(&m, "registry").unwrap(),
        "UNIDPP_REGISTRY_ADMIN_TOKEN=x\nUNIDPP_REGISTRY_BIND=127.0.0.1:8390\nUNIDPP_REGISTRY_SEED_EXPRESS=false\nUNIDPP_REGISTRY_SEED_ON_DEMAND=true\nUNIDPP_REGISTRY_STATE_FILE=registry-journal.jsonl"
    );
    assert_eq!(
        render_env(&m, "log").unwrap(),
        "UNIDPP_LOG_BIND=127.0.0.1:8392\nUNIDPP_LOG_EXTERNAL_TSA_URL=http://timestamp.digicert.com\nUNIDPP_LOG_ID=unidpp-pilot-log-1\nUNIDPP_LOG_STATE_FILE=run/log-journal.jsonl"
    );
    assert_eq!(
        render_env(&m, "gateway").unwrap(),
        "UNIDPP_GATEWAY_BIND=127.0.0.1:8395\nUNIDPP_ISSUER_URL=http://127.0.0.1:8393"
    );
    // Every rendered block is sorted by name with no name twice.
    for name in m.service_names() {
        let block = render_env(&m, name).unwrap();
        let keys: Vec<&str> = block.lines().map(|l| l.split('=').next().unwrap()).collect();
        for pair in keys.windows(2) {
            assert!(pair[0] < pair[1], "{block}");
        }
        assert!(keys.iter().all(|k| k.starts_with("UNIDPP_")), "{block}");
    }
}

#[test]
fn render_writes_numbers_in_decimal() {
    let mut m = reference();
    m.services.resolver = Some(ResolverService {
        bind: s("b"),
        admin_token: None,
        state_file: None,
        upstream: None,
        cache_ttl_secs: i64::MIN,
        public_url: None,
    });
    assert_eq!(render_env(&m, "resolver").unwrap(), "UNIDPP_BIND=b\nUNIDPP_CACHE_TTL_SECS=-9223372036854775808");
    if let Some(r) = m.services.resolver.as_mut() {
        r.cache_ttl_secs = 0;
    }
    assert_eq!(render_env(&m, "resolver").unwrap(), "UNIDPP_BIND=b\nUNIDPP_CACHE_TTL_SECS=0");
    let mut gw = edge(FeedbackPolicy::default(), Some(ScanPolicy { token_ttl_secs: u64::MAX, issue_limit_per_minute: 0 }));
    if let Some(g) = gw.services.gateway.as_mut() {
        g.timeout_ms = Some(1000);
    }
    assert_eq!(
        render_env(&gw, "gateway").unwrap(),
        "UNIDPP_GATEWAY_BIND=127.0.0.1:8094\nUNIDPP_GATEWAY_SCAN_LIMIT_PER_MIN=0\nUNIDPP_GATEWAY_SCAN_TTL_SECS=18446744073709551615\nUNIDPP_GATEWAY_TIMEOUT_MS=1000"
    );
}

#[test]
fn render_refusals_name_the_problem() {
    let m = reference();
    assert_eq!(render_env(&m, "console").unwrap_err().0, "this deployment has no console block");
    assert_eq!(
        render_env(&m, "billing").unwrap_err().0,
        "unknown service `billing` (expected one of [\"registry\", \"log\", \"issuer\", \"gateway\", \"hub\"])"
    );
    let empty = manifest("e", Profile::Reference, "u", Services::default(), EgressPolicy::External);
    assert_eq!(render_env(&empty, "x").unwrap_err().0, "unknown service `x` (expected one of [])");
}

#[test]
fn render_succeeds_exactly_for_listed_services() {
    let m = reference();
    let listed = m.service_names();
    for name in ["registry", "resolver", "trust", "log", "issuer", "projector", "gateway", "archive", "console", "hub", "billing", ""] {
        assert_eq!(render_env(&m, name).is_ok(), listed.contains(&name), "{name}");
    }
}

#[test]
fn public_url_only_for_running_services() {
    let mut m = reference();
    if let Some(h) = m.services.hub.as_mut() {
        h.public_url = Some(s("https://hub.example"));
    }
    assert_eq!(m.service_public_url("hub").as_deref(), Some("https://hub.example"));
    assert!(m.service_names().contains(&"hub"));
    assert_eq!(m.service_public_url("console"), None);
}

#[test]
fn validation_refusals_are_exact() {
    let mut m = reference();
    m.api_version = s("v0");
    assert_eq!(refusal(m.validate()), "api_version `v0` is not `unidpp.org/v1`");
    let mut m = reference();
    m.deployment.name = s(" \t\u{3000}");
    assert_eq!(refusal(m.validate()), "deployment.name must not be empty");
    let mut m = reference();
    m.branding.theme = Theme { primary: s("#0F62FE"), accent: s("#08bdbg") };
    assert_eq!(refusal(m.validate()), "branding.theme.accent must be a #rrggbb hex color (got `#08bdbg`)");
    let mut m = reference();
    m.branding.locale = s("fr");
    assert_eq!(refusal(m.validate()), "branding.locale `fr` is not one of [\"en\", \"zh-CN\"]");
    let mut m = reference();
    if let Some(i) = m.services.issuer.as_mut() {
        i.pack_suites = vec![s("sm2"), s("  ")];
    }
    assert_eq!(refusal(m.validate()), "services.issuer.pack_suites contains an empty suite");
    if let Some(i) = m.services.issuer.as_mut() {
        i.pack_suites = vec![];
    }
    assert_eq!(refusal(m.validate()), "services.issuer.pack_suites needs at least one suite");
    let mut m = sovereign();
    m.sovereignty.external_calls = EgressPolicy::External;
    m.sovereignty.egress_override_reason = Some(s("   "));
    assert_eq!(
        refusal(m.validate()),
        "profile `sovereign` with external_calls `\"external\"` requires sovereignty.egress_override_reason (recorded, auditable)"
    );
    let mut m = sovereign();
    m.services.log = Some(LogService {
        bind: s("b"),
        admin_token: None,
        state_file: None,
        log_id: unidpp_config::default_log_id(),
        public_url: None,
        external_tsa_url: Some(s("http://tsa")),
        suite: None,
        seed: None,
    });
    assert_eq!(refusal(m.validate()), "services.log.external_tsa_url is set but external_calls is `none`");
    // With a reasoned egress the same log is accepted.
    m.sovereignty.external_calls = EgressPolicy::TsaOnly;
    m.sovereignty.egress_override_reason = Some(s("regulation"));
    m.validate().unwrap();
    // A non-sovereign profile may call out freely.
    let mut w = sovereign();
    w.deployment.profile = Profile::Whitelabel;
    w.sovereignty.external_calls = EgressPolicy::External;
    w.validate().unwrap();
}

#[test]
fn hex_colors_are_hash_and_six_hex_digits() {
    assert!(unidpp_config::hex_color("f", "#a1B2c3").is_ok());
    assert!(unidpp_config::hex_color("f", &unidpp_config::default_primary()).is_ok());
    assert!(unidpp_config::hex_color("f", &unidpp_config::default_accent()).is_ok());
    for bad in ["", "#", "#12345", "#1234567", "123456", "#12345g", "#12345é", "＃123456"] {
        assert_eq!(
            unidpp_config::hex_color("f", bad).unwrap_err().0,
            format!("f must be a #rrggbb hex color (got `{bad}`)")
        );
    }
}

#[test]
fn substitution_resolves_and_refuses() {
    let e = env(&[("A", "1"), ("B_2", "two"), ("A", "shadowed")]);
    assert_eq!(substitute_env("x${A}y${B_2}z", &e).unwrap(), "x1ytwoz");
    assert_eq!(substitute_env("plain $ text { }", &e).unwrap(), "plain $ text { }");
    assert_eq!(substitute_env("$${A}", &e).unwrap(), "$1");
    assert_eq!(substitute_env("${A}${A}", &e).unwrap(), "11");
    assert_eq!(substitute_env("a${B", &e).unwrap_err().0, "unterminated ${...} reference");
    assert_eq!(substitute_env("a${}", &e).unwrap_err().0, "bad environment reference `${}` (alphanumerics and _ only)");
    assert_eq!(
        substitute_env("a${B-2}", &e).unwrap_err().0,
        "bad environment reference `${B-2}` (alphanumerics and _ only)"
    );
    assert_eq!(
        substitute_env("${NOPE} ${B", &e).unwrap_err().0,
        "manifest references unset variable `NOPE` (secrets must resolve)"
    );
    // A value is not scanned again.
    let e2 = env(&[("V", "${A}")]);
    assert_eq!(substitute_env("${V}", &e2).unwrap(), "${A}");
}

#[test]
fn json_is_recognised_by_its_leading_brace() {
    assert!(unidpp_config::reads_as_json("{\"a\": 1}"));
    assert!(unidpp_config::reads_as_json(" \n\t{}"));
    assert!(!unidpp_config::reads_as_json("api_version: x"));
    assert!(!unidpp_config::reads_as_json(""));
    assert!(!unidpp_config::reads_as_json("  a {"));
}

#[test]
fn profiles_and_defaults() {
    assert_eq!(Profile::Reference.as_str(), "reference");
    assert_eq!(Profile::Whitelabel.as_str(), "whitelabel");
    assert_eq!(Profile::Sovereign.as_str(), "sovereign");
    let b = Branding::default();
    assert_eq!(b.organization, "UniDPP");
    assert_eq!(b.product_name, "UniDPP Platform");
    assert_eq!(b.theme.primary, "#0f62fe");
    assert_eq!(b.theme.accent, "#08bdba");
    assert_eq!(unidpp_config::default_hub_id(), "unidpp-hub-1");
    assert_eq!(unidpp_config::default_log_id(), "unidpp-log-1");
    assert_eq!(unidpp_config::default_pack_suites(), vec![s("ecdsa-p256")]);
    assert_eq!(unidpp_config::default_cache_ttl(), 300);
    assert!(unidpp_config::yes());
    assert_eq!(unidpp_config::no_egress(), EgressPolicy::NoEgress);
    let f = Features::default();
    assert!(f.untp_ingest && f.cddal_negotiation && f.presentation_render);
    // A manifest with every default branding validates.
    let m = manifest("d", Profile::Reference, "u", Services::default(), EgressPolicy::NoEgress);
    m.validate().unwrap();
}

#[test]
fn no_rendered_variable_names_a_public_url() {
    let mut declared = reference();
    if let Some(r) = declared.services.registry.as_mut() {
        r.public_url = Some(s("https://registry.unidpp.org"));
    }
    if let Some(g) = declared.services.gateway.as_mut() {
        g.public_url = Some(s("https://gateway.unidpp.org"));
    }
    for name in declared.service_names() {
        let block = render_env(&declared, name).unwrap();
        for line in block.lines() {
            let key = line.split('=').next().unwrap();
            assert!(!key.contains("PUBLIC_URL"), "{name}: {line}");
            assert!(!key.contains("BL"), "{name}: {line}");
        }
    }
}
