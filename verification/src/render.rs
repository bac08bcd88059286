use vstd::prelude::*;
use vstd::string::*;

use crate::env::{env_block, env_line, has_line, listing, lists, with_opt, EnvVars};
use crate::model::{
    opt_text, ArchiveService, ConfigError, ConsoleService, GatewayService, HubService,
    IssuerService, LogService, OperatorManifest, ProjectorService, RegistryService,
    ResolverService, Services, TrustService,
};
use crate::services::{lemma_present_names_contains, lemma_service_names_distinct, present_names};
use crate::text::{bool_string, bool_text, decimal, i64_text, same_text, signed_decimal, u64_text, usize_text};

verus! {

// ---------------------------------------------------------------------------
// What each service reads from its environment
// ---------------------------------------------------------------------------

/// The numeral of an optional number.
pub open spec fn opt_decimal(o: Option<u64>) -> Option<Seq<char>> {
    match o {
        Some(n) => Some(decimal(n as nat)),
        None => None,
    }
}

/// `true`/`false` of an optional toggle.
pub open spec fn opt_bool(o: Option<bool>) -> Option<Seq<char>> {
    match o {
        Some(b) => Some(bool_text(b)),
        None => None,
    }
}

/// The name of a prefixed service variable: `UNIDPP_{prefix}{suffix}`.
pub open spec fn env_key(prefix: Seq<char>, suffix: Seq<char>) -> Seq<char> {
    "UNIDPP_"@ + prefix + suffix
}

/// The bind, admin token and state file every prefixed service reads.
pub open spec fn common_env(
    m: Map<Seq<char>, Seq<char>>,
    prefix: Seq<char>,
    bind: Seq<char>,
    admin_token: Option<Seq<char>>,
    state_file: Option<Seq<char>>,
) -> Map<Seq<char>, Seq<char>> {
    let m = m.insert(env_key(prefix, "_BIND"@), bind);
    let m = with_opt(m, env_key(prefix, "_ADMIN_TOKEN"@), admin_token);
    with_opt(m, env_key(prefix, "_STATE_FILE"@), state_file)
}

/// The registry's environment.
pub open spec fn registry_env(c: RegistryService) -> Map<Seq<char>, Seq<char>> {
    let m = common_env(Map::empty(), "REGISTRY"@, c.bind@, opt_text(c.admin_token), opt_text(c.state_file));
    let m = with_opt(m, "UNIDPP_REGISTRY_SEED_ON_DEMAND"@, opt_bool(c.seed_on_demand));
    with_opt(m, "UNIDPP_REGISTRY_SEED_EXPRESS"@, opt_bool(c.seed_express))
}

/// The resolver's environment (the generic `UNIDPP_` names its binary reads).
pub open spec fn resolver_env(c: ResolverService) -> Map<Seq<char>, Seq<char>> {
    let m = Map::empty().insert("UNIDPP_BIND"@, c.bind@);
    let m = with_opt(m, "UNIDPP_ADMIN_TOKEN"@, opt_text(c.admin_token));
    let m = with_opt(m, "UNIDPP_STATE_FILE"@, opt_text(c.state_file));
    let m = with_opt(m, "UNIDPP_UPSTREAM"@, opt_text(c.upstream));
    m.insert("UNIDPP_CACHE_TTL_SECS"@, signed_decimal(c.cache_ttl_secs as int))
}

/// The trust service's environment.
pub open spec fn trust_env(c: TrustService) -> Map<Seq<char>, Seq<char>> {
    let m = common_env(Map::empty(), "TRUST"@, c.bind@, opt_text(c.admin_token), opt_text(c.state_file));
    let m = with_opt(m, "UNIDPP_TRUST_NO_SEED_FIXTURES"@, opt_bool(c.no_seed_fixtures));
    let m = with_opt(m, "UNIDPP_TRUST_DEV_SEED"@, opt_text(c.dev_seed));
    let m = with_opt(m, "UNIDPP_TRUST_SIGN_SEED"@, opt_text(c.sign_seed));
    with_opt(m, "UNIDPP_TRUST_SIGN_SEED_P256"@, opt_text(c.sign_seed_p256))
}

/// The transparency log's environment.
pub open spec fn log_env(c: LogService) -> Map<Seq<char>, Seq<char>> {
    let m = Map::empty().insert("UNIDPP_LOG_BIND"@, c.bind@);
    let m = m.insert("UNIDPP_LOG_ID"@, c.log_id@);
    let m = with_opt(m, "UNIDPP_LOG_APPEND_TOKEN"@, opt_text(c.admin_token));
    let m = with_opt(m, "UNIDPP_LOG_STATE_FILE"@, opt_text(c.state_file));
    let m = with_opt(m, "UNIDPP_LOG_EXTERNAL_TSA_URL"@, opt_text(c.external_tsa_url));
    let m = with_opt(m, "UNIDPP_LOG_SUITE"@, opt_text(c.suite));
    with_opt(m, "UNIDPP_LOG_SEED"@, opt_text(c.seed))
}

/// The texts of a list of strings.
pub open spec fn texts(v: Seq<String>) -> Seq<Seq<char>> {
    v.map_values(|s: String| s@)
}

/// The texts joined, with `sep` between neighbours.
pub open spec fn joined(parts: Seq<Seq<char>>, sep: Seq<char>) -> Seq<char>
    decreases parts.len(),
{
    if parts.len() == 0 {
        Seq::empty()
    } else if parts.len() == 1 {
        parts[0]
    } else {
        joined(parts.drop_last(), sep) + sep + parts.last()
    }
}

/// The issuer's environment (the pack suites comma-joined, when there are any).
pub open spec fn issuer_env(c: IssuerService) -> Map<Seq<char>, Seq<char>> {
    let m = Map::empty().insert("UNIDPP_ISSUER_BIND"@, c.bind@);
    let m = with_opt(m, "UNIDPP_ISSUER_ADMIN_TOKEN"@, opt_text(c.admin_token));
    let m = with_opt(m, "UNIDPP_ISSUER_STATE_FILE"@, opt_text(c.state_file));
    let m = if c.pack_suites@.len() > 0 {
        m.insert("UNIDPP_ISSUER_PACK_SUITE"@, joined(texts(c.pack_suites@), ","@))
    } else {
        m
    };
    let m = with_opt(m, "UNIDPP_ISSUER_REGISTRY_URL"@, opt_text(c.registry_url));
    let m = with_opt(m, "UNIDPP_ISSUER_REGISTRY_TOKEN"@, opt_text(c.registry_token));
    let m = with_opt(m, "UNIDPP_ISSUER_MAX_AGE"@, opt_decimal(c.max_age));
    let m = with_opt(m, "UNIDPP_ISSUER_EVENT_SEED"@, opt_text(c.event_seed));
    let m = with_opt(m, "UNIDPP_ISSUER_PACK_SEED"@, opt_text(c.pack_seed));
    with_opt(m, "UNIDPP_ISSUER_SEED"@, opt_text(c.seed))
}

/// The projector's environment.
pub open spec fn projector_env(c: ProjectorService) -> Map<Seq<char>, Seq<char>> {
    let m = common_env(Map::empty(), "PROJECTOR"@, c.bind@, opt_text(c.admin_token), opt_text(c.state_file));
    let m = with_opt(m, "UNIDPP_REGISTRY_URL"@, opt_text(c.registry_url));
    let m = with_opt(m, "UNIDPP_PROJECTOR_REGISTRY_TOKEN"@, opt_text(c.registry_token));
    let m = with_opt(m, "UNIDPP_PROJECTOR_PASSPORTS_DIR"@, opt_text(c.passports_dir));
    let m = with_opt(m, "UNIDPP_PROJECTOR_PRIMMEL_DIR"@, opt_text(c.primmel_dir));
    let m = with_opt(m, "UNIDPP_PROJECTOR_ROLLUP_SEED"@, opt_text(c.rollup_seed));
    with_opt(m, "UNIDPP_PROJECTOR_ROLLUP_ATTESTER"@, opt_text(c.rollup_attester))
}

/// The gateway's environment (the feedback rate only when positive; the scan
/// policy only when declared).
pub open spec fn gateway_env(c: GatewayService) -> Map<Seq<char>, Seq<char>> {
    let m = Map::empty().insert("UNIDPP_GATEWAY_BIND"@, c.bind@);
    let m = with_opt(m, "UNIDPP_GATEWAY_ADMIN_TOKEN"@, opt_text(c.admin_token));
    let m = with_opt(m, "UNIDPP_ISSUER_URL"@, opt_text(c.issuer_url));
    let m = with_opt(m, "UNIDPP_GATEWAY_FEEDBACK_JOURNAL"@, opt_text(c.feedback.journal));
    let m = if c.feedback.rate_per_minute > 0 {
        m.insert("UNIDPP_GATEWAY_FEEDBACK_RATE"@, decimal(c.feedback.rate_per_minute as nat))
    } else {
        m
    };
    let m = match c.scan_policy {
        Some(scan) => m.insert("UNIDPP_GATEWAY_SCAN_TTL_SECS"@, decimal(scan.token_ttl_secs as nat)).insert(
            "UNIDPP_GATEWAY_SCAN_LIMIT_PER_MIN"@,
            decimal(scan.issue_limit_per_minute as nat),
        ),
        None => m,
    };
    with_opt(m, "UNIDPP_GATEWAY_TIMEOUT_MS"@, opt_decimal(c.timeout_ms))
}

/// The archive's environment.
pub open spec fn archive_env(c: ArchiveService) -> Map<Seq<char>, Seq<char>> {
    let m = common_env(Map::empty(), "ARCHIVE"@, c.bind@, opt_text(c.admin_token), opt_text(c.state_file));
    let m = with_opt(m, "UNIDPP_ARCHIVE_SNAPSHOT_DIR"@, opt_text(c.snapshot_dir));
    let m = with_opt(m, "UNIDPP_ARCHIVE_DEV_SEED"@, opt_text(c.dev_seed));
    let m = with_opt(m, "UNIDPP_ARCHIVE_SIGN_SEED"@, opt_text(c.sign_seed));
    let m = with_opt(m, "UNIDPP_LOG_URL"@, opt_text(c.log_url));
    let m = with_opt(m, "UNIDPP_ARCHIVE_LOG_TOKEN"@, opt_text(c.log_token));
    with_opt(m, "UNIDPP_ARCHIVE_LOG_TIMEOUT_MS"@, opt_decimal(c.log_timeout_ms))
}

/// The console's environment.
pub open spec fn console_env(c: ConsoleService) -> Map<Seq<char>, Seq<char>> {
    let m = common_env(Map::empty(), "CONSOLE"@, c.bind@, opt_text(c.admin_token), opt_text(c.state_file));
    with_opt(m, "UNIDPP_CONSOLE_MANIFEST"@, opt_text(c.manifest))
}

/// The hub's environment.
pub open spec fn hub_env(c: HubService) -> Map<Seq<char>, Seq<char>> {
    let m = Map::empty().insert("UNIDPP_HUB_BIND"@, c.bind@);
    let m = m.insert("UNIDPP_HUB_ID"@, c.hub_id@);
    let m = with_opt(m, "UNIDPP_HUB_ADMIN_TOKEN"@, opt_text(c.admin_token));
    with_opt(m, "UNIDPP_HUB_SEED"@, opt_text(c.seed))
}

/// The environment of the service called `name`, when this deployment runs
/// it (`None` for an absent block or an unknown name).
pub open spec fn service_env(s: Services, name: Seq<char>) -> Option<Map<Seq<char>, Seq<char>>> {
    if name == "registry"@ {
        match s.registry { Some(c) => Some(registry_env(c)), None => None }
    } else if name == "resolver"@ {
        match s.resolver { Some(c) => Some(resolver_env(c)), None => None }
    } else if name == "trust"@ {
        match s.trust { Some(c) => Some(trust_env(c)), None => None }
    } else if name == "log"@ {
        match s.log { Some(c) => Some(log_env(c)), None => None }
    } else if name == "issuer"@ {
        match s.issuer { Some(c) => Some(issuer_env(c)), None => None }
    } else if name == "projector"@ {
        match s.projector { Some(c) => Some(projector_env(c)), None => None }
    } else if name == "gateway"@ {
        match s.gateway { Some(c) => Some(gateway_env(c)), None => None }
    } else if name == "archive"@ {
        match s.archive { Some(c) => Some(archive_env(c)), None => None }
    } else if name == "console"@ {
        match s.console { Some(c) => Some(console_env(c)), None => None }
    } else if name == "hub"@ {
        match s.hub { Some(c) => Some(hub_env(c)), None => None }
    } else {
        None
    }
}

/// The ten service names a manifest can declare.
pub open spec fn is_known_service(name: Seq<char>) -> bool {
    ||| name == "registry"@
    ||| name == "resolver"@
    ||| name == "trust"@
    ||| name == "log"@
    ||| name == "issuer"@
    ||| name == "projector"@
    ||| name == "gateway"@
    ||| name == "archive"@
    ||| name == "console"@
    ||| name == "hub"@
}

/// A name in double quotes.
pub open spec fn quoted(n: Seq<char>) -> Seq<char> {
    seq!['"'] + n + seq!['"']
}

/// A list of names as `Debug` prints it: `["a", "b"]`.
pub open spec fn name_list(names: Seq<Seq<char>>) -> Seq<char> {
    seq!['['] + joined(names.map_values(|n: Seq<char>| quoted(n)), seq![',', ' ']) + seq![']']
}

/// Why a render is refused: the block is absent, or the name is unknown.
pub open spec fn render_refusal(s: Services, name: Seq<char>) -> Seq<char> {
    if is_known_service(name) {
        "this deployment has no "@ + name + " block"@
    } else {
        "unknown service `"@ + name + "` (expected one of "@ + name_list(present_names(s)) + ")"@
    }
}

// ---------------------------------------------------------------------------
// Building the blocks
// ---------------------------------------------------------------------------

fn opt_clone(o: &Option<String>) -> (r: Option<String>)
    ensures
        opt_text(r) == opt_text(*o),
{
    match o {
        Some(s) => Some(s.clone()),
        None => None,
    }
}

fn opt_bool_string(o: Option<bool>) -> (r: Option<String>)
    ensures
        opt_text(r) == opt_bool(o),
{
    match o {
        Some(b) => Some(bool_string(b)),
        None => None,
    }
}

fn opt_u64_string(o: Option<u64>) -> (r: Option<String>)
    ensures
        opt_text(r) == opt_decimal(o),
{
    match o {
        Some(n) => Some(u64_text(n)),
        None => None,
    }
}

fn prefixed_key(prefix: &str, suffix: &str) -> (r: String)
    ensures
        r@ == env_key(prefix@, suffix@),
{
    let mut k = String::from_str("UNIDPP_");
    k.append(prefix);
    k.append(suffix);
    k
}

fn common(
    vars: &mut EnvVars,
    prefix: &str,
    bind: &String,
    admin_token: &Option<String>,
    state_file: &Option<String>,
)
    requires
        old(vars).wf(),
    ensures
        final(vars).wf(),
        final(vars)@ == common_env(old(vars)@, prefix@, bind@, opt_text(*admin_token), opt_text(*state_file)),
{
    vars.insert(prefixed_key(prefix, "_BIND"), bind.clone());
    vars.insert_some(prefixed_key(prefix, "_ADMIN_TOKEN"), opt_clone(admin_token));
    vars.insert_some(prefixed_key(prefix, "_STATE_FILE"), opt_clone(state_file));
}

fn registry_vars(c: &RegistryService) -> (r: EnvVars)
    ensures
        r.wf(),
        r@ == registry_env(*c),
{
    let mut vars = EnvVars::new();
    common(&mut vars, "REGISTRY", &c.bind, &c.admin_token, &c.state_file);
    vars.insert_some(String::from_str("UNIDPP_REGISTRY_SEED_ON_DEMAND"), opt_bool_string(c.seed_on_demand));
    vars.insert_some(String::from_str("UNIDPP_REGISTRY_SEED_EXPRESS"), opt_bool_string(c.seed_express));
    vars
}

fn resolver_vars(c: &ResolverService) -> (r: EnvVars)
    ensures
        r.wf(),
        r@ == resolver_env(*c),
{
    let mut vars = EnvVars::new();
    vars.insert(String::from_str("UNIDPP_BIND"), c.bind.clone());
    vars.insert_some(String::from_str("UNIDPP_ADMIN_TOKEN"), opt_clone(&c.admin_token));
    vars.insert_some(String::from_str("UNIDPP_STATE_FILE"), opt_clone(&c.state_file));
    vars.insert_some(String::from_str("UNIDPP_UPSTREAM"), opt_clone(&c.upstream));
    vars.insert(String::from_str("UNIDPP_CACHE_TTL_SECS"), i64_text(c.cache_ttl_secs));
    vars
}

fn trust_vars(c: &TrustService) -> (r: EnvVars)
    ensures
        r.wf(),
        r@ == trust_env(*c),
{
    let mut vars = EnvVars::new();
    common(&mut vars, "TRUST", &c.bind, &c.admin_token, &c.state_file);
    vars.insert_some(String::from_str("UNIDPP_TRUST_NO_SEED_FIXTURES"), opt_bool_string(c.no_seed_fixtures));
    vars.insert_some(String::from_str("UNIDPP_TRUST_DEV_SEED"), opt_clone(&c.dev_seed));
    vars.insert_some(String::from_str("UNIDPP_TRUST_SIGN_SEED"), opt_clone(&c.sign_seed));
    vars.insert_some(String::from_str("UNIDPP_TRUST_SIGN_SEED_P256"), opt_clone(&c.sign_seed_p256));
    vars
}

fn log_vars(c: &LogService) -> (r: EnvVars)
    ensures
        r.wf(),
        r@ == log_env(*c),
{
    let mut vars = EnvVars::new();
    vars.insert(String::from_str("UNIDPP_LOG_BIND"), c.bind.clone());
    vars.insert(String::from_str("UNIDPP_LOG_ID"), c.log_id.clone());
    vars.insert_some(String::from_str("UNIDPP_LOG_APPEND_TOKEN"), opt_clone(&c.admin_token));
    vars.insert_some(String::from_str("UNIDPP_LOG_STATE_FILE"), opt_clone(&c.state_file));
    vars.insert_some(String::from_str("UNIDPP_LOG_EXTERNAL_TSA_URL"), opt_clone(&c.external_tsa_url));
    vars.insert_some(String::from_str("UNIDPP_LOG_SUITE"), opt_clone(&c.suite));
    vars.insert_some(String::from_str("UNIDPP_LOG_SEED"), opt_clone(&c.seed));
    vars
}

/// The strings joined, with `sep` between neighbours.
pub fn join_strings(parts: &Vec<String>, sep: &str) -> (r: String)
    ensures
        r@ == joined(texts(parts@), sep@),
{
    let ghost t = texts(parts@);
    let mut out = String::new();
    let mut i: usize = 0;
    while i < parts.len()
        invariant
            i <= parts@.len(),
            t == texts(parts@),
            out@ == joined(t.take(i as int), sep@),
        decreases parts@.len() - i,
    {
        if i > 0 {
            out.append(sep);
        }
        out.append(parts[i].as_str());
        proof {
            assert(t.take(i + 1).drop_last() =~= t.take(i as int));
            if i == 0 {
                assert(out@ =~= t.take(1)[0]);
            } else {
                assert(out@ =~= joined(t.take(i as int), sep@) + sep@ + t[i as int]);
            }
        }
        i = i + 1;
    }
    proof {
        assert(t.take(parts@.len() as int) =~= t);
    }
    out
}

fn issuer_vars(c: &IssuerService) -> (r: EnvVars)
    ensures
        r.wf(),
        r@ == issuer_env(*c),
{
    let mut vars = EnvVars::new();
    vars.insert(String::from_str("UNIDPP_ISSUER_BIND"), c.bind.clone());
    vars.insert_some(String::from_str("UNIDPP_ISSUER_ADMIN_TOKEN"), opt_clone(&c.admin_token));
    vars.insert_some(String::from_str("UNIDPP_ISSUER_STATE_FILE"), opt_clone(&c.state_file));
    if c.pack_suites.len() > 0 {
        vars.insert(String::from_str("UNIDPP_ISSUER_PACK_SUITE"), join_strings(&c.pack_suites, ","));
    }
    vars.insert_some(String::from_str("UNIDPP_ISSUER_REGISTRY_URL"), opt_clone(&c.registry_url));
    vars.insert_some(String::from_str("UNIDPP_ISSUER_REGISTRY_TOKEN"), opt_clone(&c.registry_token));
    vars.insert_some(String::from_str("UNIDPP_ISSUER_MAX_AGE"), opt_u64_string(c.max_age));
    vars.insert_some(String::from_str("UNIDPP_ISSUER_EVENT_SEED"), opt_clone(&c.event_seed));
    vars.insert_some(String::from_str("UNIDPP_ISSUER_PACK_SEED"), opt_clone(&c.pack_seed));
    vars.insert_some(String::from_str("UNIDPP_ISSUER_SEED"), opt_clone(&c.seed));
    vars
}

fn projector_vars(c: &ProjectorService) -> (r: EnvVars)
    ensures
        r.wf(),
        r@ == projector_env(*c),
{
    let mut vars = EnvVars::new();
    common(&mut vars, "PROJECTOR", &c.bind, &c.admin_token, &c.state_file);
    vars.insert_some(String::from_str("UNIDPP_REGISTRY_URL"), opt_clone(&c.registry_url));
    vars.insert_some(String::from_str("UNIDPP_PROJECTOR_REGISTRY_TOKEN"), opt_clone(&c.registry_token));
    vars.insert_some(String::from_str("UNIDPP_PROJECTOR_PASSPORTS_DIR"), opt_clone(&c.passports_dir));
    vars.insert_some(String::from_str("UNIDPP_PROJECTOR_PRIMMEL_DIR"), opt_clone(&c.primmel_dir));
    vars.insert_some(String::from_str("UNIDPP_PROJECTOR_ROLLUP_SEED"), opt_clone(&c.rollup_seed));
    vars.insert_some(String::from_str("UNIDPP_PROJECTOR_ROLLUP_ATTESTER"), opt_clone(&c.rollup_attester));
    vars
}

fn gateway_vars(c: &GatewayService) -> (r: EnvVars)
    ensures
        r.wf(),
        r@ == gateway_env(*c),
{
    let mut vars = EnvVars::new();
    vars.insert(String::from_str("UNIDPP_GATEWAY_BIND"), c.bind.clone());
    vars.insert_some(String::from_str("UNIDPP_GATEWAY_ADMIN_TOKEN"), opt_clone(&c.admin_token));
    vars.insert_some(String::from_str("UNIDPP_ISSUER_URL"), opt_clone(&c.issuer_url));
    vars.insert_some(String::from_str("UNIDPP_GATEWAY_FEEDBACK_JOURNAL"), opt_clone(&c.feedback.journal));
    if c.feedback.rate_per_minute > 0 {
        vars.insert(String::from_str("UNIDPP_GATEWAY_FEEDBACK_RATE"), usize_text(c.feedback.rate_per_minute));
    }
    match &c.scan_policy {
        Some(scan) => {
            vars.insert(String::from_str("UNIDPP_GATEWAY_SCAN_TTL_SECS"), u64_text(scan.token_ttl_secs));
            vars.insert(
                String::from_str("UNIDPP_GATEWAY_SCAN_LIMIT_PER_MIN"),
                usize_text(scan.issue_limit_per_minute),
            );
        },
        None => {},
    }
    vars.insert_some(String::from_str("UNIDPP_GATEWAY_TIMEOUT_MS"), opt_u64_string(c.timeout_ms));
    vars
}

fn archive_vars(c: &ArchiveService) -> (r: EnvVars)
    ensures
        r.wf(),
        r@ == archive_env(*c),
{
    let mut vars = EnvVars::new();
    common(&mut vars, "ARCHIVE", &c.bind, &c.admin_token, &c.state_file);
    vars.insert_some(String::from_str("UNIDPP_ARCHIVE_SNAPSHOT_DIR"), opt_clone(&c.snapshot_dir));
    vars.insert_some(String::from_str("UNIDPP_ARCHIVE_DEV_SEED"), opt_clone(&c.dev_seed));
    vars.insert_some(String::from_str("UNIDPP_ARCHIVE_SIGN_SEED"), opt_clone(&c.sign_seed));
    vars.insert_some(String::from_str("UNIDPP_LOG_URL"), opt_clone(&c.log_url));
    vars.insert_some(String::from_str("UNIDPP_ARCHIVE_LOG_TOKEN"), opt_clone(&c.log_token));
    vars.insert_some(String::from_str("UNIDPP_ARCHIVE_LOG_TIMEOUT_MS"), opt_u64_string(c.log_timeout_ms));
    vars
}

fn console_vars(c: &ConsoleService) -> (r: EnvVars)
    ensures
        r.wf(),
        r@ == console_env(*c),
{
    let mut vars = EnvVars::new();
    common(&mut vars, "CONSOLE", &c.bind, &c.admin_token, &c.state_file);
    vars.insert_some(String::from_str("UNIDPP_CONSOLE_MANIFEST"), opt_clone(&c.manifest));
    vars
}

fn hub_vars(c: &HubService) -> (r: EnvVars)
    ensures
        r.wf(),
        r@ == hub_env(*c),
{
    let mut vars = EnvVars::new();
    vars.insert(String::from_str("UNIDPP_HUB_BIND"), c.bind.clone());
    vars.insert(String::from_str("UNIDPP_HUB_ID"), c.hub_id.clone());
    vars.insert_some(String::from_str("UNIDPP_HUB_ADMIN_TOKEN"), opt_clone(&c.admin_token));
    vars.insert_some(String::from_str("UNIDPP_HUB_SEED"), opt_clone(&c.seed));
    vars
}

fn no_block(name: &str) -> (e: ConfigError)
    ensures
        e.0@ == "this deployment has no "@ + name@ + " block"@,
{
    let mut s = String::from_str("this deployment has no ");
    s.append(name);
    s.append(" block");
    ConfigError(s)
}

/// The names as `Debug` prints a list of them: `["a", "b"]`.
pub fn name_list_text(names: &Vec<&'static str>) -> (r: String)
    ensures
        r@ == name_list(names@.map_values(|n: &'static str| n@)),
{
    let ghost t = names@.map_values(|n: &'static str| n@);
    let ghost q = t.map_values(|n: Seq<char>| quoted(n));
    let mut inner = String::new();
    let mut i: usize = 0;
    while i < names.len()
        invariant
            i <= names@.len(),
            t == names@.map_values(|n: &'static str| n@),
            q == t.map_values(|n: Seq<char>| quoted(n)),
            inner@ == joined(q.take(i as int), seq![',', ' ']),
        decreases names@.len() - i,
    {
        if i > 0 {
            inner.append(", ");
        }
        inner.append("\"");
        inner.append(names[i]);
        inner.append("\"");
        proof {
            reveal_strlit(", ");
            reveal_strlit("\"");
            assert(q.take(i + 1).drop_last() =~= q.take(i as int));
            assert(q[i as int] == quoted(names@[i as int]@));
            if i == 0 {
                assert(inner@ =~= q.take(1)[0]);
            } else {
                assert(inner@ =~= joined(q.take(i as int), seq![',', ' ']) + seq![',', ' '] + q[i as int]);
            }
        }
        i = i + 1;
    }
    let mut out = String::from_str("[");
    out.append(inner.as_str());
    out.append("]");
    proof {
        reveal_strlit("[");
        reveal_strlit("]");
        assert(q.take(names@.len() as int) =~= q);
        assert(out@ =~= name_list(t));
    }
    out
}

/// Materialize one service's environment block: `KEY=value` lines in name
/// order, exactly the variables that service's own configuration reads.
pub fn render_env(manifest: &OperatorManifest, service: &str) -> (r: Result<String, ConfigError>)
    ensures
        match service_env(manifest.services, service@) {
            Some(vars) => r matches Ok(text) && text@ == env_block(vars) && lists(listing(vars), vars)
                && forall|k: Seq<char>| vars.contains_key(k) ==> has_line(text@, #[trigger] env_line((k, vars[k]))),
            None => r matches Err(e) && e.0@ == render_refusal(manifest.services, service@),
        },
{
    let s = &manifest.services;
    let vars = if same_text(service, "registry") {
        match &s.registry { Some(c) => registry_vars(c), None => return Err(no_block(service)) }
    } else if same_text(service, "resolver") {
        match &s.resolver { Some(c) => resolver_vars(c), None => return Err(no_block(service)) }
    } else if same_text(service, "trust") {
        match &s.trust { Some(c) => trust_vars(c), None => return Err(no_block(service)) }
    } else if same_text(service, "log") {
        match &s.log { Some(c) => log_vars(c), None => return Err(no_block(service)) }
    } else if same_text(service, "issuer") {
        match &s.issuer { Some(c) => issuer_vars(c), None => return Err(no_block(service)) }
    } else if same_text(service, "projector") {
        match &s.projector { Some(c) => projector_vars(c), None => return Err(no_block(service)) }
    } else if same_text(service, "gateway") {
        match &s.gateway { Some(c) => gateway_vars(c), None => return Err(no_block(service)) }
    } else if same_text(service, "archive") {
        match &s.archive { Some(c) => archive_vars(c), None => return Err(no_block(service)) }
    } else if same_text(service, "console") {
        match &s.console { Some(c) => console_vars(c), None => return Err(no_block(service)) }
    } else if same_text(service, "hub") {
        match &s.hub { Some(c) => hub_vars(c), None => return Err(no_block(service)) }
    } else {
        let names = manifest.service_names();
        let mut msg = String::from_str("unknown service `");
        msg.append(service);
        msg.append("` (expected one of ");
        let list = name_list_text(&names);
        msg.append(list.as_str());
        msg.append(")");
        return Err(ConfigError(msg));
    };
    Ok(vars.render())
}

} // verus!

verus! {

/// `render_env` renders exactly the services that `service_names` lists:
/// a name has an environment block iff the deployment runs that service.
pub proof fn lemma_renders_exactly_the_listed_services(s: Services, name: Seq<char>)
    ensures
        service_env(s, name) is Some <==> present_names(s).contains(name),
{
    lemma_service_names_distinct();
    lemma_present_names_contains(s, name);
}

} // verus!

verus! {

/// A variable name in the `UNIDPP_` family.
pub open spec fn is_unidpp_name(k: Seq<char>) -> bool {
    k.len() >= 7 && k.take(7) == "UNIDPP_"@
}

/// A character of an environment variable name: `A`-`Z`, `0`-`9`, `_`.
pub open spec fn is_name_char(c: char) -> bool {
    ||| 'A' <= c <= 'Z'
    ||| '0' <= c <= '9'
    ||| c == '_'
}

/// Only name characters (so no `=` and no newline).
pub open spec fn name_chars_only(k: Seq<char>) -> bool {
    forall|i: int| 0 <= i < k.len() ==> is_name_char(#[trigger] k[i])
}

/// `k` has a `B` at `i` directly followed by an `L`.
pub open spec fn bl_at(k: Seq<char>, i: int) -> bool {
    k[i] == 'B' && k[i + 1] == 'L'
}

/// Nowhere in `k` does a `B` stand directly before an `L`.
pub open spec fn no_bl(k: Seq<char>) -> bool {
    forall|i: int| 0 <= i < k.len() - 1 ==> !#[trigger] bl_at(k, i)
}

/// `t` occurs in `k` as a run of consecutive characters.
pub open spec fn holds_text(k: Seq<char>, t: Seq<char>) -> bool {
    exists|i: int| 0 <= i && i + t.len() <= k.len() && #[trigger] k.subrange(i, i + t.len()) == t
}

/// Every variable of `m` is an `UNIDPP_` name of name characters only, with
/// no `B` directly before an `L`.
pub open spec fn all_unidpp(m: Map<Seq<char>, Seq<char>>) -> bool {
    forall|k: Seq<char>| m.contains_key(k) ==> is_unidpp_name(k) && name_chars_only(k) && no_bl(k)
}

proof fn lemma_prefixed_key(prefix: Seq<char>, suffix: Seq<char>)
    requires
        name_chars_only(prefix),
        name_chars_only(suffix),
        no_bl(prefix),
        no_bl(suffix),
        suffix.len() > 0 ==> suffix[0] == '_',
    ensures
        is_unidpp_name(env_key(prefix, suffix)),
        name_chars_only(env_key(prefix, suffix)),
        no_bl(env_key(prefix, suffix)),
{
    reveal_strlit("UNIDPP_");
    let u = "UNIDPP_"@;
    assert(name_chars_only(u)) by {
        assert forall|i: int| 0 <= i < u.len() implies is_name_char(#[trigger] u[i]) by {}
    }
    let k = env_key(prefix, suffix);
    assert(k.take(7) =~= u);
    assert forall|i: int| 0 <= i < k.len() implies is_name_char(#[trigger] k[i]) by {
        if i < 7 {
            assert(k[i] == u[i]);
        } else if i < 7 + prefix.len() {
            assert(k[i] == prefix[i - 7]);
        } else {
            assert(k[i] == suffix[i - 7 - prefix.len()]);
        }
    }
    assert forall|i: int| 0 <= i < k.len() - 1 implies !#[trigger] bl_at(k, i) by {
        if i + 1 < 7 {
            assert(k[i] == u[i] && k[i + 1] == u[i + 1]);
        } else if i < 7 {
            assert(k[i] == u[i]);
        } else if i + 1 < 7 + prefix.len() {
            assert(k[i] == prefix[i - 7] && k[i + 1] == prefix[i + 1 - 7]);
            assert(!bl_at(prefix, i - 7));
        } else if i < 7 + prefix.len() {
            assert(k[i + 1] == suffix[0]);
        } else {
            let j = i - 7 - prefix.len();
            assert(k[i] == suffix[j] && k[i + 1] == suffix[j + 1]);
            assert(!bl_at(suffix, j));
        }
    }
}

proof fn lemma_literal_name(k: Seq<char>)
    requires
        name_chars_only(k),
        no_bl(k),
        k.len() >= 7 && k[0] == 'U' && k[1] == 'N' && k[2] == 'I' && k[3] == 'D' && k[4] == 'P' && k[5] == 'P' && k[6] == '_',
    ensures
        is_unidpp_name(k),
        name_chars_only(k),
        no_bl(k),
{
    reveal_strlit("UNIDPP_");
    assert(k.take(7) =~= "UNIDPP_"@);
}

proof fn lemma_common_unidpp(
    m: Map<Seq<char>, Seq<char>>,
    prefix: Seq<char>,
    bind: Seq<char>,
    admin_token: Option<Seq<char>>,
    state_file: Option<Seq<char>>,
)
    requires
        all_unidpp(m),
        name_chars_only(prefix),
        no_bl(prefix),
    ensures
        all_unidpp(common_env(m, prefix, bind, admin_token, state_file)),
        common_env(m, prefix, bind, admin_token, state_file).contains_key(env_key(prefix, "_BIND"@)),
{
    reveal_strlit("_BIND");
    assert(name_chars_only("_BIND"@)) by {
        assert forall|i: int| 0 <= i < "_BIND"@.len() implies is_name_char(#[trigger] "_BIND"@[i]) by {}
    }
    assert forall|i: int| 0 <= i < "_BIND"@.len() - 1 implies !#[trigger] bl_at("_BIND"@, i) by {}
    lemma_prefixed_key(prefix, "_BIND"@);
    reveal_strlit("_ADMIN_TOKEN");
    assert(name_chars_only("_ADMIN_TOKEN"@)) by {
        assert forall|i: int| 0 <= i < "_ADMIN_TOKEN"@.len() implies is_name_char(#[trigger] "_ADMIN_TOKEN"@[i]) by {}
    }
    assert forall|i: int| 0 <= i < "_ADMIN_TOKEN"@.len() - 1 implies !#[trigger] bl_at("_ADMIN_TOKEN"@, i) by {}
    lemma_prefixed_key(prefix, "_ADMIN_TOKEN"@);
    reveal_strlit("_STATE_FILE");
    assert(name_chars_only("_STATE_FILE"@)) by {
        assert forall|i: int| 0 <= i < "_STATE_FILE"@.len() implies is_name_char(#[trigger] "_STATE_FILE"@[i]) by {}
    }
    assert forall|i: int| 0 <= i < "_STATE_FILE"@.len() - 1 implies !#[trigger] bl_at("_STATE_FILE"@, i) by {}
    lemma_prefixed_key(prefix, "_STATE_FILE"@);
}

proof fn lemma_registry_names(c: RegistryService)
    ensures
        all_unidpp(registry_env(c)),
        exists|k: Seq<char>| registry_env(c).contains_key(k),
{
    reveal_strlit("UNIDPP_REGISTRY_SEED_EXPRESS");
    assert forall|i: int| 0 <= i < "UNIDPP_REGISTRY_SEED_EXPRESS"@.len() implies is_name_char(#[trigger] "UNIDPP_REGISTRY_SEED_EXPRESS"@[i]) by {}
    assert forall|i: int| 0 <= i < "UNIDPP_REGISTRY_SEED_EXPRESS"@.len() - 1 implies !#[trigger] bl_at("UNIDPP_REGISTRY_SEED_EXPRESS"@, i) by {}
    lemma_literal_name("UNIDPP_REGISTRY_SEED_EXPRESS"@);
    reveal_strlit("UNIDPP_REGISTRY_SEED_ON_DEMAND");
    assert forall|i: int| 0 <= i < "UNIDPP_REGISTRY_SEED_ON_DEMAND"@.len() implies is_name_char(#[trigger] "UNIDPP_REGISTRY_SEED_ON_DEMAND"@[i]) by {}
    assert forall|i: int| 0 <= i < "UNIDPP_REGISTRY_SEED_ON_DEMAND"@.len() - 1 implies !#[trigger] bl_at("UNIDPP_REGISTRY_SEED_ON_DEMAND"@, i) by {}
    lemma_literal_name("UNIDPP_REGISTRY_SEED_ON_DEMAND"@);
    reveal_strlit("REGISTRY");
    assert forall|i: int| 0 <= i < "REGISTRY"@.len() implies is_name_char(#[trigger] "REGISTRY"@[i]) by {}
    assert forall|i: int| 0 <= i < "REGISTRY"@.len() - 1 implies !#[trigger] bl_at("REGISTRY"@, i) by {}
    lemma_common_unidpp(Map::empty(), "REGISTRY"@, c.bind@, opt_text(c.admin_token), opt_text(c.state_file));
    assert(registry_env(c).contains_key(env_key("REGISTRY"@, "_BIND"@)));
}

proof fn lemma_resolver_names(c: ResolverService)
    ensures
        all_unidpp(resolver_env(c)),
        exists|k: Seq<char>| resolver_env(c).contains_key(k),
{
    reveal_strlit("UNIDPP_ADMIN_TOKEN");
    assert forall|i: int| 0 <= i < "UNIDPP_ADMIN_TOKEN"@.len() implies is_name_char(#[trigger] "UNIDPP_ADMIN_TOKEN"@[i]) by {}
    assert forall|i: int| 0 <= i < "UNIDPP_ADMIN_TOKEN"@.len() - 1 implies !#[trigger] bl_at("UNIDPP_ADMIN_TOKEN"@, i) by {}
    lemma_literal_name("UNIDPP_ADMIN_TOKEN"@);
    reveal_strlit("UNIDPP_BIND");
    assert forall|i: int| 0 <= i < "UNIDPP_BIND"@.len() implies is_name_char(#[trigger] "UNIDPP_BIND"@[i]) by {}
    assert forall|i: int| 0 <= i < "UNIDPP_BIND"@.len() - 1 implies !#[trigger] bl_at("UNIDPP_BIND"@, i) by {}
    lemma_literal_name("UNIDPP_BIND"@);
    reveal_strlit("UNIDPP_CACHE_TTL_SECS");
    assert forall|i: int| 0 <= i < "UNIDPP_CACHE_TTL_SECS"@.len() implies is_name_char(#[trigger] "UNIDPP_CACHE_TTL_SECS"@[i]) by {}
    assert forall|i: int| 0 <= i < "UNIDPP_CACHE_TTL_SECS"@.len() - 1 implies !#[trigger] bl_at("UNIDPP_CACHE_TTL_SECS"@, i) by {}
    lemma_literal_name("UNIDPP_CACHE_TTL_SECS"@);
    reveal_strlit("UNIDPP_STATE_FILE");
    assert forall|i: int| 0 <= i < "UNIDPP_STATE_FILE"@.len() implies is_name_char(#[trigger] "UNIDPP_STATE_FILE"@[i]) by {}
    assert forall|i: int| 0 <= i < "UNIDPP_STATE_FILE"@.len() - 1 implies !#[trigger] bl_at("UNIDPP_STATE_FILE"@, i) by {}
    lemma_literal_name("UNIDPP_STATE_FILE"@);
    reveal_strlit("UNIDPP_UPSTREAM");
    assert forall|i: int| 0 <= i < "UNIDPP_UPSTREAM"@.len() implies is_name_char(#[trigger] "UNIDPP_UPSTREAM"@[i]) by {}
    assert forall|i: int| 0 <= i < "UNIDPP_UPSTREAM"@.len() - 1 implies !#[trigger] bl_at("UNIDPP_UPSTREAM"@, i) by {}
    lemma_literal_name("UNIDPP_UPSTREAM"@);
    assert(resolver_env(c).contains_key("UNIDPP_BIND"@));
}

proof fn lemma_trust_names(c: TrustService)
    ensures
        all_unidpp(trust_env(c)),
        exists|k: Seq<char>| trust_env(c).contains_key(k),
{
    reveal_strlit("UNIDPP_TRUST_DEV_SEED");
    assert forall|i: int| 0 <= i < "UNIDPP_TRUST_DEV_SEED"@.len() implies is_name_char(#[trigger] "UNIDPP_TRUST_DEV_SEED"@[i]) by {}
    assert forall|i: int| 0 <= i < "UNIDPP_TRUST_DEV_SEED"@.len() - 1 implies !#[trigger] bl_at("UNIDPP_TRUST_DEV_SEED"@, i) by {}
    lemma_literal_name("UNIDPP_TRUST_DEV_SEED"@);
    reveal_strlit("UNIDPP_TRUST_NO_SEED_FIXTURES");
    assert forall|i: int| 0 <= i < "UNIDPP_TRUST_NO_SEED_FIXTURES"@.len() implies is_name_char(#[trigger] "UNIDPP_TRUST_NO_SEED_FIXTURES"@[i]) by {}
    assert forall|i: int| 0 <= i < "UNIDPP_TRUST_NO_SEED_FIXTURES"@.len() - 1 implies !#[trigger] bl_at("UNIDPP_TRUST_NO_SEED_FIXTURES"@, i) by {}
    lemma_literal_name("UNIDPP_TRUST_NO_SEED_FIXTURES"@);
    reveal_strlit("UNIDPP_TRUST_SIGN_SEED");
    assert forall|i: int| 0 <= i < "UNIDPP_TRUST_SIGN_SEED"@.len() implies is_name_char(#[trigger] "UNIDPP_TRUST_SIGN_SEED"@[i]) by {}
    assert forall|i: int| 0 <= i < "UNIDPP_TRUST_SIGN_SEED"@.len() - 1 implies !#[trigger] bl_at("UNIDPP_TRUST_SIGN_SEED"@, i) by {}
    lemma_literal_name("UNIDPP_TRUST_SIGN_SEED"@);
    reveal_strlit("UNIDPP_TRUST_SIGN_SEED_P256");
    assert forall|i: int| 0 <= i < "UNIDPP_TRUST_SIGN_SEED_P256"@.len() implies is_name_char(#[trigger] "UNIDPP_TRUST_SIGN_SEED_P256"@[i]) by {}
    assert forall|i: int| 0 <= i < "UNIDPP_TRUST_SIGN_SEED_P256"@.len() - 1 implies !#[trigger] bl_at("UNIDPP_TRUST_SIGN_SEED_P256"@, i) by {}
    lemma_literal_name("UNIDPP_TRUST_SIGN_SEED_P256"@);
    reveal_strlit("TRUST");
    assert forall|i: int| 0 <= i < "TRUST"@.len() implies is_name_char(#[trigger] "TRUST"@[i]) by {}
    assert forall|i: int| 0 <= i < "TRUST"@.len() - 1 implies !#[trigger] bl_at("TRUST"@, i) by {}
    lemma_common_unidpp(Map::empty(), "TRUST"@, c.bind@, opt_text(c.admin_token), opt_text(c.state_file));
    assert(trust_env(c).contains_key(env_key("TRUST"@, "_BIND"@)));
}

proof fn lemma_log_names(c: LogService)
    ensures
        all_unidpp(log_env(c)),
        exists|k: Seq<char>| log_env(c).contains_key(k),
{
    reveal_strlit("UNIDPP_LOG_APPEND_TOKEN");
    assert forall|i: int| 0 <= i < "UNIDPP_LOG_APPEND_TOKEN"@.len() implies is_name_char(#[trigger] "UNIDPP_LOG_APPEND_TOKEN"@[i]) by {}
    assert forall|i: int| 0 <= i < "UNIDPP_LOG_APPEND_TOKEN"@.len() - 1 implies !#[trigger] bl_at("UNIDPP_LOG_APPEND_TOKEN"@, i) by {}
    lemma_literal_name("UNIDPP_LOG_APPEND_TOKEN"@);
    reveal_strlit("UNIDPP_LOG_BIND");
    assert forall|i: int| 0 <= i < "UNIDPP_LOG_BIND"@.len() implies is_name_char(#[trigger] "UNIDPP_LOG_BIND"@[i]) by {}
    assert forall|i: int| 0 <= i < "UNIDPP_LOG_BIND"@.len() - 1 implies !#[trigger] bl_at("UNIDPP_LOG_BIND"@, i) by {}
    lemma_literal_name("UNIDPP_LOG_BIND"@);
    reveal_strlit("UNIDPP_LOG_EXTERNAL_TSA_URL");
    assert forall|i: int| 0 <= i < "UNIDPP_LOG_EXTERNAL_TSA_URL"@.len() implies is_name_char(#[trigger] "UNIDPP_LOG_EXTERNAL_TSA_URL"@[i]) by {}
    assert forall|i: int| 0 <= i < "UNIDPP_LOG_EXTERNAL_TSA_URL"@.len() - 1 implies !#[trigger] bl_at("UNIDPP_LOG_EXTERNAL_TSA_URL"@, i) by {}
    lemma_literal_name("UNIDPP_LOG_EXTERNAL_TSA_URL"@);
    reveal_strlit("UNIDPP_LOG_ID");
    assert forall|i: int| 0 <= i < "UNIDPP_LOG_ID"@.len() implies is_name_char(#[trigger] "UNIDPP_LOG_ID"@[i]) by {}
    assert forall|i: int| 0 <= i < "UNIDPP_LOG_ID"@.len() - 1 implies !#[trigger] bl_at("UNIDPP_LOG_ID"@, i) by {}
    lemma_literal_name("UNIDPP_LOG_ID"@);
    reveal_strlit("UNIDPP_LOG_SEED");
    assert forall|i: int| 0 <= i < "UNIDPP_LOG_SEED"@.len() implies is_name_char(#[trigger] "UNIDPP_LOG_SEED"@[i]) by {}
    assert forall|i: int| 0 <= i < "UNIDPP_LOG_SEED"@.len() - 1 implies !#[trigger] bl_at("UNIDPP_LOG_SEED"@, i) by {}
    lemma_literal_name("UNIDPP_LOG_SEED"@);
    reveal_strlit("UNIDPP_LOG_STATE_FILE");
    assert forall|i: int| 0 <= i < "UNIDPP_LOG_STATE_FILE"@.len() implies is_name_char(#[trigger] "UNIDPP_LOG_STATE_FILE"@[i]) by {}
    assert forall|i: int| 0 <= i < "UNIDPP_LOG_STATE_FILE"@.len() - 1 implies !#[trigger] bl_at("UNIDPP_LOG_STATE_FILE"@, i) by {}
    lemma_literal_name("UNIDPP_LOG_STATE_FILE"@);
    reveal_strlit("UNIDPP_LOG_SUITE");
    assert forall|i: int| 0 <= i < "UNIDPP_LOG_SUITE"@.len() implies is_name_char(#[trigger] "UNIDPP_LOG_SUITE"@[i]) by {}
    assert forall|i: int| 0 <= i < "UNIDPP_LOG_SUITE"@.len() - 1 implies !#[trigger] bl_at("UNIDPP_LOG_SUITE"@, i) by {}
    lemma_literal_name("UNIDPP_LOG_SUITE"@);
    assert(log_env(c).contains_key("UNIDPP_LOG_BIND"@));
}

proof fn lemma_issuer_names(c: IssuerService)
    ensures
        all_unidpp(issuer_env(c)),
        exists|k: Seq<char>| issuer_env(c).contains_key(k),
{
    reveal_strlit("UNIDPP_ISSUER_ADMIN_TOKEN");
    assert forall|i: int| 0 <= i < "UNIDPP_ISSUER_ADMIN_TOKEN"@.len() implies is_name_char(#[trigger] "UNIDPP_ISSUER_ADMIN_TOKEN"@[i]) by {}
    assert forall|i: int| 0 <= i < "UNIDPP_ISSUER_ADMIN_TOKEN"@.len() - 1 implies !#[trigger] bl_at("UNIDPP_ISSUER_ADMIN_TOKEN"@, i) by {}
    lemma_literal_name("UNIDPP_ISSUER_ADMIN_TOKEN"@);
    reveal_strlit("UNIDPP_ISSUER_BIND");
    assert forall|i: int| 0 <= i < "UNIDPP_ISSUER_BIND"@.len() implies is_name_char(#[trigger] "UNIDPP_ISSUER_BIND"@[i]) by {}
    assert forall|i: int| 0 <= i < "UNIDPP_ISSUER_BIND"@.len() - 1 implies !#[trigger] bl_at("UNIDPP_ISSUER_BIND"@, i) by {}
    lemma_literal_name("UNIDPP_ISSUER_BIND"@);
    reveal_strlit("UNIDPP_ISSUER_EVENT_SEED");
    assert forall|i: int| 0 <= i < "UNIDPP_ISSUER_EVENT_SEED"@.len() implies is_name_char(#[trigger] "UNIDPP_ISSUER_EVENT_SEED"@[i]) by {}
    assert forall|i: int| 0 <= i < "UNIDPP_ISSUER_EVENT_SEED"@.len() - 1 implies !#[trigger] bl_at("UNIDPP_ISSUER_EVENT_SEED"@, i) by {}
    lemma_literal_name("UNIDPP_ISSUER_EVENT_SEED"@);
    reveal_strlit("UNIDPP_ISSUER_MAX_AGE");
    assert forall|i: int| 0 <= i < "UNIDPP_ISSUER_MAX_AGE"@.len() implies is_name_char(#[trigger] "UNIDPP_ISSUER_MAX_AGE"@[i]) by {}
    assert forall|i: int| 0 <= i < "UNIDPP_ISSUER_MAX_AGE"@.len() - 1 implies !#[trigger] bl_at("UNIDPP_ISSUER_MAX_AGE"@, i) by {}
    lemma_literal_name("UNIDPP_ISSUER_MAX_AGE"@);
    reveal_strlit("UNIDPP_ISSUER_PACK_SEED");
    assert forall|i: int| 0 <= i < "UNIDPP_ISSUER_PACK_SEED"@.len() implies is_name_char(#[trigger] "UNIDPP_ISSUER_PACK_SEED"@[i]) by {}
    assert forall|i: int| 0 <= i < "UNIDPP_ISSUER_PACK_SEED"@.len() - 1 implies !#[trigger] bl_at("UNIDPP_ISSUER_PACK_SEED"@, i) by {}
    lemma_literal_name("UNIDPP_ISSUER_PACK_SEED"@);
    reveal_strlit("UNIDPP_ISSUER_PACK_SUITE");
    assert forall|i: int| 0 <= i < "UNIDPP_ISSUER_PACK_SUITE"@.len() implies is_name_char(#[trigger] "UNIDPP_ISSUER_PACK_SUITE"@[i]) by {}
    assert forall|i: int| 0 <= i < "UNIDPP_ISSUER_PACK_SUITE"@.len() - 1 implies !#[trigger] bl_at("UNIDPP_ISSUER_PACK_SUITE"@, i) by {}
    lemma_literal_name("UNIDPP_ISSUER_PACK_SUITE"@);
    reveal_strlit("UNIDPP_ISSUER_REGISTRY_TOKEN");
    assert forall|i: int| 0 <= i < "UNIDPP_ISSUER_REGISTRY_TOKEN"@.len() implies is_name_char(#[trigger] "UNIDPP_ISSUER_REGISTRY_TOKEN"@[i]) by {}
    assert forall|i: int| 0 <= i < "UNIDPP_ISSUER_REGISTRY_TOKEN"@.len() - 1 implies !#[trigger] bl_at("UNIDPP_ISSUER_REGISTRY_TOKEN"@, i) by {}
    lemma_literal_name("UNIDPP_ISSUER_REGISTRY_TOKEN"@);
    reveal_strlit("UNIDPP_ISSUER_REGISTRY_URL");
    assert forall|i: int| 0 <= i < "UNIDPP_ISSUER_REGISTRY_URL"@.len() implies is_name_char(#[trigger] "UNIDPP_ISSUER_REGISTRY_URL"@[i]) by {}
    assert forall|i: int| 0 <= i < "UNIDPP_ISSUER_REGISTRY_URL"@.len() - 1 implies !#[trigger] bl_at("UNIDPP_ISSUER_REGISTRY_URL"@, i) by {}
    lemma_literal_name("UNIDPP_ISSUER_REGISTRY_URL"@);
    reveal_strlit("UNIDPP_ISSUER_SEED");
    assert forall|i: int| 0 <= i < "UNIDPP_ISSUER_SEED"@.len() implies is_name_char(#[trigger] "UNIDPP_ISSUER_SEED"@[i]) by {}
    assert forall|i: int| 0 <= i < "UNIDPP_ISSUER_SEED"@.len() - 1 implies !#[trigger] bl_at("UNIDPP_ISSUER_SEED"@, i) by {}
    lemma_literal_name("UNIDPP_ISSUER_SEED"@);
    reveal_strlit("UNIDPP_ISSUER_STATE_FILE");
    assert forall|i: int| 0 <= i < "UNIDPP_ISSUER_STATE_FILE"@.len() implies is_name_char(#[trigger] "UNIDPP_ISSUER_STATE_FILE"@[i]) by {}
    assert forall|i: int| 0 <= i < "UNIDPP_ISSUER_STATE_FILE"@.len() - 1 implies !#[trigger] bl_at("UNIDPP_ISSUER_STATE_FILE"@, i) by {}
    lemma_literal_name("UNIDPP_ISSUER_STATE_FILE"@);
    assert(issuer_env(c).contains_key("UNIDPP_ISSUER_BIND"@));
}

proof fn lemma_projector_names(c: ProjectorService)
    ensures
        all_unidpp(projector_env(c)),
        exists|k: Seq<char>| projector_env(c).contains_key(k),
{
    reveal_strlit("UNIDPP_PROJECTOR_PASSPORTS_DIR");
    assert forall|i: int| 0 <= i < "UNIDPP_PROJECTOR_PASSPORTS_DIR"@.len() implies is_name_char(#[trigger] "UNIDPP_PROJECTOR_PASSPORTS_DIR"@[i]) by {}
    assert forall|i: int| 0 <= i < "UNIDPP_PROJECTOR_PASSPORTS_DIR"@.len() - 1 implies !#[trigger] bl_at("UNIDPP_PROJECTOR_PASSPORTS_DIR"@, i) by {}
    lemma_literal_name("UNIDPP_PROJECTOR_PASSPORTS_DIR"@);
    reveal_strlit("UNIDPP_PROJECTOR_PRIMMEL_DIR");
    assert forall|i: int| 0 <= i < "UNIDPP_PROJECTOR_PRIMMEL_DIR"@.len() implies is_name_char(#[trigger] "UNIDPP_PROJECTOR_PRIMMEL_DIR"@[i]) by {}
    assert forall|i: int| 0 <= i < "UNIDPP_PROJECTOR_PRIMMEL_DIR"@.len() - 1 implies !#[trigger] bl_at("UNIDPP_PROJECTOR_PRIMMEL_DIR"@, i) by {}
    lemma_literal_name("UNIDPP_PROJECTOR_PRIMMEL_DIR"@);
    reveal_strlit("UNIDPP_PROJECTOR_REGISTRY_TOKEN");
    assert forall|i: int| 0 <= i < "UNIDPP_PROJECTOR_REGISTRY_TOKEN"@.len() implies is_name_char(#[trigger] "UNIDPP_PROJECTOR_REGISTRY_TOKEN"@[i]) by {}
    assert forall|i: int| 0 <= i < "UNIDPP_PROJECTOR_REGISTRY_TOKEN"@.len() - 1 implies !#[trigger] bl_at("UNIDPP_PROJECTOR_REGISTRY_TOKEN"@, i) by {}
    lemma_literal_name("UNIDPP_PROJECTOR_REGISTRY_TOKEN"@);
    reveal_strlit("UNIDPP_PROJECTOR_ROLLUP_ATTESTER");
    assert forall|i: int| 0 <= i < "UNIDPP_PROJECTOR_ROLLUP_ATTESTER"@.len() implies is_name_char(#[trigger] "UNIDPP_PROJECTOR_ROLLUP_ATTESTER"@[i]) by {}
    assert forall|i: int| 0 <= i < "UNIDPP_PROJECTOR_ROLLUP_ATTESTER"@.len() - 1 implies !#[trigger] bl_at("UNIDPP_PROJECTOR_ROLLUP_ATTESTER"@, i) by {}
    lemma_literal_name("UNIDPP_PROJECTOR_ROLLUP_ATTESTER"@);
    reveal_strlit("UNIDPP_PROJECTOR_ROLLUP_SEED");
    assert forall|i: int| 0 <= i < "UNIDPP_PROJECTOR_ROLLUP_SEED"@.len() implies is_name_char(#[trigger] "UNIDPP_PROJECTOR_ROLLUP_SEED"@[i]) by {}
    assert forall|i: int| 0 <= i < "UNIDPP_PROJECTOR_ROLLUP_SEED"@.len() - 1 implies !#[trigger] bl_at("UNIDPP_PROJECTOR_ROLLUP_SEED"@, i) by {}
    lemma_literal_name("UNIDPP_PROJECTOR_ROLLUP_SEED"@);
    reveal_strlit("UNIDPP_REGISTRY_URL");
    assert forall|i: int| 0 <= i < "UNIDPP_REGISTRY_URL"@.len() implies is_name_char(#[trigger] "UNIDPP_REGISTRY_URL"@[i]) by {}
    assert forall|i: int| 0 <= i < "UNIDPP_REGISTRY_URL"@.len() - 1 implies !#[trigger] bl_at("UNIDPP_REGISTRY_URL"@, i) by {}
    lemma_literal_name("UNIDPP_REGISTRY_URL"@);
    reveal_strlit("PROJECTOR");
    assert forall|i: int| 0 <= i < "PROJECTOR"@.len() implies is_name_char(#[trigger] "PROJECTOR"@[i]) by {}
    assert forall|i: int| 0 <= i < "PROJECTOR"@.len() - 1 implies !#[trigger] bl_at("PROJECTOR"@, i) by {}
    lemma_common_unidpp(Map::empty(), "PROJECTOR"@, c.bind@, opt_text(c.admin_token), opt_text(c.state_file));
    assert(projector_env(c).contains_key(env_key("PROJECTOR"@, "_BIND"@)));
}

proof fn lemma_gateway_names(c: GatewayService)
    ensures
        all_unidpp(gateway_env(c)),
        exists|k: Seq<char>| gateway_env(c).contains_key(k),
{
    reveal_strlit("UNIDPP_GATEWAY_ADMIN_TOKEN");
    assert forall|i: int| 0 <= i < "UNIDPP_GATEWAY_ADMIN_TOKEN"@.len() implies is_name_char(#[trigger] "UNIDPP_GATEWAY_ADMIN_TOKEN"@[i]) by {}
    assert forall|i: int| 0 <= i < "UNIDPP_GATEWAY_ADMIN_TOKEN"@.len() - 1 implies !#[trigger] bl_at("UNIDPP_GATEWAY_ADMIN_TOKEN"@, i) by {}
    lemma_literal_name("UNIDPP_GATEWAY_ADMIN_TOKEN"@);
    reveal_strlit("UNIDPP_GATEWAY_BIND");
    assert forall|i: int| 0 <= i < "UNIDPP_GATEWAY_BIND"@.len() implies is_name_char(#[trigger] "UNIDPP_GATEWAY_BIND"@[i]) by {}
    assert forall|i: int| 0 <= i < "UNIDPP_GATEWAY_BIND"@.len() - 1 implies !#[trigger] bl_at("UNIDPP_GATEWAY_BIND"@, i) by {}
    lemma_literal_name("UNIDPP_GATEWAY_BIND"@);
    reveal_strlit("UNIDPP_GATEWAY_FEEDBACK_JOURNAL");
    assert forall|i: int| 0 <= i < "UNIDPP_GATEWAY_FEEDBACK_JOURNAL"@.len() implies is_name_char(#[trigger] "UNIDPP_GATEWAY_FEEDBACK_JOURNAL"@[i]) by {}
    assert forall|i: int| 0 <= i < "UNIDPP_GATEWAY_FEEDBACK_JOURNAL"@.len() - 1 implies !#[trigger] bl_at("UNIDPP_GATEWAY_FEEDBACK_JOURNAL"@, i) by {}
    lemma_literal_name("UNIDPP_GATEWAY_FEEDBACK_JOURNAL"@);
    reveal_strlit("UNIDPP_GATEWAY_FEEDBACK_RATE");
    assert forall|i: int| 0 <= i < "UNIDPP_GATEWAY_FEEDBACK_RATE"@.len() implies is_name_char(#[trigger] "UNIDPP_GATEWAY_FEEDBACK_RATE"@[i]) by {}
    assert forall|i: int| 0 <= i < "UNIDPP_GATEWAY_FEEDBACK_RATE"@.len() - 1 implies !#[trigger] bl_at("UNIDPP_GATEWAY_FEEDBACK_RATE"@, i) by {}
    lemma_literal_name("UNIDPP_GATEWAY_FEEDBACK_RATE"@);
    reveal_strlit("UNIDPP_GATEWAY_SCAN_LIMIT_PER_MIN");
    assert forall|i: int| 0 <= i < "UNIDPP_GATEWAY_SCAN_LIMIT_PER_MIN"@.len() implies is_name_char(#[trigger] "UNIDPP_GATEWAY_SCAN_LIMIT_PER_MIN"@[i]) by {}
    assert forall|i: int| 0 <= i < "UNIDPP_GATEWAY_SCAN_LIMIT_PER_MIN"@.len() - 1 implies !#[trigger] bl_at("UNIDPP_GATEWAY_SCAN_LIMIT_PER_MIN"@, i) by {}
    lemma_literal_name("UNIDPP_GATEWAY_SCAN_LIMIT_PER_MIN"@);
    reveal_strlit("UNIDPP_GATEWAY_SCAN_TTL_SECS");
    assert forall|i: int| 0 <= i < "UNIDPP_GATEWAY_SCAN_TTL_SECS"@.len() implies is_name_char(#[trigger] "UNIDPP_GATEWAY_SCAN_TTL_SECS"@[i]) by {}
    assert forall|i: int| 0 <= i < "UNIDPP_GATEWAY_SCAN_TTL_SECS"@.len() - 1 implies !#[trigger] bl_at("UNIDPP_GATEWAY_SCAN_TTL_SECS"@, i) by {}
    lemma_literal_name("UNIDPP_GATEWAY_SCAN_TTL_SECS"@);
    reveal_strlit("UNIDPP_GATEWAY_TIMEOUT_MS");
    assert forall|i: int| 0 <= i < "UNIDPP_GATEWAY_TIMEOUT_MS"@.len() implies is_name_char(#[trigger] "UNIDPP_GATEWAY_TIMEOUT_MS"@[i]) by {}
    assert forall|i: int| 0 <= i < "UNIDPP_GATEWAY_TIMEOUT_MS"@.len() - 1 implies !#[trigger] bl_at("UNIDPP_GATEWAY_TIMEOUT_MS"@, i) by {}
    lemma_literal_name("UNIDPP_GATEWAY_TIMEOUT_MS"@);
    reveal_strlit("UNIDPP_ISSUER_URL");
    assert forall|i: int| 0 <= i < "UNIDPP_ISSUER_URL"@.len() implies is_name_char(#[trigger] "UNIDPP_ISSUER_URL"@[i]) by {}
    assert forall|i: int| 0 <= i < "UNIDPP_ISSUER_URL"@.len() - 1 implies !#[trigger] bl_at("UNIDPP_ISSUER_URL"@, i) by {}
    lemma_literal_name("UNIDPP_ISSUER_URL"@);
    assert(gateway_env(c).contains_key("UNIDPP_GATEWAY_BIND"@));
}

proof fn lemma_archive_names(c: ArchiveService)
    ensures
        all_unidpp(archive_env(c)),
        exists|k: Seq<char>| archive_env(c).contains_key(k),
{
    reveal_strlit("UNIDPP_ARCHIVE_DEV_SEED");
    assert forall|i: int| 0 <= i < "UNIDPP_ARCHIVE_DEV_SEED"@.len() implies is_name_char(#[trigger] "UNIDPP_ARCHIVE_DEV_SEED"@[i]) by {}
    assert forall|i: int| 0 <= i < "UNIDPP_ARCHIVE_DEV_SEED"@.len() - 1 implies !#[trigger] bl_at("UNIDPP_ARCHIVE_DEV_SEED"@, i) by {}
    lemma_literal_name("UNIDPP_ARCHIVE_DEV_SEED"@);
    reveal_strlit("UNIDPP_ARCHIVE_LOG_TIMEOUT_MS");
    assert forall|i: int| 0 <= i < "UNIDPP_ARCHIVE_LOG_TIMEOUT_MS"@.len() implies is_name_char(#[trigger] "UNIDPP_ARCHIVE_LOG_TIMEOUT_MS"@[i]) by {}
    assert forall|i: int| 0 <= i < "UNIDPP_ARCHIVE_LOG_TIMEOUT_MS"@.len() - 1 implies !#[trigger] bl_at("UNIDPP_ARCHIVE_LOG_TIMEOUT_MS"@, i) by {}
    lemma_literal_name("UNIDPP_ARCHIVE_LOG_TIMEOUT_MS"@);
    reveal_strlit("UNIDPP_ARCHIVE_LOG_TOKEN");
    assert forall|i: int| 0 <= i < "UNIDPP_ARCHIVE_LOG_TOKEN"@.len() implies is_name_char(#[trigger] "UNIDPP_ARCHIVE_LOG_TOKEN"@[i]) by {}
    assert forall|i: int| 0 <= i < "UNIDPP_ARCHIVE_LOG_TOKEN"@.len() - 1 implies !#[trigger] bl_at("UNIDPP_ARCHIVE_LOG_TOKEN"@, i) by {}
    lemma_literal_name("UNIDPP_ARCHIVE_LOG_TOKEN"@);
    reveal_strlit("UNIDPP_ARCHIVE_SIGN_SEED");
    assert forall|i: int| 0 <= i < "UNIDPP_ARCHIVE_SIGN_SEED"@.len() implies is_name_char(#[trigger] "UNIDPP_ARCHIVE_SIGN_SEED"@[i]) by {}
    assert forall|i: int| 0 <= i < "UNIDPP_ARCHIVE_SIGN_SEED"@.len() - 1 implies !#[trigger] bl_at("UNIDPP_ARCHIVE_SIGN_SEED"@, i) by {}
    lemma_literal_name("UNIDPP_ARCHIVE_SIGN_SEED"@);
    reveal_strlit("UNIDPP_ARCHIVE_SNAPSHOT_DIR");
    assert forall|i: int| 0 <= i < "UNIDPP_ARCHIVE_SNAPSHOT_DIR"@.len() implies is_name_char(#[trigger] "UNIDPP_ARCHIVE_SNAPSHOT_DIR"@[i]) by {}
    assert forall|i: int| 0 <= i < "UNIDPP_ARCHIVE_SNAPSHOT_DIR"@.len() - 1 implies !#[trigger] bl_at("UNIDPP_ARCHIVE_SNAPSHOT_DIR"@, i) by {}
    lemma_literal_name("UNIDPP_ARCHIVE_SNAPSHOT_DIR"@);
    reveal_strlit("UNIDPP_LOG_URL");
    assert forall|i: int| 0 <= i < "UNIDPP_LOG_URL"@.len() implies is_name_char(#[trigger] "UNIDPP_LOG_URL"@[i]) by {}
    assert forall|i: int| 0 <= i < "UNIDPP_LOG_URL"@.len() - 1 implies !#[trigger] bl_at("UNIDPP_LOG_URL"@, i) by {}
    lemma_literal_name("UNIDPP_LOG_URL"@);
    reveal_strlit("ARCHIVE");
    assert forall|i: int| 0 <= i < "ARCHIVE"@.len() implies is_name_char(#[trigger] "ARCHIVE"@[i]) by {}
    assert forall|i: int| 0 <= i < "ARCHIVE"@.len() - 1 implies !#[trigger] bl_at("ARCHIVE"@, i) by {}
    lemma_common_unidpp(Map::empty(), "ARCHIVE"@, c.bind@, opt_text(c.admin_token), opt_text(c.state_file));
    assert(archive_env(c).contains_key(env_key("ARCHIVE"@, "_BIND"@)));
}

proof fn lemma_console_names(c: ConsoleService)
    ensures
        all_unidpp(console_env(c)),
        exists|k: Seq<char>| console_env(c).contains_key(k),
{
    reveal_strlit("UNIDPP_CONSOLE_MANIFEST");
    assert forall|i: int| 0 <= i < "UNIDPP_CONSOLE_MANIFEST"@.len() implies is_name_char(#[trigger] "UNIDPP_CONSOLE_MANIFEST"@[i]) by {}
    assert forall|i: int| 0 <= i < "UNIDPP_CONSOLE_MANIFEST"@.len() - 1 implies !#[trigger] bl_at("UNIDPP_CONSOLE_MANIFEST"@, i) by {}
    lemma_literal_name("UNIDPP_CONSOLE_MANIFEST"@);
    reveal_strlit("CONSOLE");
    assert forall|i: int| 0 <= i < "CONSOLE"@.len() implies is_name_char(#[trigger] "CONSOLE"@[i]) by {}
    assert forall|i: int| 0 <= i < "CONSOLE"@.len() - 1 implies !#[trigger] bl_at("CONSOLE"@, i) by {}
    lemma_common_unidpp(Map::empty(), "CONSOLE"@, c.bind@, opt_text(c.admin_token), opt_text(c.state_file));
    assert(console_env(c).contains_key(env_key("CONSOLE"@, "_BIND"@)));
}

proof fn lemma_hub_names(c: HubService)
    ensures
        all_unidpp(hub_env(c)),
        exists|k: Seq<char>| hub_env(c).contains_key(k),
{
    reveal_strlit("UNIDPP_HUB_ADMIN_TOKEN");
    assert forall|i: int| 0 <= i < "UNIDPP_HUB_ADMIN_TOKEN"@.len() implies is_name_char(#[trigger] "UNIDPP_HUB_ADMIN_TOKEN"@[i]) by {}
    assert forall|i: int| 0 <= i < "UNIDPP_HUB_ADMIN_TOKEN"@.len() - 1 implies !#[trigger] bl_at("UNIDPP_HUB_ADMIN_TOKEN"@, i) by {}
    lemma_literal_name("UNIDPP_HUB_ADMIN_TOKEN"@);
    reveal_strlit("UNIDPP_HUB_BIND");
    assert forall|i: int| 0 <= i < "UNIDPP_HUB_BIND"@.len() implies is_name_char(#[trigger] "UNIDPP_HUB_BIND"@[i]) by {}
    assert forall|i: int| 0 <= i < "UNIDPP_HUB_BIND"@.len() - 1 implies !#[trigger] bl_at("UNIDPP_HUB_BIND"@, i) by {}
    lemma_literal_name("UNIDPP_HUB_BIND"@);
    reveal_strlit("UNIDPP_HUB_ID");
    assert forall|i: int| 0 <= i < "UNIDPP_HUB_ID"@.len() implies is_name_char(#[trigger] "UNIDPP_HUB_ID"@[i]) by {}
    assert forall|i: int| 0 <= i < "UNIDPP_HUB_ID"@.len() - 1 implies !#[trigger] bl_at("UNIDPP_HUB_ID"@, i) by {}
    lemma_literal_name("UNIDPP_HUB_ID"@);
    reveal_strlit("UNIDPP_HUB_SEED");
    assert forall|i: int| 0 <= i < "UNIDPP_HUB_SEED"@.len() implies is_name_char(#[trigger] "UNIDPP_HUB_SEED"@[i]) by {}
    assert forall|i: int| 0 <= i < "UNIDPP_HUB_SEED"@.len() - 1 implies !#[trigger] bl_at("UNIDPP_HUB_SEED"@, i) by {}
    lemma_literal_name("UNIDPP_HUB_SEED"@);
    assert(hub_env(c).contains_key("UNIDPP_HUB_BIND"@));
}

/// Every variable `render_env` emits is an `UNIDPP_` name made of `A`-`Z`,
/// `0`-`9` and `_` only (so no name holds `=`), with no `B` directly before
/// an `L`, and a rendered block holds at least one variable.
pub proof fn lemma_rendered_names_are_unidpp(s: Services, name: Seq<char>)
    ensures
        service_env(s, name) matches Some(m) ==> all_unidpp(m) && exists|k: Seq<char>| m.contains_key(k),
{
    lemma_service_names_distinct();
    if name == "registry"@ {
        if let Some(c) = s.registry {
            lemma_registry_names(c);
            let k = choose|k: Seq<char>| registry_env(c).contains_key(k);
            assert(service_env(s, name) == Some(registry_env(c)));
            assert(service_env(s, name)->0.contains_key(k));
        }
    }
    if name == "resolver"@ {
        if let Some(c) = s.resolver {
            lemma_resolver_names(c);
            let k = choose|k: Seq<char>| resolver_env(c).contains_key(k);
            assert(service_env(s, name) == Some(resolver_env(c)));
            assert(service_env(s, name)->0.contains_key(k));
        }
    }
    if name == "trust"@ {
        if let Some(c) = s.trust {
            lemma_trust_names(c);
            let k = choose|k: Seq<char>| trust_env(c).contains_key(k);
            assert(service_env(s, name) == Some(trust_env(c)));
            assert(service_env(s, name)->0.contains_key(k));
        }
    }
    if name == "log"@ {
        if let Some(c) = s.log {
            lemma_log_names(c);
            let k = choose|k: Seq<char>| log_env(c).contains_key(k);
            assert(service_env(s, name) == Some(log_env(c)));
            assert(service_env(s, name)->0.contains_key(k));
        }
    }
    if name == "issuer"@ {
        if let Some(c) = s.issuer {
            lemma_issuer_names(c);
            let k = choose|k: Seq<char>| issuer_env(c).contains_key(k);
            assert(service_env(s, name) == Some(issuer_env(c)));
            assert(service_env(s, name)->0.contains_key(k));
        }
    }
    if name == "projector"@ {
        if let Some(c) = s.projector {
            lemma_projector_names(c);
            let k = choose|k: Seq<char>| projector_env(c).contains_key(k);
            assert(service_env(s, name) == Some(projector_env(c)));
            assert(service_env(s, name)->0.contains_key(k));
        }
    }
    if name == "gateway"@ {
        if let Some(c) = s.gateway {
            lemma_gateway_names(c);
            let k = choose|k: Seq<char>| gateway_env(c).contains_key(k);
            assert(service_env(s, name) == Some(gateway_env(c)));
            assert(service_env(s, name)->0.contains_key(k));
        }
    }
    if name == "archive"@ {
        if let Some(c) = s.archive {
            lemma_archive_names(c);
            let k = choose|k: Seq<char>| archive_env(c).contains_key(k);
            assert(service_env(s, name) == Some(archive_env(c)));
            assert(service_env(s, name)->0.contains_key(k));
        }
    }
    if name == "console"@ {
        if let Some(c) = s.console {
            lemma_console_names(c);
            let k = choose|k: Seq<char>| console_env(c).contains_key(k);
            assert(service_env(s, name) == Some(console_env(c)));
            assert(service_env(s, name)->0.contains_key(k));
        }
    }
    if name == "hub"@ {
        if let Some(c) = s.hub {
            lemma_hub_names(c);
            let k = choose|k: Seq<char>| hub_env(c).contains_key(k);
            assert(service_env(s, name) == Some(hub_env(c)));
            assert(service_env(s, name)->0.contains_key(k));
        }
    }
}

/// A name with no `B` directly before an `L` cannot hold `PUBLIC_URL`.
proof fn lemma_no_bl_excludes_public_url(k: Seq<char>)
    requires
        no_bl(k),
    ensures
        !holds_text(k, "PUBLIC_URL"@),
{
    reveal_strlit("PUBLIC_URL");
    let t = "PUBLIC_URL"@;
    if holds_text(k, t) {
        let i = choose|i: int| 0 <= i && i + t.len() <= k.len() && #[trigger] k.subrange(i, i + t.len()) == t;
        assert(k[i + 2] == k.subrange(i, i + t.len())[2]);
        assert(k[i + 3] == k.subrange(i, i + t.len())[3]);
        assert(bl_at(k, i + 2));
    }
}

/// No variable `render_env` emits has `PUBLIC_URL` in its name: a public
/// URL is addressed per service and never reaches a service's environment.
pub proof fn lemma_no_rendered_name_holds_public_url(s: Services, name: Seq<char>, k: Seq<char>)
    requires
        service_env(s, name) matches Some(m) && m.contains_key(k),
    ensures
        !holds_text(k, "PUBLIC_URL"@),
{
    lemma_rendered_names_are_unidpp(s, name);
    lemma_no_bl_excludes_public_url(k);
}

} // verus!

verus! {

proof fn lemma_log_admin_token(c: LogService)
    ensures
        c.admin_token matches Some(v) ==> log_env(c).contains_key("UNIDPP_LOG_APPEND_TOKEN"@) && log_env(c)["UNIDPP_LOG_APPEND_TOKEN"@] == v@,
{
    reveal_strlit("UNIDPP_LOG_APPEND_TOKEN");
    assert("UNIDPP_LOG_APPEND_TOKEN"@.len() == 23);
    reveal_strlit("UNIDPP_LOG_STATE_FILE");
    assert("UNIDPP_LOG_STATE_FILE"@.len() == 21);
    reveal_strlit("UNIDPP_LOG_EXTERNAL_TSA_URL");
    assert("UNIDPP_LOG_EXTERNAL_TSA_URL"@.len() == 27);
    reveal_strlit("UNIDPP_LOG_SUITE");
    assert("UNIDPP_LOG_SUITE"@.len() == 16);
    reveal_strlit("UNIDPP_LOG_SEED");
    assert("UNIDPP_LOG_SEED"@.len() == 15);
}

proof fn lemma_log_admin_token_block(s: Services)
    ensures
        s.log is Some ==> service_env(s, "log"@) == Some(log_env(s.log->0)),
{
    lemma_service_names_distinct();
    if let Some(c) = s.log {
        assert(service_env(s, "log"@) == Some(log_env(c)));
    }
}

/// The log's admin token is rendered as `UNIDPP_LOG_APPEND_TOKEN`, with its value unchanged (the name the service reads, though it
/// is not under the service's own prefix).
pub proof fn lemma_log_admin_token_variable(s: Services)
    ensures
        s.log matches Some(c) ==> c.admin_token matches Some(v) ==> service_env(s, "log"@) matches Some(m)
            && m.contains_key("UNIDPP_LOG_APPEND_TOKEN"@) && m["UNIDPP_LOG_APPEND_TOKEN"@] == v@,
{
    lemma_log_admin_token_block(s);
    if let Some(c) = s.log {
        lemma_log_admin_token(c);
    }
}

proof fn lemma_projector_registry_url(c: ProjectorService)
    ensures
        c.registry_url matches Some(v) ==> projector_env(c).contains_key("UNIDPP_REGISTRY_URL"@) && projector_env(c)["UNIDPP_REGISTRY_URL"@] == v@,
{
    reveal_strlit("UNIDPP_REGISTRY_URL");
    assert("UNIDPP_REGISTRY_URL"@.len() == 19);
    reveal_strlit("UNIDPP_PROJECTOR_REGISTRY_TOKEN");
    assert("UNIDPP_PROJECTOR_REGISTRY_TOKEN"@.len() == 31);
    reveal_strlit("UNIDPP_PROJECTOR_PASSPORTS_DIR");
    assert("UNIDPP_PROJECTOR_PASSPORTS_DIR"@.len() == 30);
    reveal_strlit("UNIDPP_PROJECTOR_PRIMMEL_DIR");
    assert("UNIDPP_PROJECTOR_PRIMMEL_DIR"@.len() == 28);
    reveal_strlit("UNIDPP_PROJECTOR_ROLLUP_SEED");
    assert("UNIDPP_PROJECTOR_ROLLUP_SEED"@.len() == 28);
    reveal_strlit("UNIDPP_PROJECTOR_ROLLUP_ATTESTER");
    assert("UNIDPP_PROJECTOR_ROLLUP_ATTESTER"@.len() == 32);
}

proof fn lemma_projector_registry_url_block(s: Services)
    ensures
        s.projector is Some ==> service_env(s, "projector"@) == Some(projector_env(s.projector->0)),
{
    lemma_service_names_distinct();
    if let Some(c) = s.projector {
        assert(service_env(s, "projector"@) == Some(projector_env(c)));
    }
}

/// The projector's registry URL is rendered as `UNIDPP_REGISTRY_URL`, with its value unchanged (the name the service reads, though it
/// is not under the service's own prefix).
pub proof fn lemma_projector_registry_url_variable(s: Services)
    ensures
        s.projector matches Some(c) ==> c.registry_url matches Some(v) ==> service_env(s, "projector"@) matches Some(m)
            && m.contains_key("UNIDPP_REGISTRY_URL"@) && m["UNIDPP_REGISTRY_URL"@] == v@,
{
    lemma_projector_registry_url_block(s);
    if let Some(c) = s.projector {
        lemma_projector_registry_url(c);
    }
}

proof fn lemma_archive_log_url(c: ArchiveService)
    ensures
        c.log_url matches Some(v) ==> archive_env(c).contains_key("UNIDPP_LOG_URL"@) && archive_env(c)["UNIDPP_LOG_URL"@] == v@,
{
    reveal_strlit("UNIDPP_LOG_URL");
    assert("UNIDPP_LOG_URL"@.len() == 14);
    reveal_strlit("UNIDPP_ARCHIVE_LOG_TOKEN");
    assert("UNIDPP_ARCHIVE_LOG_TOKEN"@.len() == 24);
    reveal_strlit("UNIDPP_ARCHIVE_LOG_TIMEOUT_MS");
    assert("UNIDPP_ARCHIVE_LOG_TIMEOUT_MS"@.len() == 29);
}

proof fn lemma_archive_log_url_block(s: Services)
    ensures
        s.archive is Some ==> service_env(s, "archive"@) == Some(archive_env(s.archive->0)),
{
    lemma_service_names_distinct();
    if let Some(c) = s.archive {
        assert(service_env(s, "archive"@) == Some(archive_env(c)));
    }
}

/// The archive's log URL is rendered as `UNIDPP_LOG_URL`, with its value unchanged (the name the service reads, though it
/// is not under the service's own prefix).
pub proof fn lemma_archive_log_url_variable(s: Services)
    ensures
        s.archive matches Some(c) ==> c.log_url matches Some(v) ==> service_env(s, "archive"@) matches Some(m)
            && m.contains_key("UNIDPP_LOG_URL"@) && m["UNIDPP_LOG_URL"@] == v@,
{
    lemma_archive_log_url_block(s);
    if let Some(c) = s.archive {
        lemma_archive_log_url(c);
    }
}

proof fn lemma_gateway_issuer_url(c: GatewayService)
    ensures
        c.issuer_url matches Some(v) ==> gateway_env(c).contains_key("UNIDPP_ISSUER_URL"@) && gateway_env(c)["UNIDPP_ISSUER_URL"@] == v@,
{
    reveal_strlit("UNIDPP_ISSUER_URL");
    assert("UNIDPP_ISSUER_URL"@.len() == 17);
    reveal_strlit("UNIDPP_GATEWAY_FEEDBACK_JOURNAL");
    assert("UNIDPP_GATEWAY_FEEDBACK_JOURNAL"@.len() == 31);
    reveal_strlit("UNIDPP_GATEWAY_FEEDBACK_RATE");
    assert("UNIDPP_GATEWAY_FEEDBACK_RATE"@.len() == 28);
    reveal_strlit("UNIDPP_GATEWAY_SCAN_TTL_SECS");
    assert("UNIDPP_GATEWAY_SCAN_TTL_SECS"@.len() == 28);
    reveal_strlit("UNIDPP_GATEWAY_SCAN_LIMIT_PER_MIN");
    assert("UNIDPP_GATEWAY_SCAN_LIMIT_PER_MIN"@.len() == 33);
    reveal_strlit("UNIDPP_GATEWAY_TIMEOUT_MS");
    assert("UNIDPP_GATEWAY_TIMEOUT_MS"@.len() == 25);
}

proof fn lemma_gateway_issuer_url_block(s: Services)
    ensures
        s.gateway is Some ==> service_env(s, "gateway"@) == Some(gateway_env(s.gateway->0)),
{
    lemma_service_names_distinct();
    if let Some(c) = s.gateway {
        assert(service_env(s, "gateway"@) == Some(gateway_env(c)));
    }
}

/// The gateway's issuer URL is rendered as `UNIDPP_ISSUER_URL`, with its value unchanged (the name the service reads, though it
/// is not under the service's own prefix).
pub proof fn lemma_gateway_issuer_url_variable(s: Services)
    ensures
        s.gateway matches Some(c) ==> c.issuer_url matches Some(v) ==> service_env(s, "gateway"@) matches Some(m)
            && m.contains_key("UNIDPP_ISSUER_URL"@) && m["UNIDPP_ISSUER_URL"@] == v@,
{
    lemma_gateway_issuer_url_block(s);
    if let Some(c) = s.gateway {
        lemma_gateway_issuer_url(c);
    }
}

/// `s` with every service's public URL removed.
pub open spec fn without_public_urls(s: Services) -> Services {
    Services {
        registry: match s.registry { Some(c) => Some(RegistryService { public_url: None, ..c }), None => None },
        trust: match s.trust { Some(c) => Some(TrustService { public_url: None, ..c }), None => None },
        log: match s.log { Some(c) => Some(LogService { public_url: None, ..c }), None => None },
        issuer: match s.issuer { Some(c) => Some(IssuerService { public_url: None, ..c }), None => None },
        projector: match s.projector { Some(c) => Some(ProjectorService { public_url: None, ..c }), None => None },
        gateway: match s.gateway { Some(c) => Some(GatewayService { public_url: None, ..c }), None => None },
        archive: match s.archive { Some(c) => Some(ArchiveService { public_url: None, ..c }), None => None },
        console: match s.console { Some(c) => Some(ConsoleService { public_url: None, ..c }), None => None },
        resolver: match s.resolver { Some(c) => Some(ResolverService { public_url: None, ..c }), None => None },
        hub: match s.hub { Some(c) => Some(HubService { public_url: None, ..c }), None => None },
    }
}

/// A public URL is never rendered: a service's environment block is the
/// same whatever public URLs the manifest declares.
pub proof fn lemma_public_urls_are_not_rendered(s: Services, name: Seq<char>)
    ensures
        service_env(s, name) == service_env(without_public_urls(s), name),
{
}

} // verus!

verus! {

// ---------------------------------------------------------------------------
// What each service's block binds, variable by variable
// ---------------------------------------------------------------------------

/// `m` holds the variable `k` exactly when `v` is `Some`, and then with that
/// value.
pub open spec fn binds(m: Map<Seq<char>, Seq<char>>, k: Seq<char>, v: Option<Seq<char>>) -> bool {
    &&& (m.contains_key(k) <==> v is Some)
    &&& (v matches Some(x) ==> m[k] == x)
}

/// The registry service reads exactly these variables, each bound to the value of its own
/// field (an absent optional field leaves its variable out).
pub proof fn lemma_registry_variables(s: Services, c: RegistryService)
    requires
        s.registry == Some(c),
    ensures
        service_env(s, "registry"@) is Some,
        binds(service_env(s, "registry"@)->0, "UNIDPP_REGISTRY_BIND"@, Some(c.bind@)),
        binds(service_env(s, "registry"@)->0, "UNIDPP_REGISTRY_ADMIN_TOKEN"@, opt_text(c.admin_token)),
        binds(service_env(s, "registry"@)->0, "UNIDPP_REGISTRY_STATE_FILE"@, opt_text(c.state_file)),
        binds(service_env(s, "registry"@)->0, "UNIDPP_REGISTRY_SEED_ON_DEMAND"@, opt_bool(c.seed_on_demand)),
        binds(service_env(s, "registry"@)->0, "UNIDPP_REGISTRY_SEED_EXPRESS"@, opt_bool(c.seed_express)),
        forall|k: Seq<char>| #[trigger] service_env(s, "registry"@)->0.contains_key(k) ==> (k == "UNIDPP_REGISTRY_BIND"@ || k == "UNIDPP_REGISTRY_ADMIN_TOKEN"@ || k == "UNIDPP_REGISTRY_STATE_FILE"@ || k == "UNIDPP_REGISTRY_SEED_ON_DEMAND"@ || k == "UNIDPP_REGISTRY_SEED_EXPRESS"@),
{
    lemma_service_names_distinct();
    reveal_strlit("registry");
    reveal_strlit("UNIDPP_REGISTRY_BIND");
    reveal_strlit("UNIDPP_");
    reveal_strlit("REGISTRY");
    reveal_strlit("_BIND");
    assert(env_key("REGISTRY"@, "_BIND"@) =~= "UNIDPP_REGISTRY_BIND"@);
    reveal_strlit("UNIDPP_REGISTRY_ADMIN_TOKEN");
    reveal_strlit("_ADMIN_TOKEN");
    assert(env_key("REGISTRY"@, "_ADMIN_TOKEN"@) =~= "UNIDPP_REGISTRY_ADMIN_TOKEN"@);
    reveal_strlit("UNIDPP_REGISTRY_STATE_FILE");
    reveal_strlit("_STATE_FILE");
    assert(env_key("REGISTRY"@, "_STATE_FILE"@) =~= "UNIDPP_REGISTRY_STATE_FILE"@);
    reveal_strlit("UNIDPP_REGISTRY_SEED_ON_DEMAND");
    reveal_strlit("UNIDPP_REGISTRY_SEED_EXPRESS");
    assert("UNIDPP_REGISTRY_BIND"@.len() == 20);
    assert("UNIDPP_REGISTRY_ADMIN_TOKEN"@.len() == 27);
    assert("UNIDPP_REGISTRY_STATE_FILE"@.len() == 26);
    assert("UNIDPP_REGISTRY_SEED_ON_DEMAND"@.len() == 30);
    assert("UNIDPP_REGISTRY_SEED_EXPRESS"@.len() == 28);
    assert(service_env(s, "registry"@) == Some(registry_env(c)));
}

/// The resolver service reads exactly these variables, each bound to the value of its own
/// field (an absent optional field leaves its variable out).
pub proof fn lemma_resolver_variables(s: Services, c: ResolverService)
    requires
        s.resolver == Some(c),
    ensures
        service_env(s, "resolver"@) is Some,
        binds(service_env(s, "resolver"@)->0, "UNIDPP_BIND"@, Some(c.bind@)),
        binds(service_env(s, "resolver"@)->0, "UNIDPP_ADMIN_TOKEN"@, opt_text(c.admin_token)),
        binds(service_env(s, "resolver"@)->0, "UNIDPP_STATE_FILE"@, opt_text(c.state_file)),
        binds(service_env(s, "resolver"@)->0, "UNIDPP_UPSTREAM"@, opt_text(c.upstream)),
        binds(service_env(s, "resolver"@)->0, "UNIDPP_CACHE_TTL_SECS"@, Some(signed_decimal(c.cache_ttl_secs as int))),
        forall|k: Seq<char>| #[trigger] service_env(s, "resolver"@)->0.contains_key(k) ==> (k == "UNIDPP_BIND"@ || k == "UNIDPP_ADMIN_TOKEN"@ || k == "UNIDPP_STATE_FILE"@ || k == "UNIDPP_UPSTREAM"@ || k == "UNIDPP_CACHE_TTL_SECS"@),
{
    lemma_service_names_distinct();
    reveal_strlit("resolver");
    reveal_strlit("UNIDPP_BIND");
    reveal_strlit("UNIDPP_ADMIN_TOKEN");
    reveal_strlit("UNIDPP_STATE_FILE");
    reveal_strlit("UNIDPP_UPSTREAM");
    reveal_strlit("UNIDPP_CACHE_TTL_SECS");
    assert("UNIDPP_BIND"@.len() == 11);
    assert("UNIDPP_ADMIN_TOKEN"@.len() == 18);
    assert("UNIDPP_STATE_FILE"@.len() == 17);
    assert("UNIDPP_UPSTREAM"@.len() == 15);
    assert("UNIDPP_CACHE_TTL_SECS"@.len() == 21);
    assert(service_env(s, "resolver"@) == Some(resolver_env(c)));
}

/// The trust service reads exactly these variables, each bound to the value of its own
/// field (an absent optional field leaves its variable out).
pub proof fn lemma_trust_variables(s: Services, c: TrustService)
    requires
        s.trust == Some(c),
    ensures
        service_env(s, "trust"@) is Some,
        binds(service_env(s, "trust"@)->0, "UNIDPP_TRUST_BIND"@, Some(c.bind@)),
        binds(service_env(s, "trust"@)->0, "UNIDPP_TRUST_ADMIN_TOKEN"@, opt_text(c.admin_token)),
        binds(service_env(s, "trust"@)->0, "UNIDPP_TRUST_STATE_FILE"@, opt_text(c.state_file)),
        binds(service_env(s, "trust"@)->0, "UNIDPP_TRUST_NO_SEED_FIXTURES"@, opt_bool(c.no_seed_fixtures)),
        binds(service_env(s, "trust"@)->0, "UNIDPP_TRUST_DEV_SEED"@, opt_text(c.dev_seed)),
        binds(service_env(s, "trust"@)->0, "UNIDPP_TRUST_SIGN_SEED"@, opt_text(c.sign_seed)),
        binds(service_env(s, "trust"@)->0, "UNIDPP_TRUST_SIGN_SEED_P256"@, opt_text(c.sign_seed_p256)),
        forall|k: Seq<char>| #[trigger] service_env(s, "trust"@)->0.contains_key(k) ==> (k == "UNIDPP_TRUST_BIND"@ || k == "UNIDPP_TRUST_ADMIN_TOKEN"@ || k == "UNIDPP_TRUST_STATE_FILE"@ || k == "UNIDPP_TRUST_NO_SEED_FIXTURES"@ || k == "UNIDPP_TRUST_DEV_SEED"@ || k == "UNIDPP_TRUST_SIGN_SEED"@ || k == "UNIDPP_TRUST_SIGN_SEED_P256"@),
{
    lemma_service_names_distinct();
    reveal_strlit("trust");
    reveal_strlit("UNIDPP_TRUST_BIND");
    reveal_strlit("UNIDPP_");
    reveal_strlit("TRUST");
    reveal_strlit("_BIND");
    assert(env_key("TRUST"@, "_BIND"@) =~= "UNIDPP_TRUST_BIND"@);
    reveal_strlit("UNIDPP_TRUST_ADMIN_TOKEN");
    reveal_strlit("_ADMIN_TOKEN");
    assert(env_key("TRUST"@, "_ADMIN_TOKEN"@) =~= "UNIDPP_TRUST_ADMIN_TOKEN"@);
    reveal_strlit("UNIDPP_TRUST_STATE_FILE");
    reveal_strlit("_STATE_FILE");
    assert(env_key("TRUST"@, "_STATE_FILE"@) =~= "UNIDPP_TRUST_STATE_FILE"@);
    reveal_strlit("UNIDPP_TRUST_NO_SEED_FIXTURES");
    reveal_strlit("UNIDPP_TRUST_DEV_SEED");
    reveal_strlit("UNIDPP_TRUST_SIGN_SEED");
    reveal_strlit("UNIDPP_TRUST_SIGN_SEED_P256");
    assert("UNIDPP_TRUST_BIND"@.len() == 17);
    assert("UNIDPP_TRUST_ADMIN_TOKEN"@.len() == 24);
    assert("UNIDPP_TRUST_STATE_FILE"@.len() == 23);
    assert("UNIDPP_TRUST_NO_SEED_FIXTURES"@.len() == 29);
    assert("UNIDPP_TRUST_DEV_SEED"@.len() == 21);
    assert("UNIDPP_TRUST_SIGN_SEED"@.len() == 22);
    assert("UNIDPP_TRUST_SIGN_SEED_P256"@.len() == 27);
    assert(service_env(s, "trust"@) == Some(trust_env(c)));
}

/// The log service reads exactly these variables, each bound to the value of its own
/// field (an absent optional field leaves its variable out).
pub proof fn lemma_log_variables(s: Services, c: LogService)
    requires
        s.log == Some(c),
    ensures
        service_env(s, "log"@) is Some,
        binds(service_env(s, "log"@)->0, "UNIDPP_LOG_BIND"@, Some(c.bind@)),
        binds(service_env(s, "log"@)->0, "UNIDPP_LOG_ID"@, Some(c.log_id@)),
        binds(service_env(s, "log"@)->0, "UNIDPP_LOG_APPEND_TOKEN"@, opt_text(c.admin_token)),
        binds(service_env(s, "log"@)->0, "UNIDPP_LOG_STATE_FILE"@, opt_text(c.state_file)),
        binds(service_env(s, "log"@)->0, "UNIDPP_LOG_EXTERNAL_TSA_URL"@, opt_text(c.external_tsa_url)),
        binds(service_env(s, "log"@)->0, "UNIDPP_LOG_SUITE"@, opt_text(c.suite)),
        binds(service_env(s, "log"@)->0, "UNIDPP_LOG_SEED"@, opt_text(c.seed)),
        forall|k: Seq<char>| #[trigger] service_env(s, "log"@)->0.contains_key(k) ==> (k == "UNIDPP_LOG_BIND"@ || k == "UNIDPP_LOG_ID"@ || k == "UNIDPP_LOG_APPEND_TOKEN"@ || k == "UNIDPP_LOG_STATE_FILE"@ || k == "UNIDPP_LOG_EXTERNAL_TSA_URL"@ || k == "UNIDPP_LOG_SUITE"@ || k == "UNIDPP_LOG_SEED"@),
{
    lemma_service_names_distinct();
    reveal_strlit("log");
    reveal_strlit("UNIDPP_LOG_BIND");
    reveal_strlit("UNIDPP_LOG_ID");
    reveal_strlit("UNIDPP_LOG_APPEND_TOKEN");
    reveal_strlit("UNIDPP_LOG_STATE_FILE");
    reveal_strlit("UNIDPP_LOG_EXTERNAL_TSA_URL");
    reveal_strlit("UNIDPP_LOG_SUITE");
    reveal_strlit("UNIDPP_LOG_SEED");
    assert("UNIDPP_LOG_BIND"@.len() == 15);
    assert("UNIDPP_LOG_ID"@.len() == 13);
    assert("UNIDPP_LOG_APPEND_TOKEN"@.len() == 23);
    assert("UNIDPP_LOG_STATE_FILE"@.len() == 21);
    assert("UNIDPP_LOG_EXTERNAL_TSA_URL"@.len() == 27);
    assert("UNIDPP_LOG_SUITE"@.len() == 16);
    assert("UNIDPP_LOG_SEED"@.len() == 15);
    assert("UNIDPP_LOG_BIND"@[11] == 'B' && "UNIDPP_LOG_SEED"@[11] == 'S');
    assert(service_env(s, "log"@) == Some(log_env(c)));
}

/// The issuer service reads exactly these variables, each bound to the value of its own
/// field (an absent optional field leaves its variable out).
pub proof fn lemma_issuer_variables(s: Services, c: IssuerService)
    requires
        s.issuer == Some(c),
    ensures
        service_env(s, "issuer"@) is Some,
        binds(service_env(s, "issuer"@)->0, "UNIDPP_ISSUER_BIND"@, Some(c.bind@)),
        binds(service_env(s, "issuer"@)->0, "UNIDPP_ISSUER_ADMIN_TOKEN"@, opt_text(c.admin_token)),
        binds(service_env(s, "issuer"@)->0, "UNIDPP_ISSUER_STATE_FILE"@, opt_text(c.state_file)),
        binds(service_env(s, "issuer"@)->0, "UNIDPP_ISSUER_PACK_SUITE"@, (if c.pack_suites@.len() > 0 { Some(joined(texts(c.pack_suites@), ","@)) } else { None })),
        binds(service_env(s, "issuer"@)->0, "UNIDPP_ISSUER_REGISTRY_URL"@, opt_text(c.registry_url)),
        binds(service_env(s, "issuer"@)->0, "UNIDPP_ISSUER_REGISTRY_TOKEN"@, opt_text(c.registry_token)),
        binds(service_env(s, "issuer"@)->0, "UNIDPP_ISSUER_MAX_AGE"@, opt_decimal(c.max_age)),
        binds(service_env(s, "issuer"@)->0, "UNIDPP_ISSUER_EVENT_SEED"@, opt_text(c.event_seed)),
        binds(service_env(s, "issuer"@)->0, "UNIDPP_ISSUER_PACK_SEED"@, opt_text(c.pack_seed)),
        binds(service_env(s, "issuer"@)->0, "UNIDPP_ISSUER_SEED"@, opt_text(c.seed)),
        forall|k: Seq<char>| #[trigger] service_env(s, "issuer"@)->0.contains_key(k) ==> (k == "UNIDPP_ISSUER_BIND"@ || k == "UNIDPP_ISSUER_ADMIN_TOKEN"@ || k == "UNIDPP_ISSUER_STATE_FILE"@ || k == "UNIDPP_ISSUER_PACK_SUITE"@ || k == "UNIDPP_ISSUER_REGISTRY_URL"@ || k == "UNIDPP_ISSUER_REGISTRY_TOKEN"@ || k == "UNIDPP_ISSUER_MAX_AGE"@ || k == "UNIDPP_ISSUER_EVENT_SEED"@ || k == "UNIDPP_ISSUER_PACK_SEED"@ || k == "UNIDPP_ISSUER_SEED"@),
{
    lemma_service_names_distinct();
    reveal_strlit("issuer");
    reveal_strlit("UNIDPP_ISSUER_BIND");
    reveal_strlit("UNIDPP_ISSUER_ADMIN_TOKEN");
    reveal_strlit("UNIDPP_ISSUER_STATE_FILE");
    reveal_strlit("UNIDPP_ISSUER_PACK_SUITE");
    reveal_strlit("UNIDPP_ISSUER_REGISTRY_URL");
    reveal_strlit("UNIDPP_ISSUER_REGISTRY_TOKEN");
    reveal_strlit("UNIDPP_ISSUER_MAX_AGE");
    reveal_strlit("UNIDPP_ISSUER_EVENT_SEED");
    reveal_strlit("UNIDPP_ISSUER_PACK_SEED");
    reveal_strlit("UNIDPP_ISSUER_SEED");
    assert("UNIDPP_ISSUER_BIND"@.len() == 18);
    assert("UNIDPP_ISSUER_ADMIN_TOKEN"@.len() == 25);
    assert("UNIDPP_ISSUER_STATE_FILE"@.len() == 24);
    assert("UNIDPP_ISSUER_PACK_SUITE"@.len() == 24);
    assert("UNIDPP_ISSUER_REGISTRY_URL"@.len() == 26);
    assert("UNIDPP_ISSUER_REGISTRY_TOKEN"@.len() == 28);
    assert("UNIDPP_ISSUER_MAX_AGE"@.len() == 21);
    assert("UNIDPP_ISSUER_EVENT_SEED"@.len() == 24);
    assert("UNIDPP_ISSUER_PACK_SEED"@.len() == 23);
    assert("UNIDPP_ISSUER_SEED"@.len() == 18);
    assert("UNIDPP_ISSUER_BIND"@[14] == 'B' && "UNIDPP_ISSUER_SEED"@[14] == 'S');
    assert("UNIDPP_ISSUER_STATE_FILE"@[14] == 'S' && "UNIDPP_ISSUER_PACK_SUITE"@[14] == 'P');
    assert("UNIDPP_ISSUER_STATE_FILE"@[14] == 'S' && "UNIDPP_ISSUER_EVENT_SEED"@[14] == 'E');
    assert("UNIDPP_ISSUER_PACK_SUITE"@[14] == 'P' && "UNIDPP_ISSUER_EVENT_SEED"@[14] == 'E');
    assert(service_env(s, "issuer"@) == Some(issuer_env(c)));
}

/// The projector service reads exactly these variables, each bound to the value of its own
/// field (an absent optional field leaves its variable out).
pub proof fn lemma_projector_variables(s: Services, c: ProjectorService)
    requires
        s.projector == Some(c),
    ensures
        service_env(s, "projector"@) is Some,
        binds(service_env(s, "projector"@)->0, "UNIDPP_PROJECTOR_BIND"@, Some(c.bind@)),
        binds(service_env(s, "projector"@)->0, "UNIDPP_PROJECTOR_ADMIN_TOKEN"@, opt_text(c.admin_token)),
        binds(service_env(s, "projector"@)->0, "UNIDPP_PROJECTOR_STATE_FILE"@, opt_text(c.state_file)),
        binds(service_env(s, "projector"@)->0, "UNIDPP_REGISTRY_URL"@, opt_text(c.registry_url)),
        binds(service_env(s, "projector"@)->0, "UNIDPP_PROJECTOR_REGISTRY_TOKEN"@, opt_text(c.registry_token)),
        binds(service_env(s, "projector"@)->0, "UNIDPP_PROJECTOR_PASSPORTS_DIR"@, opt_text(c.passports_dir)),
        binds(service_env(s, "projector"@)->0, "UNIDPP_PROJECTOR_PRIMMEL_DIR"@, opt_text(c.primmel_dir)),
        binds(service_env(s, "projector"@)->0, "UNIDPP_PROJECTOR_ROLLUP_SEED"@, opt_text(c.rollup_seed)),
        binds(service_env(s, "projector"@)->0, "UNIDPP_PROJECTOR_ROLLUP_ATTESTER"@, opt_text(c.rollup_attester)),
        forall|k: Seq<char>| #[trigger] service_env(s, "projector"@)->0.contains_key(k) ==> (k == "UNIDPP_PROJECTOR_BIND"@ || k == "UNIDPP_PROJECTOR_ADMIN_TOKEN"@ || k == "UNIDPP_PROJECTOR_STATE_FILE"@ || k == "UNIDPP_REGISTRY_URL"@ || k == "UNIDPP_PROJECTOR_REGISTRY_TOKEN"@ || k == "UNIDPP_PROJECTOR_PASSPORTS_DIR"@ || k == "UNIDPP_PROJECTOR_PRIMMEL_DIR"@ || k == "UNIDPP_PROJECTOR_ROLLUP_SEED"@ || k == "UNIDPP_PROJECTOR_ROLLUP_ATTESTER"@),
{
    lemma_service_names_distinct();
    reveal_strlit("projector");
    reveal_strlit("UNIDPP_PROJECTOR_BIND");
    reveal_strlit("UNIDPP_");
    reveal_strlit("PROJECTOR");
    reveal_strlit("_BIND");
    assert(env_key("PROJECTOR"@, "_BIND"@) =~= "UNIDPP_PROJECTOR_BIND"@);
    reveal_strlit("UNIDPP_PROJECTOR_ADMIN_TOKEN");
    reveal_strlit("_ADMIN_TOKEN");
    assert(env_key("PROJECTOR"@, "_ADMIN_TOKEN"@) =~= "UNIDPP_PROJECTOR_ADMIN_TOKEN"@);
    reveal_strlit("UNIDPP_PROJECTOR_STATE_FILE");
    reveal_strlit("_STATE_FILE");
    assert(env_key("PROJECTOR"@, "_STATE_FILE"@) =~= "UNIDPP_PROJECTOR_STATE_FILE"@);
    reveal_strlit("UNIDPP_REGISTRY_URL");
    reveal_strlit("UNIDPP_PROJECTOR_REGISTRY_TOKEN");
    reveal_strlit("UNIDPP_PROJECTOR_PASSPORTS_DIR");
    reveal_strlit("UNIDPP_PROJECTOR_PRIMMEL_DIR");
    reveal_strlit("UNIDPP_PROJECTOR_ROLLUP_SEED");
    reveal_strlit("UNIDPP_PROJECTOR_ROLLUP_ATTESTER");
    assert("UNIDPP_PROJECTOR_BIND"@.len() == 21);
    assert("UNIDPP_PROJECTOR_ADMIN_TOKEN"@.len() == 28);
    assert("UNIDPP_PROJECTOR_STATE_FILE"@.len() == 27);
    assert("UNIDPP_REGISTRY_URL"@.len() == 19);
    assert("UNIDPP_PROJECTOR_REGISTRY_TOKEN"@.len() == 31);
    assert("UNIDPP_PROJECTOR_PASSPORTS_DIR"@.len() == 30);
    assert("UNIDPP_PROJECTOR_PRIMMEL_DIR"@.len() == 28);
    assert("UNIDPP_PROJECTOR_ROLLUP_SEED"@.len() == 28);
    assert("UNIDPP_PROJECTOR_ROLLUP_ATTESTER"@.len() == 32);
    assert("UNIDPP_PROJECTOR_ADMIN_TOKEN"@[17] == 'A' && "UNIDPP_PROJECTOR_PRIMMEL_DIR"@[17] == 'P');
    assert("UNIDPP_PROJECTOR_ADMIN_TOKEN"@[17] == 'A' && "UNIDPP_PROJECTOR_ROLLUP_SEED"@[17] == 'R');
    assert("UNIDPP_PROJECTOR_PRIMMEL_DIR"@[17] == 'P' && "UNIDPP_PROJECTOR_ROLLUP_SEED"@[17] == 'R');
    assert(service_env(s, "projector"@) == Some(projector_env(c)));
}

/// The gateway service reads exactly these variables, each bound to the value of its own
/// field (an absent optional field leaves its variable out).
pub proof fn lemma_gateway_variables(s: Services, c: GatewayService)
    requires
        s.gateway == Some(c),
    ensures
        service_env(s, "gateway"@) is Some,
        binds(service_env(s, "gateway"@)->0, "UNIDPP_GATEWAY_BIND"@, Some(c.bind@)),
        binds(service_env(s, "gateway"@)->0, "UNIDPP_GATEWAY_ADMIN_TOKEN"@, opt_text(c.admin_token)),
        binds(service_env(s, "gateway"@)->0, "UNIDPP_ISSUER_URL"@, opt_text(c.issuer_url)),
        binds(service_env(s, "gateway"@)->0, "UNIDPP_GATEWAY_FEEDBACK_JOURNAL"@, opt_text(c.feedback.journal)),
        binds(service_env(s, "gateway"@)->0, "UNIDPP_GATEWAY_FEEDBACK_RATE"@, (if c.feedback.rate_per_minute > 0 { Some(decimal(c.feedback.rate_per_minute as nat)) } else { None })),
        binds(service_env(s, "gateway"@)->0, "UNIDPP_GATEWAY_SCAN_TTL_SECS"@, (match c.scan_policy { Some(p) => Some(decimal(p.token_ttl_secs as nat)), None => None })),
        binds(service_env(s, "gateway"@)->0, "UNIDPP_GATEWAY_SCAN_LIMIT_PER_MIN"@, (match c.scan_policy { Some(p) => Some(decimal(p.issue_limit_per_minute as nat)), None => None })),
        binds(service_env(s, "gateway"@)->0, "UNIDPP_GATEWAY_TIMEOUT_MS"@, opt_decimal(c.timeout_ms)),
        forall|k: Seq<char>| #[trigger] service_env(s, "gateway"@)->0.contains_key(k) ==> (k == "UNIDPP_GATEWAY_BIND"@ || k == "UNIDPP_GATEWAY_ADMIN_TOKEN"@ || k == "UNIDPP_ISSUER_URL"@ || k == "UNIDPP_GATEWAY_FEEDBACK_JOURNAL"@ || k == "UNIDPP_GATEWAY_FEEDBACK_RATE"@ || k == "UNIDPP_GATEWAY_SCAN_TTL_SECS"@ || k == "UNIDPP_GATEWAY_SCAN_LIMIT_PER_MIN"@ || k == "UNIDPP_GATEWAY_TIMEOUT_MS"@),
{
    lemma_service_names_distinct();
    reveal_strlit("gateway");
    reveal_strlit("UNIDPP_GATEWAY_BIND");
    reveal_strlit("UNIDPP_GATEWAY_ADMIN_TOKEN");
    reveal_strlit("UNIDPP_ISSUER_URL");
    reveal_strlit("UNIDPP_GATEWAY_FEEDBACK_JOURNAL");
    reveal_strlit("UNIDPP_GATEWAY_FEEDBACK_RATE");
    reveal_strlit("UNIDPP_GATEWAY_SCAN_TTL_SECS");
    reveal_strlit("UNIDPP_GATEWAY_SCAN_LIMIT_PER_MIN");
    reveal_strlit("UNIDPP_GATEWAY_TIMEOUT_MS");
    assert("UNIDPP_GATEWAY_BIND"@.len() == 19);
    assert("UNIDPP_GATEWAY_ADMIN_TOKEN"@.len() == 26);
    assert("UNIDPP_ISSUER_URL"@.len() == 17);
    assert("UNIDPP_GATEWAY_FEEDBACK_JOURNAL"@.len() == 31);
    assert("UNIDPP_GATEWAY_FEEDBACK_RATE"@.len() == 28);
    assert("UNIDPP_GATEWAY_SCAN_TTL_SECS"@.len() == 28);
    assert("UNIDPP_GATEWAY_SCAN_LIMIT_PER_MIN"@.len() == 33);
    assert("UNIDPP_GATEWAY_TIMEOUT_MS"@.len() == 25);
    assert("UNIDPP_GATEWAY_FEEDBACK_RATE"@[15] == 'F' && "UNIDPP_GATEWAY_SCAN_TTL_SECS"@[15] == 'S');
    assert(service_env(s, "gateway"@) == Some(gateway_env(c)));
}

/// The archive service reads exactly these variables, each bound to the value of its own
/// field (an absent optional field leaves its variable out).
pub proof fn lemma_archive_variables(s: Services, c: ArchiveService)
    requires
        s.archive == Some(c),
    ensures
        service_env(s, "archive"@) is Some,
        binds(service_env(s, "archive"@)->0, "UNIDPP_ARCHIVE_BIND"@, Some(c.bind@)),
        binds(service_env(s, "archive"@)->0, "UNIDPP_ARCHIVE_ADMIN_TOKEN"@, opt_text(c.admin_token)),
        binds(service_env(s, "archive"@)->0, "UNIDPP_ARCHIVE_STATE_FILE"@, opt_text(c.state_file)),
        binds(service_env(s, "archive"@)->0, "UNIDPP_ARCHIVE_SNAPSHOT_DIR"@, opt_text(c.snapshot_dir)),
        binds(service_env(s, "archive"@)->0, "UNIDPP_ARCHIVE_DEV_SEED"@, opt_text(c.dev_seed)),
        binds(service_env(s, "archive"@)->0, "UNIDPP_ARCHIVE_SIGN_SEED"@, opt_text(c.sign_seed)),
        binds(service_env(s, "archive"@)->0, "UNIDPP_LOG_URL"@, opt_text(c.log_url)),
        binds(service_env(s, "archive"@)->0, "UNIDPP_ARCHIVE_LOG_TOKEN"@, opt_text(c.log_token)),
        binds(service_env(s, "archive"@)->0, "UNIDPP_ARCHIVE_LOG_TIMEOUT_MS"@, opt_decimal(c.log_timeout_ms)),
        forall|k: Seq<char>| #[trigger] service_env(s, "archive"@)->0.contains_key(k) ==> (k == "UNIDPP_ARCHIVE_BIND"@ || k == "UNIDPP_ARCHIVE_ADMIN_TOKEN"@ || k == "UNIDPP_ARCHIVE_STATE_FILE"@ || k == "UNIDPP_ARCHIVE_SNAPSHOT_DIR"@ || k == "UNIDPP_ARCHIVE_DEV_SEED"@ || k == "UNIDPP_ARCHIVE_SIGN_SEED"@ || k == "UNIDPP_LOG_URL"@ || k == "UNIDPP_ARCHIVE_LOG_TOKEN"@ || k == "UNIDPP_ARCHIVE_LOG_TIMEOUT_MS"@),
{
    lemma_service_names_distinct();
    reveal_strlit("archive");
    reveal_strlit("UNIDPP_ARCHIVE_BIND");
    reveal_strlit("UNIDPP_");
    reveal_strlit("ARCHIVE");
    reveal_strlit("_BIND");
    assert(env_key("ARCHIVE"@, "_BIND"@) =~= "UNIDPP_ARCHIVE_BIND"@);
    reveal_strlit("UNIDPP_ARCHIVE_ADMIN_TOKEN");
    reveal_strlit("_ADMIN_TOKEN");
    assert(env_key("ARCHIVE"@, "_ADMIN_TOKEN"@) =~= "UNIDPP_ARCHIVE_ADMIN_TOKEN"@);
    reveal_strlit("UNIDPP_ARCHIVE_STATE_FILE");
    reveal_strlit("_STATE_FILE");
    assert(env_key("ARCHIVE"@, "_STATE_FILE"@) =~= "UNIDPP_ARCHIVE_STATE_FILE"@);
    reveal_strlit("UNIDPP_ARCHIVE_SNAPSHOT_DIR");
    reveal_strlit("UNIDPP_ARCHIVE_DEV_SEED");
    reveal_strlit("UNIDPP_ARCHIVE_SIGN_SEED");
    reveal_strlit("UNIDPP_LOG_URL");
    reveal_strlit("UNIDPP_ARCHIVE_LOG_TOKEN");
    reveal_strlit("UNIDPP_ARCHIVE_LOG_TIMEOUT_MS");
    assert("UNIDPP_ARCHIVE_BIND"@.len() == 19);
    assert("UNIDPP_ARCHIVE_ADMIN_TOKEN"@.len() == 26);
    assert("UNIDPP_ARCHIVE_STATE_FILE"@.len() == 25);
    assert("UNIDPP_ARCHIVE_SNAPSHOT_DIR"@.len() == 27);
    assert("UNIDPP_ARCHIVE_DEV_SEED"@.len() == 23);
    assert("UNIDPP_ARCHIVE_SIGN_SEED"@.len() == 24);
    assert("UNIDPP_LOG_URL"@.len() == 14);
    assert("UNIDPP_ARCHIVE_LOG_TOKEN"@.len() == 24);
    assert("UNIDPP_ARCHIVE_LOG_TIMEOUT_MS"@.len() == 29);
    assert("UNIDPP_ARCHIVE_SIGN_SEED"@[15] == 'S' && "UNIDPP_ARCHIVE_LOG_TOKEN"@[15] == 'L');
    assert(service_env(s, "archive"@) == Some(archive_env(c)));
}

/// The console service reads exactly these variables, each bound to the value of its own
/// field (an absent optional field leaves its variable out).
pub proof fn lemma_console_variables(s: Services, c: ConsoleService)
    requires
        s.console == Some(c),
    ensures
        service_env(s, "console"@) is Some,
        binds(service_env(s, "console"@)->0, "UNIDPP_CONSOLE_BIND"@, Some(c.bind@)),
        binds(service_env(s, "console"@)->0, "UNIDPP_CONSOLE_ADMIN_TOKEN"@, opt_text(c.admin_token)),
        binds(service_env(s, "console"@)->0, "UNIDPP_CONSOLE_STATE_FILE"@, opt_text(c.state_file)),
        binds(service_env(s, "console"@)->0, "UNIDPP_CONSOLE_MANIFEST"@, opt_text(c.manifest)),
        forall|k: Seq<char>| #[trigger] service_env(s, "console"@)->0.contains_key(k) ==> (k == "UNIDPP_CONSOLE_BIND"@ || k == "UNIDPP_CONSOLE_ADMIN_TOKEN"@ || k == "UNIDPP_CONSOLE_STATE_FILE"@ || k == "UNIDPP_CONSOLE_MANIFEST"@),
{
    lemma_service_names_distinct();
    reveal_strlit("console");
    reveal_strlit("UNIDPP_CONSOLE_BIND");
    reveal_strlit("UNIDPP_");
    reveal_strlit("CONSOLE");
    reveal_strlit("_BIND");
    assert(env_key("CONSOLE"@, "_BIND"@) =~= "UNIDPP_CONSOLE_BIND"@);
    reveal_strlit("UNIDPP_CONSOLE_ADMIN_TOKEN");
    reveal_strlit("_ADMIN_TOKEN");
    assert(env_key("CONSOLE"@, "_ADMIN_TOKEN"@) =~= "UNIDPP_CONSOLE_ADMIN_TOKEN"@);
    reveal_strlit("UNIDPP_CONSOLE_STATE_FILE");
    reveal_strlit("_STATE_FILE");
    assert(env_key("CONSOLE"@, "_STATE_FILE"@) =~= "UNIDPP_CONSOLE_STATE_FILE"@);
    reveal_strlit("UNIDPP_CONSOLE_MANIFEST");
    assert("UNIDPP_CONSOLE_BIND"@.len() == 19);
    assert("UNIDPP_CONSOLE_ADMIN_TOKEN"@.len() == 26);
    assert("UNIDPP_CONSOLE_STATE_FILE"@.len() == 25);
    assert("UNIDPP_CONSOLE_MANIFEST"@.len() == 23);
    assert(service_env(s, "console"@) == Some(console_env(c)));
}

/// The hub service reads exactly these variables, each bound to the value of its own
/// field (an absent optional field leaves its variable out).
pub proof fn lemma_hub_variables(s: Services, c: HubService)
    requires
        s.hub == Some(c),
    ensures
        service_env(s, "hub"@) is Some,
        binds(service_env(s, "hub"@)->0, "UNIDPP_HUB_BIND"@, Some(c.bind@)),
        binds(service_env(s, "hub"@)->0, "UNIDPP_HUB_ID"@, Some(c.hub_id@)),
        binds(service_env(s, "hub"@)->0, "UNIDPP_HUB_ADMIN_TOKEN"@, opt_text(c.admin_token)),
        binds(service_env(s, "hub"@)->0, "UNIDPP_HUB_SEED"@, opt_text(c.seed)),
        forall|k: Seq<char>| #[trigger] service_env(s, "hub"@)->0.contains_key(k) ==> (k == "UNIDPP_HUB_BIND"@ || k == "UNIDPP_HUB_ID"@ || k == "UNIDPP_HUB_ADMIN_TOKEN"@ || k == "UNIDPP_HUB_SEED"@),
{
    lemma_service_names_distinct();
    reveal_strlit("hub");
    reveal_strlit("UNIDPP_HUB_BIND");
    reveal_strlit("UNIDPP_HUB_ID");
    reveal_strlit("UNIDPP_HUB_ADMIN_TOKEN");
    reveal_strlit("UNIDPP_HUB_SEED");
    assert("UNIDPP_HUB_BIND"@.len() == 15);
    assert("UNIDPP_HUB_ID"@.len() == 13);
    assert("UNIDPP_HUB_ADMIN_TOKEN"@.len() == 22);
    assert("UNIDPP_HUB_SEED"@.len() == 15);
    assert("UNIDPP_HUB_BIND"@[11] == 'B' && "UNIDPP_HUB_SEED"@[11] == 'S');
    assert(service_env(s, "hub"@) == Some(hub_env(c)));
}

} // verus!
