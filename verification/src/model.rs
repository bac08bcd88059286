use vstd::prelude::*;
use vstd::string::*;

verus! {

/// The manifest's API version (the only one this crate speaks).
pub const API_VERSION: &'static str = "unidpp.org/v1";

// ---------------------------------------------------------------------------
// The manifest
// ---------------------------------------------------------------------------

/// A complete deployment declaration.
#[derive(Debug, Clone, PartialEq)]
pub struct OperatorManifest {
    /// Must equal [`API_VERSION`].
    pub api_version: String,
    /// Which deployment this names.
    pub deployment: Deployment,
    /// The whitelabel surface (organization identity, theme).
    pub branding: Branding,
    /// Per-service configuration blocks.
    pub services: Services,
    /// Cross-cutting feature toggles.
    pub features: Features,
    /// The sovereignty declaration (what may leave the box).
    pub sovereignty: Sovereignty,
}

/// The deployment identity and shape.
#[derive(Debug, Clone, PartialEq)]
pub struct Deployment {
    /// The deployment's name (tenant name; unique per operator).
    pub name: String,
    /// `reference`, `whitelabel`, or `sovereign`.
    pub profile: Profile,
    /// The public base URL of the deployment's primary surface.
    pub base_url: String,
}

/// Deployment profiles.
#[derive(Debug, Clone, Copy, PartialEq, Eq, Structural)]
pub enum Profile {
    /// The hosted reference deployment.
    Reference,
    /// An organization's own branded instance.
    Whitelabel,
    /// On-prem, jurisdiction-pinned, external calls off.
    Sovereign,
}

/// The name a profile is written with in a manifest.
pub open spec fn profile_name(p: Profile) -> Seq<char> {
    match p {
        Profile::Reference => "reference"@,
        Profile::Whitelabel => "whitelabel"@,
        Profile::Sovereign => "sovereign"@,
    }
}

impl Profile {
    /// The name this profile is written with in a manifest.
    pub fn as_str(self) -> (r: &'static str)
        ensures
            r@ == profile_name(self),
    {
        match self {
            Profile::Reference => "reference",
            Profile::Whitelabel => "whitelabel",
            Profile::Sovereign => "sovereign",
        }
    }
}

/// The whitelabel surface.
#[derive(Debug, Clone, PartialEq)]
pub struct Branding {
    /// The operating organization's legal/display name.
    pub organization: String,
    /// The product name shown in chrome (login, titles, footers).
    pub product_name: String,
    /// A logo the console/explorer serve (path or data URI).
    pub logo: Option<String>,
    /// The console chrome's language.
    pub locale: String,
    /// The theme (hex colors; validated).
    pub theme: Theme,
    /// Footer links.
    pub footer: Footer,
}

impl Default for Branding {
    fn default() -> (r: Branding)
        ensures
            r.organization@ == "UniDPP"@,
            r.product_name@ == "UniDPP Platform"@,
            r.logo is None,
            r.locale@ == "en"@,
            r.theme.primary@ == "#0f62fe"@,
            r.theme.accent@ == "#08bdba"@,
            r.footer.legal_url is None,
            r.footer.contact_url is None,
    {
        Branding {
            organization: default_organization(),
            product_name: default_product(),
            logo: None,
            locale: default_locale(),
            theme: Theme::default(),
            footer: Footer::default(),
        }
    }
}

/// The default console language.
pub fn default_locale() -> (r: String)
    ensures
        r@ == "en"@,
{
    String::from_str("en")
}

/// The default organization name.
pub fn default_organization() -> (r: String)
    ensures
        r@ == "UniDPP"@,
{
    String::from_str("UniDPP")
}

/// The default product name.
pub fn default_product() -> (r: String)
    ensures
        r@ == "UniDPP Platform"@,
{
    String::from_str("UniDPP Platform")
}

/// Theme colors (six-digit hex, `#`-prefixed).
#[derive(Debug, Clone, PartialEq, Eq)]
pub struct Theme {
    pub primary: String,
    pub accent: String,
}

impl Default for Theme {
    fn default() -> (r: Theme)
        ensures
            r.primary@ == "#0f62fe"@,
            r.accent@ == "#08bdba"@,
    {
        Theme { primary: default_primary(), accent: default_accent() }
    }
}

/// The default primary color.
pub fn default_primary() -> (r: String)
    ensures
        r@ == "#0f62fe"@,
{
    String::from_str("#0f62fe")
}

/// The default accent color.
pub fn default_accent() -> (r: String)
    ensures
        r@ == "#08bdba"@,
{
    String::from_str("#08bdba")
}

/// Footer links (legal, contact).
#[derive(Debug, Clone, PartialEq, Eq)]
pub struct Footer {
    pub legal_url: Option<String>,
    pub contact_url: Option<String>,
}

impl Default for Footer {
    fn default() -> (r: Footer)
        ensures
            r.legal_url is None,
            r.contact_url is None,
    {
        Footer { legal_url: None, contact_url: None }
    }
}

/// Every service block. Absent service = that service is not part of
/// this deployment.
#[derive(Debug, Clone, PartialEq)]
pub struct Services {
    pub registry: Option<RegistryService>,
    pub trust: Option<TrustService>,
    pub log: Option<LogService>,
    pub issuer: Option<IssuerService>,
    pub projector: Option<ProjectorService>,
    pub gateway: Option<GatewayService>,
    pub archive: Option<ArchiveService>,
    pub console: Option<ConsoleService>,
    pub resolver: Option<ResolverService>,
    /// The relay hub (stateless and signed; no state file).
    pub hub: Option<HubService>,
}

impl Default for Services {
    fn default() -> (r: Services)
        ensures
            r.registry is None,
            r.trust is None,
            r.log is None,
            r.issuer is None,
            r.projector is None,
            r.gateway is None,
            r.archive is None,
            r.console is None,
            r.resolver is None,
            r.hub is None,
    {
        Services {
            registry: None,
            trust: None,
            log: None,
            issuer: None,
            projector: None,
            gateway: None,
            archive: None,
            console: None,
            resolver: None,
            hub: None,
        }
    }
}

/// The relay hub: stateless and signed.
#[derive(Debug, Clone, PartialEq)]
pub struct HubService {
    /// `host:port` to bind.
    pub bind: String,
    /// The hub has no mutations to gate today.
    pub admin_token: Option<String>,
    /// The hub's trust-graph node id (what relay signatures name).
    pub hub_id: String,
    /// The relay-signing seed (absent = seeded-dev mode).
    pub seed: Option<String>,
    /// The service's public URL when a tunnel/ingress fronts it.
    pub public_url: Option<String>,
}

/// The hub id used when the manifest names none.
pub fn default_hub_id() -> (r: String)
    ensures
        r@ == "unidpp-hub-1"@,
{
    String::from_str("unidpp-hub-1")
}

/// The knobs every service shares.
#[derive(Debug, Clone, PartialEq)]
pub struct ServiceCommon {
    /// `host:port` to bind.
    pub bind: String,
    /// The admin bearer token (an `${VAR}` reference).
    pub admin_token: Option<String>,
    /// The journal/state file (services that persist one).
    pub state_file: Option<String>,
    /// The service's public URL when a tunnel/ingress fronts it.
    pub public_url: Option<String>,
}

/// The registry (adds the seed knobs).
#[derive(Debug, Clone, PartialEq)]
pub struct RegistryService {
    pub bind: String,
    pub admin_token: Option<String>,
    pub state_file: Option<String>,
    pub public_url: Option<String>,
    /// Seed the development corpus on demand.
    pub seed_on_demand: Option<bool>,
    /// Seed the EXPRESS development corpus at start.
    pub seed_express: Option<bool>,
}

/// The trust service (adds the fixture and signing-seed knobs).
#[derive(Debug, Clone, PartialEq)]
pub struct TrustService {
    pub bind: String,
    pub admin_token: Option<String>,
    pub state_file: Option<String>,
    pub public_url: Option<String>,
    /// Run without the seed fixtures.
    pub no_seed_fixtures: Option<bool>,
    /// The development seed fixture.
    pub dev_seed: Option<String>,
    /// The operator keyring's Ed25519 signing seed.
    pub sign_seed: Option<String>,
    /// The operator keyring's P-256 signing seed.
    pub sign_seed_p256: Option<String>,
}

/// The projector (adds the resolution sources and the roll-up sealer).
#[derive(Debug, Clone, PartialEq)]
pub struct ProjectorService {
    pub bind: String,
    pub admin_token: Option<String>,
    pub state_file: Option<String>,
    pub public_url: Option<String>,
    /// The registry the lenses resolve against.
    pub registry_url: Option<String>,
    /// The registry bearer token when the registry is guarded.
    pub registry_token: Option<String>,
    /// The pinned passports directory.
    pub passports_dir: Option<String>,
    /// The pinned Primmel package directory.
    pub primmel_dir: Option<String>,
    /// The roll-up sealing seed (absent = roll-ups off).
    pub rollup_seed: Option<String>,
    /// The roll-up attester identity.
    pub rollup_attester: Option<String>,
}

/// The archive (adds the snapshot directory and the log anchor).
#[derive(Debug, Clone, PartialEq)]
pub struct ArchiveService {
    pub bind: String,
    pub admin_token: Option<String>,
    pub state_file: Option<String>,
    pub public_url: Option<String>,
    /// The snapshots directory.
    pub snapshot_dir: Option<String>,
    /// The development seed fixture.
    pub dev_seed: Option<String>,
    /// The snapshot signing seed.
    pub sign_seed: Option<String>,
    /// The transparency log to anchor snapshots to.
    pub log_url: Option<String>,
    /// The log's bearer token when the log is guarded.
    pub log_token: Option<String>,
    /// The log anchor timeout, milliseconds.
    pub log_timeout_ms: Option<u64>,
}

/// The console (adds the manifest path it loads).
#[derive(Debug, Clone, PartialEq)]
pub struct ConsoleService {
    pub bind: String,
    pub admin_token: Option<String>,
    pub state_file: Option<String>,
    pub public_url: Option<String>,
    /// The operator manifest the console loads and edits.
    pub manifest: Option<String>,
}

/// The transparency log (adds the external anchor knob).
#[derive(Debug, Clone, PartialEq)]
pub struct LogService {
    pub bind: String,
    pub admin_token: Option<String>,
    pub state_file: Option<String>,
    /// The log's identity.
    pub log_id: String,
    pub public_url: Option<String>,
    /// RFC 3161 TSA endpoint; absent = no external anchoring.
    pub external_tsa_url: Option<String>,
    /// The signature suite of the tree head.
    pub suite: Option<String>,
    /// The tree-head signing seed.
    pub seed: Option<String>,
}

/// The log id used when the manifest names none.
pub fn default_log_id() -> (r: String)
    ensures
        r@ == "unidpp-log-1"@,
{
    String::from_str("unidpp-log-1")
}

/// The issuer (adds the pack-suite policy).
#[derive(Debug, Clone, PartialEq)]
pub struct IssuerService {
    pub bind: String,
    pub admin_token: Option<String>,
    pub state_file: Option<String>,
    /// The pack-signing policy: one suite or the co-signature set.
    pub pack_suites: Vec<String>,
    pub public_url: Option<String>,
    /// The registry to forward registrations to.
    pub registry_url: Option<String>,
    /// The registry bearer token when the registry is guarded.
    pub registry_token: Option<String>,
    /// The maximum age of accepted upstream material, seconds.
    pub max_age: Option<u64>,
    /// The event-log signing seed.
    pub event_seed: Option<String>,
    /// The pack signing seed.
    pub pack_seed: Option<String>,
    /// The service's general development seed.
    pub seed: Option<String>,
}

/// The pack suites used when the manifest names none.
pub fn default_pack_suites() -> (r: Vec<String>)
    ensures
        r@.len() == 1,
        r@[0]@ == "ecdsa-p256"@,
{
    let mut v: Vec<String> = Vec::new();
    v.push(String::from_str("ecdsa-p256"));
    v
}

/// The gateway (adds the upstream).
#[derive(Debug, Clone, PartialEq)]
pub struct GatewayService {
    pub bind: String,
    pub admin_token: Option<String>,
    /// The issuer upstream whose passports the gateway renders.
    pub issuer_url: Option<String>,
    pub public_url: Option<String>,
    /// The consumer-report channel's knobs.
    pub feedback: FeedbackPolicy,
    /// The scan-token policy (absent = open).
    pub scan_policy: Option<ScanPolicy>,
    /// The upstream request timeout, milliseconds.
    pub timeout_ms: Option<u64>,
}

/// The consumer-report channel's deployment policy.
#[derive(Debug, Clone, PartialEq)]
pub struct FeedbackPolicy {
    /// Append-only JSONL journal path (absent = in-memory only).
    pub journal: Option<String>,
    /// Per-identifier reports per minute (0 = permissive).
    pub rate_per_minute: usize,
}

impl Default for FeedbackPolicy {
    fn default() -> (r: FeedbackPolicy)
        ensures
            r.journal is None,
            r.rate_per_minute == 0,
    {
        FeedbackPolicy { journal: None, rate_per_minute: 0 }
    }
}

/// The scan-token policy: short-TTL bearer scan tokens with issuance
/// throttling.
#[derive(Debug, Clone, PartialEq)]
pub struct ScanPolicy {
    /// Token time-to-live, seconds.
    pub token_ttl_secs: u64,
    /// Tokens issued per source per minute.
    pub issue_limit_per_minute: usize,
}

/// The resolver (the identifier-resolution service).
#[derive(Debug, Clone, PartialEq)]
pub struct ResolverService {
    pub bind: String,
    pub admin_token: Option<String>,
    pub state_file: Option<String>,
    /// National-intermediary mode: the upstream resolver base URL.
    pub upstream: Option<String>,
    pub cache_ttl_secs: i64,
    pub public_url: Option<String>,
}

/// The resolver cache lifetime used when the manifest names none.
pub fn default_cache_ttl() -> (r: i64)
    ensures
        r == 300,
{
    300
}

/// Cross-cutting toggles; each one is on unless the manifest turns it off.
#[derive(Debug, Clone, PartialEq)]
pub struct Features {
    /// Accept UNTP ingest on the gateway.
    pub untp_ingest: bool,
    /// Serve the CDDAL dictionary form on content negotiation.
    pub cddal_negotiation: bool,
    /// Serve the presentation render on the projector.
    pub presentation_render: bool,
}

impl Default for Features {
    fn default() -> (r: Features)
        ensures
            r.untp_ingest,
            r.cddal_negotiation,
            r.presentation_render,
    {
        Features { untp_ingest: true, cddal_negotiation: true, presentation_render: true }
    }
}

/// The value a toggle takes when a present `features` block omits it.
pub fn yes() -> (r: bool)
    ensures
        r,
{
    true
}

/// The sovereignty declaration: what may leave the box.
#[derive(Debug, Clone, PartialEq)]
pub struct Sovereignty {
    /// The jurisdiction this deployment pins data to.
    pub data_residency: Option<String>,
    /// The egress policy: `none`, `tsa-only`, or `external`.
    pub external_calls: EgressPolicy,
    /// Required when a sovereign profile permits egress: the recorded reason.
    pub egress_override_reason: Option<String>,
}

impl Default for Sovereignty {
    fn default() -> (r: Sovereignty)
        ensures
            r.data_residency is None,
            r.external_calls == EgressPolicy::NoEgress,
            r.egress_override_reason is None,
    {
        Sovereignty { data_residency: None, external_calls: no_egress(), egress_override_reason: None }
    }
}

/// The egress policy used when the manifest names none.
pub fn no_egress() -> (r: EgressPolicy)
    ensures
        r == EgressPolicy::NoEgress,
{
    EgressPolicy::NoEgress
}

/// The egress policy.
#[derive(Debug, Clone, Copy, PartialEq, Eq, Structural)]
pub enum EgressPolicy {
    /// Nothing leaves the box.
    NoEgress,
    /// Only the RFC 3161 TSA submission.
    TsaOnly,
    /// Upstream fetches permitted.
    External,
}

/// A load/validation failure.
#[derive(Debug, Clone, PartialEq)]
pub struct ConfigError(pub String);

// ---------------------------------------------------------------------------
// Views of optional values
// ---------------------------------------------------------------------------

/// The text of an optional string.
pub open spec fn opt_text(o: Option<String>) -> Option<Seq<char>> {
    match o {
        Some(s) => Some(s@),
        None => None,
    }
}

} // verus!
