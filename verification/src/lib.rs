//! The UniDPP operator manifest: a deployment is data.
//!
//! One validated declaration holds every knob of every service: binds,
//! secrets (`${VAR}` references resolved from the environment), feature
//! toggles, crypto suites, branding, and the sovereignty profile.
//! [`render_env`] materializes the environment block one service reads.
//!
//! - `model`: the manifest's types and their defaults.
//! - `subst`: `${NAME}` substitution and the JSON-or-YAML shape test.
//! - `checks`: semantic validation (version, name, colors, locale, pack
//!   suites, the sovereign egress rule).
//! - `services`: which services a deployment runs, and their public URLs.
//! - `json`: JSON documents, and the finishing of the published schema.
//! - `env`: name-ordered environment variables and their rendering.
//! - `render`: what each service reads, and `render_env`.
//! - `text`: character-level helpers (order, whitespace, numerals).

use vstd::prelude::*;

pub mod checks;
pub mod env;
pub mod json;
pub mod model;
pub mod render;
pub mod services;
pub mod subst;
pub mod text;

pub use checks::hex_color;
pub use model::{
    API_VERSION, ArchiveService, Branding, ConfigError, ConsoleService, Deployment, EgressPolicy,
    FeedbackPolicy, Features, Footer, GatewayService, HubService, IssuerService, LogService,
    OperatorManifest, Profile, ProjectorService, RegistryService, ResolverService, ScanPolicy,
    ServiceCommon, Services, Sovereignty, Theme, TrustService, default_accent, default_cache_ttl,
    default_hub_id, default_locale, default_log_id, default_organization, default_pack_suites,
    default_primary, default_product, no_egress, yes,
};
pub use json::{finish_schema, Json};
pub use render::render_env;
pub use subst::{reads_as_json, substitute_env};
