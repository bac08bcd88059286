use vstd::prelude::*;
use vstd::string::*;

use crate::model::{API_VERSION, ConfigError, EgressPolicy, OperatorManifest, Profile};
use crate::text::{blank, chars_of, is_blank, same_text};

verus! {

// ---------------------------------------------------------------------------
// The rules a manifest must keep
// ---------------------------------------------------------------------------

/// An ASCII hexadecimal digit.
pub open spec fn is_hex_digit(c: char) -> bool {
    ||| '0' <= c <= '9'
    ||| 'a' <= c <= 'f'
    ||| 'A' <= c <= 'F'
}

/// A `#rrggbb` color: `#` and six hexadecimal digits.
pub open spec fn is_hex_color(s: Seq<char>) -> bool {
    &&& s.len() == 7
    &&& s[0] == '#'
    &&& forall|i: int| 1 <= i < 7 ==> is_hex_digit(#[trigger] s[i])
}

/// The locales the console's i18n table ships.
pub open spec fn is_supported_locale(s: Seq<char>) -> bool {
    s == "en"@ || s == "zh-CN"@
}

/// The name an egress policy is written with in a manifest.
pub open spec fn egress_name(e: EgressPolicy) -> Seq<char> {
    match e {
        EgressPolicy::NoEgress => "none"@,
        EgressPolicy::TsaOnly => "tsa-only"@,
        EgressPolicy::External => "external"@,
    }
}

/// The issuer's pack suites (when it is declared) name at least one suite,
/// and none of them is blank.
pub open spec fn pack_suites_ok(m: OperatorManifest) -> bool {
    match m.services.issuer {
        Some(issuer) => issuer.pack_suites@.len() > 0 && forall|i: int|
            0 <= i < issuer.pack_suites@.len() ==> !is_blank(#[trigger] issuer.pack_suites@[i]@),
        None => true,
    }
}

/// A sovereign deployment makes no external calls unless a non-blank reason
/// is recorded.
pub open spec fn egress_reasoned(m: OperatorManifest) -> bool {
    m.deployment.profile == Profile::Sovereign ==> (m.sovereignty.external_calls
        == EgressPolicy::NoEgress || match m.sovereignty.egress_override_reason {
        Some(r) => !is_blank(r@),
        None => false,
    })
}

/// A sovereign log carries no TSA under a `none` egress policy.
pub open spec fn log_tsa_consistent(m: OperatorManifest) -> bool {
    m.deployment.profile == Profile::Sovereign ==> match m.services.log {
        Some(log) => !(log.external_tsa_url is Some && m.sovereignty.external_calls
            == EgressPolicy::NoEgress),
        None => true,
    }
}

/// Every semantic rule of a manifest holds.
pub open spec fn is_valid_manifest(m: OperatorManifest) -> bool {
    &&& m.api_version@ == API_VERSION@
    &&& !is_blank(m.deployment.name@)
    &&& is_hex_color(m.branding.theme.primary@)
    &&& is_hex_color(m.branding.theme.accent@)
    &&& is_supported_locale(m.branding.locale@)
    &&& pack_suites_ok(m)
    &&& egress_reasoned(m)
    &&& log_tsa_consistent(m)
}

/// The refusal for a color that is not `#rrggbb`.
pub open spec fn hex_color_refusal(field: Seq<char>, value: Seq<char>) -> Seq<char> {
    field + " must be a #rrggbb hex color (got `"@ + value + "`)"@
}

/// The refusal for the first rule (in checking order) that `m` breaks, if any.
pub open spec fn first_violation(m: OperatorManifest) -> Option<Seq<char>> {
    if m.api_version@ != API_VERSION@ {
        Some("api_version `"@ + m.api_version@ + "` is not `"@ + API_VERSION@ + "`"@)
    } else if is_blank(m.deployment.name@) {
        Some("deployment.name must not be empty"@)
    } else if !is_hex_color(m.branding.theme.primary@) {
        Some(hex_color_refusal("branding.theme.primary"@, m.branding.theme.primary@))
    } else if !is_hex_color(m.branding.theme.accent@) {
        Some(hex_color_refusal("branding.theme.accent"@, m.branding.theme.accent@))
    } else if !is_supported_locale(m.branding.locale@) {
        Some("branding.locale `"@ + m.branding.locale@ + "` is not one of [\"en\", \"zh-CN\"]"@)
    } else if m.services.issuer is Some && exists|i: int|
        0 <= i < m.services.issuer->0.pack_suites@.len() && is_blank(
            #[trigger] m.services.issuer->0.pack_suites@[i]@,
        ) {
        Some("services.issuer.pack_suites contains an empty suite"@)
    } else if m.services.issuer is Some && m.services.issuer->0.pack_suites@.len() == 0 {
        Some("services.issuer.pack_suites needs at least one suite"@)
    } else if !egress_reasoned(m) {
        Some(
            "profile `sovereign` with external_calls `\""@ + egress_name(m.sovereignty.external_calls)
                + "\"` requires sovereignty.egress_override_reason (recorded, auditable)"@,
        )
    } else if !log_tsa_consistent(m) {
        Some("services.log.external_tsa_url is set but external_calls is `none`"@)
    } else {
        None
    }
}

/// A manifest is refused exactly when it breaks a rule.
pub proof fn lemma_refused_iff_invalid(m: OperatorManifest)
    ensures
        first_violation(m) is None <==> is_valid_manifest(m),
{
}

/// What validation promises of a sovereign deployment: its egress is
/// `none` or its reason is on record, and its log carries no TSA under a
/// `none` policy.
pub proof fn lemma_valid_sovereign_is_sealed_or_reasoned(m: OperatorManifest)
    requires
        is_valid_manifest(m),
        m.deployment.profile == Profile::Sovereign,
    ensures
        m.sovereignty.external_calls == EgressPolicy::NoEgress || (m.sovereignty.egress_override_reason
            matches Some(r) && !is_blank(r@)),
        m.services.log matches Some(log) ==> (log.external_tsa_url is Some
            ==> m.sovereignty.external_calls != EgressPolicy::NoEgress),
{
}

/// A color is accepted exactly when it is `#` followed by six characters,
/// each a digit `0`-`9` or a letter `a`-`f` or `A`-`F`.
pub proof fn lemma_hex_color_is_hash_and_six_hex_digits(v: Seq<char>)
    ensures
        is_hex_color(v) <==> (v.len() == 7 && v[0] == '#' && forall|i: int|
            1 <= i < 7 ==> {
                let c = #[trigger] v[i];
                ('0' <= c && c <= '9') || ('a' <= c && c <= 'f') || ('A' <= c && c <= 'F')
            }),
{
}

/// The egress rule: a deployment that is not sovereign may call out as its
/// policy says; a sovereign one may go beyond `none` (to `tsa-only` or
/// `external` alike) exactly when it records a non-blank reason.
pub proof fn lemma_egress_rule(m: OperatorManifest)
    ensures
        egress_reasoned(m) <==> (m.deployment.profile != Profile::Sovereign
            || m.sovereignty.external_calls == EgressPolicy::NoEgress
            || (m.sovereignty.egress_override_reason matches Some(r) && !is_blank(r@))),
{
}

/// A manifest that records a non-blank egress reason keeps the egress rule
/// whatever its profile and policy, so it validates as soon as it keeps
/// every other rule.
pub proof fn lemma_recorded_reason_validates(m: OperatorManifest)
    requires
        m.sovereignty.egress_override_reason matches Some(r) && !is_blank(r@),
        m.api_version@ == API_VERSION@,
        !is_blank(m.deployment.name@),
        is_hex_color(m.branding.theme.primary@),
        is_hex_color(m.branding.theme.accent@),
        is_supported_locale(m.branding.locale@),
        pack_suites_ok(m),
        log_tsa_consistent(m),
    ensures
        is_valid_manifest(m),
        first_violation(m) is None,
{
    lemma_egress_rule(m);
}

/// The console speaks exactly two locales: `en` and `zh-CN`.
pub proof fn lemma_locale_rule(l: Seq<char>)
    ensures
        is_supported_locale(l) <==> (l == seq!['e', 'n'] || l == seq!['z', 'h', '-', 'C', 'N']),
{
    reveal_strlit("en");
    reveal_strlit("zh-CN");
    assert("en"@ =~= seq!['e', 'n']);
    assert("zh-CN"@ =~= seq!['z', 'h', '-', 'C', 'N']);
}

/// The issuer's pack-suite rule: a declared issuer names at least one
/// suite and no blank one; a deployment without an issuer has nothing to
/// check.
pub proof fn lemma_pack_suite_rule(m: OperatorManifest)
    ensures
        pack_suites_ok(m) <==> (m.services.issuer is None || (m.services.issuer->0.pack_suites@.len() >= 1
            && !exists|i: int|
            0 <= i < m.services.issuer->0.pack_suites@.len() && is_blank(
                #[trigger] m.services.issuer->0.pack_suites@[i]@,
            ))),
{
}

/// The log's timestamp rule: only a sovereign deployment whose policy is
/// `none` and whose log names an external TSA breaks it.
pub proof fn lemma_log_tsa_rule(m: OperatorManifest)
    ensures
        log_tsa_consistent(m) <==> !(m.deployment.profile == Profile::Sovereign
            && m.sovereignty.external_calls == EgressPolicy::NoEgress
            && (m.services.log matches Some(log) && log.external_tsa_url is Some)),
{
}

/// The defaults a manifest gets when it omits its theme and locale
/// (`#0f62fe`, `#08bdba`, `en`, as `Branding::default` gives them) pass
/// the branding rules.
pub proof fn lemma_default_branding_is_valid()
    ensures
        is_hex_color("#0f62fe"@),
        is_hex_color("#08bdba"@),
        is_supported_locale("en"@),
{
    reveal_strlit("#0f62fe");
    reveal_strlit("#08bdba");
    let p = "#0f62fe"@;
    let a = "#08bdba"@;
    assert(p.len() == 7 && a.len() == 7);
    assert(p[0] == '#' && a[0] == '#');
    assert forall|i: int| 1 <= i < 7 implies is_hex_digit(#[trigger] p[i]) && is_hex_digit(a[i]) by {
        if i == 1 {} else if i == 2 {} else if i == 3 {} else if i == 4 {} else if i == 5 {} else {}
    }
}

// ---------------------------------------------------------------------------
// The checks
// ---------------------------------------------------------------------------

fn hex_digit(c: char) -> (r: bool)
    ensures
        r == is_hex_digit(c),
{
    ('0' <= c && c <= '9') || ('a' <= c && c <= 'f') || ('A' <= c && c <= 'F')
}

/// Checks that `value` is a `#rrggbb` color; the refusal names `field`.
pub fn hex_color(field: &str, value: &str) -> (r: Result<(), ConfigError>)
    ensures
        match r {
            Ok(()) => is_hex_color(value@),
            Err(e) => !is_hex_color(value@) && e.0@ == hex_color_refusal(field@, value@),
        },
{
    let cs = chars_of(value);
    let mut ok = cs.len() == 7 && cs[0] == '#';
    if ok {
        let mut i: usize = 1;
        while i < 7
            invariant
                cs@ == value@,
                cs@.len() == 7,
                cs@[0] == '#',
                1 <= i <= 7,
                ok == forall|j: int| 1 <= j < i ==> is_hex_digit(#[trigger] cs@[j]),
            decreases 7 - i,
        {
            ok = ok && hex_digit(cs[i]);
            i = i + 1;
        }
    }
    if ok {
        Ok(())
    } else {
        let mut msg = String::from_str(field);
        msg.append(" must be a #rrggbb hex color (got `");
        msg.append(value);
        msg.append("`)");
        Err(ConfigError(msg))
    }
}

fn supported_locale(locale: &str) -> (r: bool)
    ensures
        r == is_supported_locale(locale@),
{
    same_text(locale, "en") || same_text(locale, "zh-CN")
}

fn egress_str(e: EgressPolicy) -> (r: &'static str)
    ensures
        r@ == egress_name(e),
{
    match e {
        EgressPolicy::NoEgress => "none",
        EgressPolicy::TsaOnly => "tsa-only",
        EgressPolicy::External => "external",
    }
}

fn refusal(text: &str) -> (e: ConfigError)
    ensures
        e.0@ == text@,
{
    ConfigError(String::from_str(text))
}

impl OperatorManifest {
    /// Semantic validation (beyond the shape): version, name, theme colors,
    /// locale, pack suites, and the profile × egress rule.
    #[verifier::loop_isolation(false)]
    pub fn validate(&self) -> (r: Result<(), ConfigError>)
        ensures
            r is Ok <==> is_valid_manifest(*self),
            match r {
                Ok(()) => first_violation(*self) is None,
                Err(e) => first_violation(*self) == Some(e.0@),
            },
    {
        if !same_text(self.api_version.as_str(), API_VERSION) {
            let mut msg = String::from_str("api_version `");
            msg.append(self.api_version.as_str());
            msg.append("` is not `");
            msg.append(API_VERSION);
            msg.append("`");
            return Err(ConfigError(msg));
        }
        if blank(self.deployment.name.as_str()) {
            return Err(refusal("deployment.name must not be empty"));
        }
        hex_color("branding.theme.primary", self.branding.theme.primary.as_str())?;
        hex_color("branding.theme.accent", self.branding.theme.accent.as_str())?;
        if !supported_locale(self.branding.locale.as_str()) {
            let mut msg = String::from_str("branding.locale `");
            msg.append(self.branding.locale.as_str());
            msg.append("` is not one of [\"en\", \"zh-CN\"]");
            return Err(ConfigError(msg));
        }
        match &self.services.issuer {
            Some(issuer) => {
                let n = issuer.pack_suites.len();
                let mut i: usize = 0;
                while i < n
                    invariant
                        n == issuer.pack_suites@.len(),
                        i <= n,
                        forall|j: int| 0 <= j < i ==> !is_blank(#[trigger] issuer.pack_suites@[j]@),
                    decreases n - i,
                {
                    if blank(issuer.pack_suites[i].as_str()) {
                        assert(is_blank(issuer.pack_suites@[i as int]@));
                        return Err(refusal("services.issuer.pack_suites contains an empty suite"));
                    }
                    i = i + 1;
                }
                if n == 0 {
                    return Err(refusal("services.issuer.pack_suites needs at least one suite"));
                }
            },
            None => {},
        }
        if self.deployment.profile == Profile::Sovereign {
            let egress = self.sovereignty.external_calls;
            let permitted = egress == EgressPolicy::NoEgress || match &self.sovereignty.egress_override_reason {
                Some(reason) => !blank(reason.as_str()),
                None => false,
            };
            if !permitted {
                let mut msg = String::from_str("profile `sovereign` with external_calls `\"");
                msg.append(egress_str(egress));
                msg.append("\"` requires sovereignty.egress_override_reason (recorded, auditable)");
                return Err(ConfigError(msg));
            }
            match &self.services.log {
                Some(log) => {
                    if log.external_tsa_url.is_some() && egress == EgressPolicy::NoEgress {
                        return Err(refusal("services.log.external_tsa_url is set but external_calls is `none`"));
                    }
                },
                None => {},
            }
        }
        Ok(())
    }
}

} // verus!
