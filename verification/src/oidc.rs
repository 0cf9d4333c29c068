//! Token validation: parse the token's header, select the verification key,
//! check the signature through the token library, and verify the standard
//! claims against the configuration.
//!
//! The cryptographic work is done by the `jsonwebtoken` crate behind small
//! trusted wrappers.  Every wrapper outcome is deterministic in plain string
//! arguments and is therefore named, so the contracts below pin failure
//! *and* success: a well-signed token whose claims match the configuration
//! is owed `Ok`, with its claim fields tied to the token's payload.

use vstd::prelude::*;

use crate::AuthError;
use crate::config::OidcConfig;
use crate::keyset::{KeyRecord, KeySet, KeySetCache};
use crate::text::str_eq;

verus! {

#[verifier::external_type_specification]
#[verifier::external_body]
pub struct ExJsonValue(serde_json::Value);

#[verifier::external_type_specification]
#[verifier::external_body]
#[verifier::reject_recursive_types(K)]
#[verifier::reject_recursive_types(V)]
pub struct ExJsonMap<K, V>(serde_json::Map<K, V>);

/// What the token's unsigned header declares: nothing when the header does
/// not parse, otherwise the optional key id.  The header is a function of
/// the token text alone.
pub uninterp spec fn header_kid_of(token: Seq<char>) -> Option<Option<Seq<char>>>;

/// Whether the published RSA components decode into usable key material; a
/// function of the two component strings alone.
pub uninterp spec fn rsa_components_ok(n: Seq<char>, e: Seq<char>) -> bool;

/// Whether the published elliptic-curve components decode into usable key
/// material; a function of the two component strings alone.
pub uninterp spec fn ec_components_ok(x: Seq<char>, y: Seq<char>) -> bool;

/// Whether `token` is a well-formed JWT whose header algorithm is RS256 and
/// whose signature verifies under the RSA key built from the published
/// components `n`/`e`, with a JSON-object payload; a function of the three
/// strings alone.
pub uninterp spec fn rsa_signed_payload_ok(token: Seq<char>, n: Seq<char>, e: Seq<char>) -> bool;

/// The same under ES256 with the elliptic-curve key built from `x`/`y`.
pub uninterp spec fn ec_signed_payload_ok(token: Seq<char>, x: Seq<char>, y: Seq<char>) -> bool;

/// The same under HS256 with the symmetric `secret`.
pub uninterp spec fn hs_signed_payload_ok(token: Seq<char>, secret: Seq<char>) -> bool;

/// The member names of the token's payload object; a function of the token
/// text alone.
pub uninterp spec fn payload_member_names_of(token: Seq<char>) -> Set<Seq<char>>;

/// The payload members whose value is a JSON string, by name; a function of
/// the token text alone.
pub uninterp spec fn payload_str_members_of(token: Seq<char>) -> Map<Seq<char>, Seq<char>>;

/// The payload members whose value is a non-negative integer, by name; a
/// function of the token text alone.
pub uninterp spec fn payload_u64_members_of(token: Seq<char>) -> Map<Seq<char>, u64>;

/// The payload members whose value is an array of JSON strings, by name; a
/// function of the token text alone.
pub uninterp spec fn payload_str_list_members_of(token: Seq<char>) -> Map<
    Seq<char>,
    Seq<Seq<char>>,
>;

/// What a decoded payload object holds: its member names.
pub uninterp spec fn json_member_names_of(m: serde_json::Map<String, serde_json::Value>) -> Set<
    Seq<char>,
>;

/// What a decoded payload object holds: its JSON-string members, by name.
pub uninterp spec fn json_str_members_of(m: serde_json::Map<String, serde_json::Value>) -> Map<
    Seq<char>,
    Seq<char>,
>;

/// What a decoded payload object holds: its non-negative-integer members,
/// by name.
pub uninterp spec fn json_u64_members_of(m: serde_json::Map<String, serde_json::Value>) -> Map<
    Seq<char>,
    u64,
>;

/// What a decoded payload object holds: its string-array members, by name.
pub uninterp spec fn json_str_list_members_of(
    m: serde_json::Map<String, serde_json::Value>,
) -> Map<Seq<char>, Seq<Seq<char>>>;

/// View of an optional key id.
pub open spec fn spec_view_opt_string(o: Option<String>) -> Option<Seq<char>> {
    match o {
        Some(s) => Some(s@),
        None => None,
    }
}

/// Relies on `jsonwebtoken::decode_header`: parses the token's unsigned
/// header without trusting it, and hands back the declared key id.  The
/// outcome depends on the token text alone.
#[verifier::external_body]
fn decode_header_kid(token: &str) -> (r: Option<Option<String>>)
    ensures
        r is Some <==> header_kid_of(token@) is Some,
        r matches Some(k) ==> header_kid_of(token@) == Some(spec_view_opt_string(k)),
{
    jsonwebtoken::decode_header(token).ok().map(|h| h.kid)
}

/// Relies on `jsonwebtoken::DecodingKey::from_rsa_components`: whether the
/// published modulus and exponent decode into an RSA verification key.
#[verifier::external_body]
fn rsa_components_decode(n: &str, e: &str) -> (r: bool)
    ensures
        r == rsa_components_ok(n@, e@),
{
    jsonwebtoken::DecodingKey::from_rsa_components(n, e).is_ok()
}

/// Relies on `jsonwebtoken::DecodingKey::from_ec_components`: whether the
/// published coordinates decode into an elliptic-curve verification key.
#[verifier::external_body]
fn ec_components_decode(x: &str, y: &str) -> (r: bool)
    ensures
        r == ec_components_ok(x@, y@),
{
    jsonwebtoken::DecodingKey::from_ec_components(x, y).is_ok()
}

/// The signature algorithm the gateway verifies with, chosen from the key
/// type, never from the attacker-controlled token header.
#[derive(Debug, Clone, Copy, PartialEq, Eq, Structural)]
pub enum SigAlg {
    Rs256,
    Es256,
    Hs256,
}

/// Relies on `jsonwebtoken::decode` with a key from
/// `DecodingKey::from_rsa_components` under RS256, the crate's own expiry,
/// audience and required-claim checks switched off (this library proves the
/// claim checks itself): hands back the token's payload object exactly when
/// the token parses, the header algorithm is RS256 and the signature
/// verifies.  Outcome and payload are functions of the three strings alone.
#[verifier::external_body]
fn rsa_decode_payload(token: &str, n: &str, e: &str) -> (r: Option<
    serde_json::Map<String, serde_json::Value>,
>)
    requires
        rsa_components_ok(n@, e@),
    ensures
        r is Some <==> rsa_signed_payload_ok(token@, n@, e@),
        r matches Some(m) ==> json_member_names_of(m) == payload_member_names_of(token@),
        r matches Some(m) ==> json_str_members_of(m) == payload_str_members_of(token@),
        r matches Some(m) ==> json_u64_members_of(m) == payload_u64_members_of(token@),
        r matches Some(m) ==> json_str_list_members_of(m) == payload_str_list_members_of(
            token@,
        ),
{
    match jsonwebtoken::DecodingKey::from_rsa_components(n, e) {
        Err(_) => None,
        Ok(key) => {
            let mut v = jsonwebtoken::Validation::new(jsonwebtoken::Algorithm::RS256);
            v.validate_exp = false;
            v.validate_aud = false;
            v.required_spec_claims = std::collections::HashSet::new();
            jsonwebtoken::decode::<serde_json::Map<String, serde_json::Value>>(token, &key, &v)
                .ok()
                .map(|d| d.claims)
        },
    }
}

/// Relies on `jsonwebtoken::decode` with a key from
/// `DecodingKey::from_ec_components` under ES256, configured as in the RSA
/// wrapper.  Outcome and payload are functions of the three strings alone.
#[verifier::external_body]
fn ec_decode_payload(token: &str, x: &str, y: &str) -> (r: Option<
    serde_json::Map<String, serde_json::Value>,
>)
    requires
        ec_components_ok(x@, y@),
    ensures
        r is Some <==> ec_signed_payload_ok(token@, x@, y@),
        r matches Some(m) ==> json_member_names_of(m) == payload_member_names_of(token@),
        r matches Some(m) ==> json_str_members_of(m) == payload_str_members_of(token@),
        r matches Some(m) ==> json_u64_members_of(m) == payload_u64_members_of(token@),
        r matches Some(m) ==> json_str_list_members_of(m) == payload_str_list_members_of(
            token@,
        ),
{
    match jsonwebtoken::DecodingKey::from_ec_components(x, y) {
        Err(_) => None,
        Ok(key) => {
            let mut v = jsonwebtoken::Validation::new(jsonwebtoken::Algorithm::ES256);
            v.validate_exp = false;
            v.validate_aud = false;
            v.required_spec_claims = std::collections::HashSet::new();
            jsonwebtoken::decode::<serde_json::Map<String, serde_json::Value>>(token, &key, &v)
                .ok()
                .map(|d| d.claims)
        },
    }
}

/// Relies on `jsonwebtoken::decode` with a key from
/// `DecodingKey::from_secret` under HS256, configured as in the RSA
/// wrapper.  Outcome and payload are functions of the two strings alone.
#[verifier::external_body]
fn hs_decode_payload(token: &str, secret: &str) -> (r: Option<
    serde_json::Map<String, serde_json::Value>,
>)
    ensures
        r is Some <==> hs_signed_payload_ok(token@, secret@),
        r matches Some(m) ==> json_member_names_of(m) == payload_member_names_of(token@),
        r matches Some(m) ==> json_str_members_of(m) == payload_str_members_of(token@),
        r matches Some(m) ==> json_u64_members_of(m) == payload_u64_members_of(token@),
        r matches Some(m) ==> json_str_list_members_of(m) == payload_str_list_members_of(
            token@,
        ),
{
    let key = jsonwebtoken::DecodingKey::from_secret(secret.as_bytes());
    let mut v = jsonwebtoken::Validation::new(jsonwebtoken::Algorithm::HS256);
    v.validate_exp = false;
    v.validate_aud = false;
    v.required_spec_claims = std::collections::HashSet::new();
    jsonwebtoken::decode::<serde_json::Map<String, serde_json::Value>>(token, &key, &v)
        .ok()
        .map(|d| d.claims)
}

/// Relies on `serde_json::Map::contains_key`: whether the payload has a
/// member of this name.
#[verifier::external_body]
fn json_member_present(m: &serde_json::Map<String, serde_json::Value>, k: &str) -> (r: bool)
    ensures
        r == json_member_names_of(*m).contains(k@),
{
    m.contains_key(k)
}

/// Relies on `serde_json::Map::get`, handing the member out as plain text
/// when it is a JSON string.
#[verifier::external_body]
fn json_member_str(m: &serde_json::Map<String, serde_json::Value>, k: &str) -> (r: Option<
    String,
>)
    ensures
        r is Some <==> json_str_members_of(*m).contains_key(k@),
        r matches Some(s) ==> s@ == json_str_members_of(*m)[k@],
{
    m.get(k).and_then(|v| v.as_str()).map(|s| s.to_owned())
}

/// Relies on `serde_json::Map::get`, handing the member out as a plain
/// integer when it is a non-negative one.
#[verifier::external_body]
fn json_member_u64(m: &serde_json::Map<String, serde_json::Value>, k: &str) -> (r: Option<
    u64,
>)
    ensures
        r is Some <==> json_u64_members_of(*m).contains_key(k@),
        r matches Some(v) ==> v == json_u64_members_of(*m)[k@],
{
    m.get(k).and_then(|v| v.as_u64())
}

/// Relies on `serde_json::Map::get`, handing the member out as plain texts
/// when it is an array of JSON strings.
#[verifier::external_body]
fn json_member_str_list(m: &serde_json::Map<String, serde_json::Value>, k: &str) -> (r: Option<
    Vec<String>,
>)
    ensures
        r is Some <==> json_str_list_members_of(*m).contains_key(k@),
        r matches Some(vs) ==> vs@.map_values(|s: String| s@) == json_str_list_members_of(
            *m,
        )[k@],
{
    m.get(k).and_then(|v| v.as_array()).and_then(
        |a| a.iter().map(|v| v.as_str().map(|s| s.to_owned())).collect::<Option<Vec<String>>>(),
    )
}

/// Relies on `serde_json::Map::get`: looks a member up by name (used for the
/// provider-specific members carried along verbatim).
#[verifier::external_body]
fn json_member<'a>(
    m: &'a serde_json::Map<String, serde_json::Value>,
    k: &str,
) -> (r: Option<&'a serde_json::Value>) {
    m.get(k)
}

/// Relies on `serde_json::Map::keys`: the member names of the payload
/// object.
#[verifier::external_body]
fn json_keys(m: &serde_json::Map<String, serde_json::Value>) -> (r: Vec<String>) {
    m.keys().cloned().collect()
}

/// Relies on `serde_json::Value`'s text rendering, for carrying
/// provider-specific claims along verbatim.
#[verifier::external_body]
fn json_to_text(v: &serde_json::Value) -> (r: String) {
    v.to_string()
}

/// The audience claim: a single value or a list.
#[derive(Debug, Clone)]
pub enum Audience {
    Single(String),
    Many(Vec<String>),
}

/// The verified claims of a successfully validated token: the standard
/// members, plus every provider-specific member carried along as raw JSON
/// text.
#[derive(Debug, Clone)]
pub struct Claims {
    pub sub: String,
    pub iss: String,
    pub aud: Option<Audience>,
    pub exp: u64,
    pub iat: u64,
    pub other: Vec<(String, String)>,
}

/// The settings the validator works from, distilled from [`OidcConfig`].
pub struct ValidationConfig {
    pub issuer_url: String,
    pub client_id: String,
    pub audience: Option<String>,
    pub jwks_ttl_seconds: u64,
    /// Whether a token that declares no key id may fall back to the first
    /// published key.  A deliberate, auditable policy choice; never on by
    /// default.
    pub allow_kid_fallback: bool,
    pub skip_validation: bool,
    pub dev_secret: Option<String>,
}

impl ValidationConfig {
    /// The development bypass is reachable only when the flag is set *and* a
    /// secret was configured — both must be stated explicitly.
    pub open spec fn dev_bypass_enabled(self) -> bool {
        self.skip_validation && self.dev_secret is Some
    }

    /// Distill the raw configuration.  The kid fallback is a separate,
    /// explicit argument so that enabling it is always a visible decision at
    /// the call site.
    pub fn from_oidc(o: &OidcConfig, allow_kid_fallback: bool) -> (r: Self)
        ensures
            r.issuer_url@ == o.issuer_url@,
            r.client_id@ == o.client_id@,
            spec_view_opt_string(r.audience) == spec_view_opt_string(o.audience),
            r.jwks_ttl_seconds == o.jwks_cache_duration_seconds,
            r.allow_kid_fallback == allow_kid_fallback,
            r.skip_validation == (o.skip_validation matches Some(b) && b),
            spec_view_opt_string(r.dev_secret) == spec_view_opt_string(o.dev_secret),
            r.dev_bypass_enabled() <==> ((o.skip_validation matches Some(b) && b)
                && o.dev_secret is Some),
    {
        let audience = match &o.audience {
            Some(a) => Some(a.clone()),
            None => None,
        };
        let dev_secret = match &o.dev_secret {
            Some(s) => Some(s.clone()),
            None => None,
        };
        let skip_validation = match o.skip_validation {
            Some(b) => b,
            None => false,
        };
        ValidationConfig {
            issuer_url: o.issuer_url.clone(),
            client_id: o.client_id.clone(),
            audience,
            jwks_ttl_seconds: o.jwks_cache_duration_seconds,
            allow_kid_fallback,
            skip_validation,
            dev_secret,
        }
    }
}

/// Documented clock-skew tolerance applied to the expiry check: neither zero
/// nor unbounded.
pub const CLOCK_SKEW_LEEWAY_SECONDS: u64 = 60;

/// The audience a token must name: the explicitly configured audience if
/// any, else the client id, else nothing is required.
pub open spec fn spec_expected_audience(cfg: ValidationConfig) -> Option<Seq<char>> {
    match cfg.audience {
        Some(a) => Some(a@),
        None => if cfg.client_id@.len() > 0 {
            Some(cfg.client_id@)
        } else {
            None
        },
    }
}

/// Some string of the sequence views as `expected`.
pub open spec fn spec_strings_contain(vs: Seq<String>, expected: Seq<char>) -> bool {
    exists|i: int| 0 <= i < vs.len() && vs[i]@ == expected
}

/// Some value of the sequence equals `expected`.
pub open spec fn spec_seqs_contain(vs: Seq<Seq<char>>, expected: Seq<char>) -> bool {
    exists|i: int| 0 <= i < vs.len() && vs[i] == expected
}

/// The audience claim names the expected audience.
pub open spec fn spec_aud_contains(a: Audience, expected: Seq<char>) -> bool {
    match a {
        Audience::Single(s) => s@ == expected,
        Audience::Many(v) => spec_strings_contain(v@, expected),
    }
}

/// The audience check: a token without an audience claim passes; one that
/// declares an audience must name the expected one, and is rejected when
/// nothing at all is configured to expect.
pub open spec fn spec_aud_ok(aud: Option<Audience>, expected: Option<Seq<char>>) -> bool {
    match aud {
        None => true,
        Some(a) => match expected {
            None => false,
            Some(e) => spec_aud_contains(a, e),
        },
    }
}

/// The standard-claim checks of a decoded token: issuer equals the
/// configured issuer exactly, the audience matches, and the expiry instant
/// is still in the future within the documented clock-skew tolerance.
pub open spec fn spec_claims_valid(c: Claims, cfg: ValidationConfig, now: u64) -> bool {
    &&& c.iss@ == cfg.issuer_url@
    &&& spec_aud_ok(c.aud, spec_expected_audience(cfg))
    &&& now < c.exp + CLOCK_SKEW_LEEWAY_SECONDS
}

/// A token whose expiry instant lies at or before `now`, even allowing the
/// documented clock-skew tolerance, can never pass the claim checks —
/// whatever its signature, issuer or audience.
pub proof fn lemma_expired_token_rejected(c: Claims, cfg: ValidationConfig, now: u64)
    requires
        c.exp + CLOCK_SKEW_LEEWAY_SECONDS <= now,
    ensures
        !spec_claims_valid(c, cfg, now),
{
}

/// Verify the standard claims.  Returns the claims unchanged exactly when
/// they pass, and `ClaimInvalid` otherwise.
pub fn check_claims(c: Claims, cfg: &ValidationConfig, now: u64) -> (r: Result<
    Claims,
    AuthError,
>)
    ensures
        r is Ok <==> spec_claims_valid(c, *cfg, now),
        r matches Ok(cc) ==> cc == c,
        r matches Err(e) ==> e == AuthError::ClaimInvalid,
{
    if !str_eq(c.iss.as_str(), cfg.issuer_url.as_str()) {
        return Err(AuthError::ClaimInvalid);
    }
    let aud_ok: bool = match &c.aud {
        None => true,
        Some(a) => {
            let expected: Option<&String> = match &cfg.audience {
                Some(ex) => Some(ex),
                None => {
                    if !cfg.client_id.as_str().is_empty() {
                        Some(&cfg.client_id)
                    } else {
                        None
                    }
                },
            };
            match expected {
                None => false,
                Some(e) => aud_contains(a, e.as_str()),
            }
        },
    };
    if !aud_ok {
        return Err(AuthError::ClaimInvalid);
    }
    let not_expired: bool = if now < CLOCK_SKEW_LEEWAY_SECONDS {
        true
    } else {
        c.exp > now - CLOCK_SKEW_LEEWAY_SECONDS
    };
    if !not_expired {
        return Err(AuthError::ClaimInvalid);
    }
    Ok(c)
}

/// Whether the audience claim names `expected`.
#[verifier::loop_isolation(false)]
fn aud_contains(a: &Audience, expected: &str) -> (r: bool)
    ensures
        r == spec_aud_contains(*a, expected@),
{
    match a {
        Audience::Single(s) => str_eq(s.as_str(), expected),
        Audience::Many(v) => {
            let mut i: usize = 0;
            while i < v.len()
                invariant
                    i <= v@.len(),
                    forall|j: int| 0 <= j < i ==> v@[j]@ != expected@,
                decreases v@.len() - i,
            {
                if str_eq(v[i].as_str(), expected) {
                    proof {
                        assert(0 <= (i as int) && (i as int) < v@.len() && v@[i as int]@
                            == expected@);
                    }
                    return true;
                }
                i = i + 1;
            }
            false
        },
    }
}

/// The five standard claim names the validator interprets itself.
pub open spec fn spec_is_standard_claim(n: Seq<char>) -> bool {
    n == "sub"@ || n == "iss"@ || n == "aud"@ || n == "exp"@ || n == "iat"@
}

/// Whether a member name is one of the standard claims.
fn is_standard_claim(n: &str) -> (r: bool)
    ensures
        r == spec_is_standard_claim(n@),
{
    str_eq(n, "sub") || str_eq(n, "iss") || str_eq(n, "aud") || str_eq(n, "exp")
        || str_eq(n, "iat")
}

/// The audience claim of a payload object, as the sequence of audience
/// values it names: absent, a single value, or a list.  Mirrors the reading
/// order of the extraction below.
pub open spec fn spec_obj_aud_values(
    names: Set<Seq<char>>,
    strs: Map<Seq<char>, Seq<char>>,
    lists: Map<Seq<char>, Seq<Seq<char>>>,
) -> Option<Seq<Seq<char>>> {
    if !names.contains("aud"@) {
        None
    } else if strs.contains_key("aud"@) {
        Some(seq![strs["aud"@]])
    } else if lists.contains_key("aud"@) {
        Some(lists["aud"@])
    } else {
        None
    }
}

/// The audience claim is absent or well-typed: a string or an array of
/// strings.
pub open spec fn spec_obj_aud_wf(
    names: Set<Seq<char>>,
    strs: Map<Seq<char>, Seq<char>>,
    lists: Map<Seq<char>, Seq<Seq<char>>>,
) -> bool {
    !names.contains("aud"@) || strs.contains_key("aud"@) || lists.contains_key("aud"@)
}

/// The payload carries every required standard member with the right type,
/// and a well-typed audience if any.
pub open spec fn spec_obj_standard_ok(
    names: Set<Seq<char>>,
    strs: Map<Seq<char>, Seq<char>>,
    u64s: Map<Seq<char>, u64>,
    lists: Map<Seq<char>, Seq<Seq<char>>>,
) -> bool {
    &&& strs.contains_key("sub"@)
    &&& strs.contains_key("iss"@)
    &&& u64s.contains_key("exp"@)
    &&& u64s.contains_key("iat"@)
    &&& spec_obj_aud_wf(names, strs, lists)
}

/// The audience values a [`Claims`] value names.
pub open spec fn spec_audience_values(a: Option<Audience>) -> Option<Seq<Seq<char>>> {
    match a {
        None => None,
        Some(Audience::Single(s)) => Some(seq![s@]),
        Some(Audience::Many(v)) => Some(v@.map_values(|x: String| x@)),
    }
}

/// The claim fields equal the payload's members.
pub open spec fn spec_claims_match_obj(
    c: Claims,
    names: Set<Seq<char>>,
    strs: Map<Seq<char>, Seq<char>>,
    u64s: Map<Seq<char>, u64>,
    lists: Map<Seq<char>, Seq<Seq<char>>>,
) -> bool {
    &&& strs.contains_key("sub"@) && c.sub@ == strs["sub"@]
    &&& strs.contains_key("iss"@) && c.iss@ == strs["iss"@]
    &&& u64s.contains_key("exp"@) && c.exp == u64s["exp"@]
    &&& u64s.contains_key("iat"@) && c.iat == u64s["iat"@]
    &&& spec_audience_values(c.aud) == spec_obj_aud_values(names, strs, lists)
}

/// The standard-claim checks, stated directly over a payload object's
/// members.
pub open spec fn spec_obj_claims_valid(
    names: Set<Seq<char>>,
    strs: Map<Seq<char>, Seq<char>>,
    u64s: Map<Seq<char>, u64>,
    lists: Map<Seq<char>, Seq<Seq<char>>>,
    cfg: ValidationConfig,
    now: u64,
) -> bool {
    &&& strs.contains_key("iss"@) && strs["iss"@] == cfg.issuer_url@
    &&& spec_values_aud_ok(spec_obj_aud_values(names, strs, lists), spec_expected_audience(cfg))
    &&& u64s.contains_key("exp"@) && now < u64s["exp"@] + CLOCK_SKEW_LEEWAY_SECONDS
}

/// The audience check over plain audience values.
pub open spec fn spec_values_aud_ok(
    vals: Option<Seq<Seq<char>>>,
    expected: Option<Seq<char>>,
) -> bool {
    match vals {
        None => true,
        Some(vs) => match expected {
            None => false,
            Some(e) => spec_seqs_contain(vs, e),
        },
    }
}

/// The audience check on a [`Claims`] value agrees with the audience check
/// on the values it names.
proof fn lemma_aud_values_ok(a: Option<Audience>, expected: Option<Seq<char>>)
    ensures
        spec_aud_ok(a, expected) == spec_values_aud_ok(spec_audience_values(a), expected),
{
    match a {
        None => {
            assert(spec_audience_values(a) == None::<Seq<Seq<char>>>);
        },
        Some(Audience::Single(s)) => {
            let vs = seq![s@];
            assert(spec_audience_values(a) == Some(vs));
            match expected {
                None => {},
                Some(e) => {
                    assert(vs.len() == 1);
                    assert(vs[0] == s@);
                    if s@ == e {
                        assert(spec_seqs_contain(vs, e)) by {
                            assert(0 <= 0 < vs.len() && vs[0] == e);
                        }
                        assert(spec_values_aud_ok(Some(vs), expected));
                    } else {
                        assert forall|i: int| 0 <= i < vs.len() implies vs[i] != e by {
                            assert(vs[i] == s@);
                        }
                        assert(!spec_seqs_contain(vs, e));
                        assert(!spec_values_aud_ok(Some(vs), expected));
                    }
                },
            }
        },
        Some(Audience::Many(v)) => {
            let vs = v@.map_values(|x: String| x@);
            assert(spec_audience_values(a) == Some(vs));
            assert(vs.len() == v@.len());
            assert forall|i: int| 0 <= i < v@.len() implies #[trigger] vs[i] == v@[i]@ by {}
            match expected {
                None => {},
                Some(e) => {
                    if spec_strings_contain(v@, e) {
                        let i = choose|i: int| 0 <= i < v@.len() && v@[i]@ == e;
                        assert(spec_seqs_contain(vs, e)) by {
                            assert(0 <= i < vs.len() && vs[i] == e);
                        }
                    }
                    if spec_seqs_contain(vs, e) {
                        let i = choose|i: int| 0 <= i < vs.len() && vs[i] == e;
                        assert(spec_strings_contain(v@, e)) by {
                            assert(0 <= i < v@.len() && v@[i]@ == e);
                        }
                    }
                },
            }
        },
    }
}

/// Read the decoded payload into [`Claims`].  Succeeds exactly when the
/// required members are present and well typed; the returned claim fields
/// equal the payload's members, and every value beyond the standard claims
/// is kept, as raw JSON text, under `other`.
fn extract_claims(payload: &serde_json::Map<String, serde_json::Value>) -> (r: Result<
    Claims,
    AuthError,
>)
    ensures
        r is Ok <==> spec_obj_standard_ok(
            json_member_names_of(*payload),
            json_str_members_of(*payload),
            json_u64_members_of(*payload),
            json_str_list_members_of(*payload),
        ),
        r matches Ok(c) ==> spec_claims_match_obj(
            c,
            json_member_names_of(*payload),
            json_str_members_of(*payload),
            json_u64_members_of(*payload),
            json_str_list_members_of(*payload),
        ),
        r matches Ok(c) ==> forall|k: int|
            0 <= k < c.other@.len() ==> !spec_is_standard_claim(c.other@[k].0@),
        r matches Err(e) ==> e == AuthError::ClaimInvalid,
{
    let sub = match json_member_str(payload, "sub") {
        Some(s) => s,
        None => return Err(AuthError::ClaimInvalid),
    };
    let iss = match json_member_str(payload, "iss") {
        Some(s) => s,
        None => return Err(AuthError::ClaimInvalid),
    };
    let exp = match json_member_u64(payload, "exp") {
        Some(n) => n,
        None => return Err(AuthError::ClaimInvalid),
    };
    let iat = match json_member_u64(payload, "iat") {
        Some(n) => n,
        None => return Err(AuthError::ClaimInvalid),
    };
    let aud: Option<Audience> = if json_member_present(payload, "aud") {
        match json_member_str(payload, "aud") {
            Some(s) => Some(Audience::Single(s)),
            None => match json_member_str_list(payload, "aud") {
                Some(vs) => Some(Audience::Many(vs)),
                None => return Err(AuthError::ClaimInvalid),
            },
        }
    } else {
        None
    };
    let names = json_keys(payload);
    let mut other: Vec<(String, String)> = Vec::new();
    let mut i: usize = 0;
    while i < names.len()
        invariant
            forall|k: int| 0 <= k < other@.len() ==> !spec_is_standard_claim(other@[k].0@),
        decreases names@.len() - i,
    {
        if !is_standard_claim(names[i].as_str()) {
            match json_member(payload, names[i].as_str()) {
                Some(v) => {
                    let text = json_to_text(v);
                    other.push((names[i].clone(), text));
                },
                None => {},
            }
        }
        i = i + 1;
    }
    Ok(Claims { sub, iss, aud, exp, iat, other })
}

/// The published record decodes into usable verification-key material: an
/// RSA record with both components, or an elliptic-curve record with both
/// coordinates.
pub open spec fn spec_key_usable(k: KeyRecord) -> bool {
    ||| (k.kty@ == "RSA"@ && match (k.n, k.e) {
        (Some(n), Some(e)) => rsa_components_ok(n@, e@),
        _ => false,
    })
    ||| (k.kty@ == "EC"@ && match (k.x, k.y) {
        (Some(x), Some(y)) => ec_components_ok(x@, y@),
        _ => false,
    })
}

/// The verification algorithm implied by the record's key type.
pub open spec fn spec_key_alg(k: KeyRecord) -> SigAlg {
    if k.kty@ == "RSA"@ {
        SigAlg::Rs256
    } else {
        SigAlg::Es256
    }
}

/// The token's signature verifies under the record's published key
/// material, with the algorithm its key type implies.
pub open spec fn spec_key_signed_ok(token: Seq<char>, k: KeyRecord) -> bool {
    if k.kty@ == "RSA"@ {
        match (k.n, k.e) {
            (Some(n), Some(e)) => rsa_signed_payload_ok(token, n@, e@),
            _ => false,
        }
    } else {
        match (k.x, k.y) {
            (Some(x), Some(y)) => ec_signed_payload_ok(token, x@, y@),
            _ => false,
        }
    }
}

/// Vet a published record's key material.  An unsupported key type, a
/// structurally incomplete record, and components that do not decode are all
/// hard errors, never silently skipped; a usable record yields the
/// verification algorithm its key type implies.
pub fn check_key_material(k: &KeyRecord) -> (r: Result<SigAlg, AuthError>)
    ensures
        r is Ok <==> spec_key_usable(*k),
        r matches Ok(a) ==> a == spec_key_alg(*k),
        r matches Err(e) ==> e == AuthError::UnsupportedKeyType,
{
    proof {
        reveal_strlit("RSA");
        reveal_strlit("EC");
        assert("RSA"@.len() == 3);
        assert("EC"@.len() == 2);
        assert("RSA"@ != "EC"@);
    }
    if str_eq(k.kty.as_str(), "RSA") {
        match (&k.n, &k.e) {
            (Some(n), Some(e)) => {
                if rsa_components_decode(n.as_str(), e.as_str()) {
                    Ok(SigAlg::Rs256)
                } else {
                    Err(AuthError::UnsupportedKeyType)
                }
            },
            _ => Err(AuthError::UnsupportedKeyType),
        }
    } else if str_eq(k.kty.as_str(), "EC") {
        match (&k.x, &k.y) {
            (Some(x), Some(y)) => {
                if ec_components_decode(x.as_str(), y.as_str()) {
                    Ok(SigAlg::Es256)
                } else {
                    Err(AuthError::UnsupportedKeyType)
                }
            },
            _ => Err(AuthError::UnsupportedKeyType),
        }
    } else {
        Err(AuthError::UnsupportedKeyType)
    }
}

/// The payload of `token` carries the required standard members, well
/// typed.
pub open spec fn spec_payload_standard_ok(token: Seq<char>) -> bool {
    spec_obj_standard_ok(
        payload_member_names_of(token),
        payload_str_members_of(token),
        payload_u64_members_of(token),
        payload_str_list_members_of(token),
    )
}

/// The standard-claim checks, stated over the token's payload members.
pub open spec fn spec_payload_claims_valid(
    token: Seq<char>,
    cfg: ValidationConfig,
    now: u64,
) -> bool {
    spec_obj_claims_valid(
        payload_member_names_of(token),
        payload_str_members_of(token),
        payload_u64_members_of(token),
        payload_str_list_members_of(token),
        cfg,
        now,
    )
}

/// The claim fields equal the token's payload members.
pub open spec fn spec_claims_match_payload(c: Claims, token: Seq<char>) -> bool {
    spec_claims_match_obj(
        c,
        payload_member_names_of(token),
        payload_str_members_of(token),
        payload_u64_members_of(token),
        payload_str_list_members_of(token),
    )
}

/// What is owed once the signature stage has passed: success exactly when
/// the payload is standard-complete and its claims match the configuration,
/// `ClaimInvalid` otherwise, and returned claims equal the payload.
pub open spec fn spec_checked_stage_ok(
    r: Result<Claims, AuthError>,
    token: Seq<char>,
    cfg: ValidationConfig,
    now: u64,
) -> bool {
    &&& (r is Ok <==> (spec_payload_standard_ok(token) && spec_payload_claims_valid(
        token,
        cfg,
        now,
    )))
    &&& ((r == Err::<Claims, AuthError>(AuthError::ClaimInvalid)) <==> !(
    spec_payload_standard_ok(token) && spec_payload_claims_valid(token, cfg, now)))
    &&& match r {
        Ok(c) => spec_claims_match_payload(c, token),
        _ => true,
    }
}

/// Everything one validation against a key set owes, stage by stage:
/// header parse, key selection, key material, signature, claims — each
/// failure pinned to its cause, and success owed when every stage passes.
pub open spec fn spec_validation_outcome_ok(
    r: Result<Claims, AuthError>,
    token: Seq<char>,
    keys: KeySet,
    cfg: ValidationConfig,
    now: u64,
) -> bool {
    &&& ((r == Err::<Claims, AuthError>(AuthError::MalformedToken)) <==> header_kid_of(
        token,
    ) is None)
    &&& match header_kid_of(token) {
        None => true,
        Some(kid) => {
            &&& ((r == Err::<Claims, AuthError>(AuthError::KeyNotFound)) <==> keys.spec_select(
                kid,
                cfg.allow_kid_fallback,
            ) is None)
            &&& match keys.spec_select(kid, cfg.allow_kid_fallback) {
                None => true,
                Some(rec) => {
                    &&& ((r == Err::<Claims, AuthError>(AuthError::UnsupportedKeyType))
                        <==> !spec_key_usable(rec))
                    &&& (spec_key_usable(rec) ==> {
                        &&& ((r == Err::<Claims, AuthError>(AuthError::SignatureInvalid))
                            <==> !spec_key_signed_ok(token, rec))
                        &&& (spec_key_signed_ok(token, rec) ==> spec_checked_stage_ok(
                            r,
                            token,
                            cfg,
                            now,
                        ))
                    })
                },
            }
        },
    }
    &&& match r {
        Ok(c) => spec_claims_valid(c, cfg, now),
        _ => true,
    }
    &&& r != Err::<Claims, AuthError>(AuthError::KeySetFetch)
}

/// Everything one validation under the development bypass owes.
pub open spec fn spec_dev_outcome_ok(
    r: Result<Claims, AuthError>,
    token: Seq<char>,
    secret: Seq<char>,
    cfg: ValidationConfig,
    now: u64,
) -> bool {
    &&& ((r == Err::<Claims, AuthError>(AuthError::SignatureInvalid))
        <==> !hs_signed_payload_ok(token, secret))
    &&& (hs_signed_payload_ok(token, secret) ==> spec_checked_stage_ok(r, token, cfg, now))
    &&& match r {
        Ok(c) => spec_claims_valid(c, cfg, now),
        Err(e) => e == AuthError::SignatureInvalid || e == AuthError::ClaimInvalid,
    }
}

/// None of what a validation outcome owes reads the development secret:
/// with the bypass not enabled, the specification of the outcome is the
/// same with the secret removed from the configuration.
pub proof fn lemma_secret_irrelevant_without_bypass(
    r: Result<Claims, AuthError>,
    token: Seq<char>,
    keys: KeySet,
    cfg: ValidationConfig,
    stripped: ValidationConfig,
    now: u64,
)
    requires
        stripped.issuer_url == cfg.issuer_url,
        stripped.client_id == cfg.client_id,
        stripped.audience == cfg.audience,
        stripped.jwks_ttl_seconds == cfg.jwks_ttl_seconds,
        stripped.allow_kid_fallback == cfg.allow_kid_fallback,
        stripped.dev_secret is None,
    ensures
        spec_validation_outcome_ok(r, token, keys, cfg, now) == spec_validation_outcome_ok(
            r,
            token,
            keys,
            stripped,
            now,
        ),
{
    assert(spec_expected_audience(cfg) == spec_expected_audience(stripped));
    assert(spec_payload_claims_valid(token, cfg, now) == spec_payload_claims_valid(
        token,
        stripped,
        now,
    ));
    match r {
        Ok(c) => {
            assert(spec_claims_valid(c, cfg, now) == spec_claims_valid(c, stripped, now));
        },
        _ => {},
    }
    assert(spec_checked_stage_ok(r, token, cfg, now) == spec_checked_stage_ok(
        r,
        token,
        stripped,
        now,
    ));
}

/// Validate a token against one key-set snapshot.  The header is parsed
/// first, without trusting it; the key is selected by declared id; the
/// signature is verified under the algorithm the key type implies; then the
/// standard claims are checked.  [`spec_validation_outcome_ok`] states what
/// is owed at every stage, success included.
pub fn validate_with_keys(
    token: &str,
    keys: &KeySet,
    cfg: &ValidationConfig,
    now: u64,
) -> (r: Result<Claims, AuthError>)
    requires
        keys.wf(),
    ensures
        spec_validation_outcome_ok(r, token@, *keys, *cfg, now),
{
    proof {
        reveal_strlit("RSA");
        reveal_strlit("EC");
        assert("RSA"@.len() == 3);
        assert("EC"@.len() == 2);
        assert("RSA"@ != "EC"@);
    }
    let kid_opt: Option<String> = match decode_header_kid(token) {
        None => return Err(AuthError::MalformedToken),
        Some(k) => k,
    };
    let kid_ref: Option<&str> = match &kid_opt {
        Some(s) => Some(s.as_str()),
        None => None,
    };
    proof {
        assert(crate::keyset::spec_view_kid(kid_ref) == spec_view_opt_string(kid_opt));
    }
    let rec = match keys.find_key(kid_ref, cfg.allow_kid_fallback) {
        None => return Err(AuthError::KeyNotFound),
        Some(rec) => rec,
    };
    let alg = match check_key_material(rec) {
        Ok(a) => a,
        Err(e) => return Err(e),
    };
    let payload_opt: Option<serde_json::Map<String, serde_json::Value>> = match alg {
        SigAlg::Rs256 => match (&rec.n, &rec.e) {
            (Some(n), Some(e)) => rsa_decode_payload(token, n.as_str(), e.as_str()),
            _ => {
                proof {
                    assert(false);
                }
                None
            },
        },
        SigAlg::Es256 => match (&rec.x, &rec.y) {
            (Some(x), Some(y)) => ec_decode_payload(token, x.as_str(), y.as_str()),
            _ => {
                proof {
                    assert(false);
                }
                None
            },
        },
        SigAlg::Hs256 => {
            proof {
                assert(false);
            }
            None
        },
    };
    match payload_opt {
        None => Err(AuthError::SignatureInvalid),
        Some(payload) => match extract_claims(&payload) {
            Err(e) => Err(e),
            Ok(c) => {
                proof {
                    lemma_aud_values_ok(c.aud, spec_expected_audience(*cfg));
                }
                check_claims(c, cfg, now)
            },
        },
    }
}

/// Validate a token under the development bypass: the signature is checked
/// against the configured symmetric secret instead of the provider's key
/// set; the claim checks are the same.  [`spec_dev_outcome_ok`] states what
/// is owed, success included.
pub fn validate_with_dev_secret(
    token: &str,
    secret: &str,
    cfg: &ValidationConfig,
    now: u64,
) -> (r: Result<Claims, AuthError>)
    ensures
        spec_dev_outcome_ok(r, token@, secret@, *cfg, now),
{
    match hs_decode_payload(token, secret) {
        None => Err(AuthError::SignatureInvalid),
        Some(payload) => match extract_claims(&payload) {
            Err(e) => Err(e),
            Ok(c) => {
                proof {
                    lemma_aud_values_ok(c.aud, spec_expected_audience(*cfg));
                }
                check_claims(c, cfg, now)
            },
        },
    }
}

/// What one validation attempt decided.
pub enum ValidationStep {
    /// Validation finished with this outcome; no fetch is needed.
    Complete(Result<Claims, AuthError>),
    /// The cached key set is missing or stale: fetch the provider's key-set
    /// document and continue through
    /// [`OidcValidator::validate_token_after_fetch`].
    NeedsKeySet,
}

/// The token validator: the distilled configuration plus the TTL-cached
/// key-set snapshot.
pub struct OidcValidator {
    config: ValidationConfig,
    cache: KeySetCache,
}

impl OidcValidator {
    pub closed spec fn spec_config(self) -> ValidationConfig {
        self.config
    }

    pub closed spec fn spec_cache(self) -> KeySetCache {
        self.cache
    }

    /// Invariant: whatever snapshot the cache holds is unique by key id.
    pub open spec fn wf(self) -> bool {
        self.spec_cache().spec_entry() matches Some(c) ==> c.keys.wf()
    }

    /// A validator with an empty cache; the first protected request will ask
    /// for a fetch.
    pub fn new(config: ValidationConfig) -> (r: Self)
        ensures
            r.wf(),
            r.spec_config() == config,
            r.spec_cache().spec_entry() is None,
            r.spec_cache().spec_ttl() == config.jwks_ttl_seconds,
    {
        let ttl = config.jwks_ttl_seconds;
        OidcValidator { config, cache: KeySetCache::new(ttl) }
    }

    pub fn config(&self) -> (r: &ValidationConfig)
        ensures
            *r == self.spec_config(),
    {
        &self.config
    }

    /// One validation attempt at clock reading `now`.  Under the development
    /// bypass the symmetric secret is used and no key set is needed; under
    /// normal operation a fresh cached key set completes the validation
    /// without I/O, and a stale or missing one asks the caller to fetch.
    /// Completed outcomes are owed stage by stage, success included.
    pub fn validate_token(&self, token: &str, now: u64) -> (r: ValidationStep)
        requires
            self.wf(),
        ensures
            self.spec_config().dev_bypass_enabled() ==> r is Complete,
            !self.spec_config().dev_bypass_enabled() ==> (r is NeedsKeySet
                <==> !self.spec_cache().fresh_at(now)),
            r matches ValidationStep::Complete(res) ==> (res matches Ok(c)
                ==> spec_claims_valid(c, self.spec_config(), now)),
            (!self.spec_config().dev_bypass_enabled() && self.spec_cache().fresh_at(now))
                ==> match (r, self.spec_cache().spec_entry()) {
                (ValidationStep::Complete(res), Some(en)) => spec_validation_outcome_ok(
                    res,
                    token@,
                    en.keys,
                    self.spec_config(),
                    now,
                ),
                _ => false,
            },
            self.spec_config().dev_bypass_enabled() ==> match (
                r,
                self.spec_config().dev_secret,
            ) {
                (ValidationStep::Complete(res), Some(s)) => spec_dev_outcome_ok(
                    res,
                    token@,
                    s@,
                    self.spec_config(),
                    now,
                ),
                _ => false,
            },
    {
        if self.config.skip_validation {
            let secret: Option<&String> = match &self.config.dev_secret {
                Some(s) => Some(s),
                None => None,
            };
            if let Some(s) = secret {
                return ValidationStep::Complete(
                    validate_with_dev_secret(token, s.as_str(), &self.config, now),
                );
            }
        }
        match self.cache.get(now) {
            Some(ks) => ValidationStep::Complete(
                validate_with_keys(token, ks, &self.config, now),
            ),
            None => ValidationStep::NeedsKeySet,
        }
    }

    /// Install a freshly fetched snapshot directly, as the startup
    /// pre-load does.
    pub fn supply_keyset(&mut self, keys: KeySet, now: u64)
        requires
            old(self).wf(),
            keys.wf(),
        ensures
            final(self).wf(),
            final(self).spec_config() == old(self).spec_config(),
            final(self).spec_cache().spec_entry() matches Some(c) && c.keys == keys
                && c.fetched_at == now,
            final(self).spec_cache().spec_ttl() == old(self).spec_cache().spec_ttl(),
    {
        self.cache.store(keys, now);
    }

    /// Continue a validation that needed a fetch.  A failed fetch is
    /// reported as `KeySetFetch` and leaves the cache as it was, so a later
    /// attempt after the provider recovers can succeed; a fetched snapshot
    /// is stored at `now` and the token is validated against it, with the
    /// outcome owed stage by stage, success included.
    pub fn validate_token_after_fetch(
        &mut self,
        token: &str,
        fetched: Option<KeySet>,
        now: u64,
    ) -> (r: Result<Claims, AuthError>)
        requires
            old(self).wf(),
            fetched matches Some(ks) ==> ks.wf(),
        ensures
            final(self).wf(),
            final(self).spec_config() == old(self).spec_config(),
            fetched is None ==> r == Err::<Claims, AuthError>(AuthError::KeySetFetch)
                && final(self).spec_cache() == old(self).spec_cache(),
            fetched matches Some(ks) ==> {
                &&& final(self).spec_cache().spec_entry() matches Some(c) && c.keys == ks
                    && c.fetched_at == now
                &&& final(self).spec_cache().spec_ttl()
                    == old(self).spec_cache().spec_ttl()
                &&& spec_validation_outcome_ok(
                    r,
                    token@,
                    ks,
                    old(self).spec_config(),
                    now,
                )
            },
    {
        match fetched {
            None => Err(AuthError::KeySetFetch),
            Some(ks) => {
                let r = validate_with_keys(token, &ks, &self.config, now);
                self.cache.store(ks, now);
                r
            },
        }
    }
}

} // verus!
