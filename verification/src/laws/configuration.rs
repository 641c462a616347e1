//! Laws on configurations: what a new one says, and what changing one changes.

use crate::clock::{is_reading, now_unix, seconds_since_epoch, unix_timestamp, whole_seconds};
use crate::jwt::JwtConfig;
use crate::text::IntoText;
use crate::token::{
    can_sign, checking_secret, checks_expiry_only, is_pair, is_sound, is_whole, leeway_of,
    margin_of, signing_family_of, signing_secret,
};
use std::time::{Duration, SystemTime};
use vstd::prelude::*;

verus! {

/// A configuration from a secret signs and checks with that secret, and accepts a token
/// until the second in which it expires. An access token lasts a day and a refresh token a
/// week; cookies are for every path and for secure connections only, sliding refresh is on,
/// and refresh tokens are not enabled.
pub proof fn secret_makes_a_configuration(secret: &[u8], config: JwtConfig)
    requires
        call_ensures(JwtConfig::from_secret, (secret,), config),
    ensures
        config.algorithm is HS256,
        signing_secret(config.encoding_key) == Some(secret@),
        checking_secret(config.decoding_key) == Some(secret@),
        is_pair(config.algorithm, config.encoding_key, config.decoding_key),
        can_sign(config.algorithm, config.encoding_key),
        is_sound(config.algorithm, config.encoding_key),
        is_whole(config.decoding_key),
        checks_expiry_only(config.validation, config.algorithm),
        leeway_of(config.validation) == 0,
        margin_of(config.validation) == 1,
        whole_seconds(config.ttl) == 24 * 60 * 60,
        config.cookie_name@ == "axum-login.jwt"@,
        config.path@ == seq!['/'],
        config.secure,
        config.sliding_refresh,
        !config.refresh_enabled,
        whole_seconds(config.refresh_ttl) == 7 * 24 * 60 * 60,
        config.refresh_cookie_name@ == "auth.refresh"@,
        config.refresh_path@ == seq!['/'],
{
    reveal_strlit("/");
    assert("/"@ =~= seq!['/']);
}

/// Whether two configurations have the same keys and the same rules.
pub open spec fn has_same_keys(a: JwtConfig, b: JwtConfig) -> bool {
    &&& a.encoding_key == b.encoding_key
    &&& a.decoding_key == b.decoding_key
    &&& a.algorithm == b.algorithm
    &&& a.validation == b.validation
}

/// Whether two configurations have the same settings of access tokens.
pub open spec fn has_same_access_settings(a: JwtConfig, b: JwtConfig) -> bool {
    a.ttl == b.ttl && a.cookie_name == b.cookie_name && a.path == b.path
}

/// Whether two configurations have the same settings of refresh tokens.
pub open spec fn has_same_refresh_settings(a: JwtConfig, b: JwtConfig) -> bool {
    &&& a.refresh_enabled == b.refresh_enabled
    &&& a.refresh_ttl == b.refresh_ttl
    &&& a.refresh_cookie_name == b.refresh_cookie_name
    &&& a.refresh_path == b.refresh_path
}

/// Setting the lifetime, the name or the path of access tokens sets just that.
pub proof fn access_settings_are_set_one_by_one<T: IntoText>(
    config: JwtConfig,
    ttl: Duration,
    text: T,
    set: JwtConfig,
)
    ensures
        call_ensures(JwtConfig::with_ttl, (config, ttl), set) ==> {
            &&& set.ttl == ttl
            &&& set.cookie_name == config.cookie_name && set.path == config.path
            &&& has_same_keys(set, config) && has_same_refresh_settings(set, config)
            &&& set.secure == config.secure && set.sliding_refresh == config.sliding_refresh
        },
        call_ensures(JwtConfig::with_cookie_name, (config, text), set) ==> {
            &&& set.cookie_name@ == text.characters()
            &&& set.ttl == config.ttl && set.path == config.path
            &&& has_same_keys(set, config) && has_same_refresh_settings(set, config)
            &&& set.secure == config.secure && set.sliding_refresh == config.sliding_refresh
        },
        call_ensures(JwtConfig::with_path, (config, text), set) ==> {
            &&& set.path@ == text.characters()
            &&& set.ttl == config.ttl && set.cookie_name == config.cookie_name
            &&& has_same_keys(set, config) && has_same_refresh_settings(set, config)
            &&& set.secure == config.secure && set.sliding_refresh == config.sliding_refresh
        },
{
}

/// Setting whether cookies are for secure connections only, or whether sliding refresh is
/// on, sets just that.
pub proof fn switches_are_set_one_by_one(config: JwtConfig, on: bool, set: JwtConfig)
    ensures
        call_ensures(JwtConfig::with_secure, (config, on), set) ==> {
            &&& set.secure == on && set.sliding_refresh == config.sliding_refresh
            &&& has_same_keys(set, config) && has_same_access_settings(set, config)
            &&& has_same_refresh_settings(set, config)
        },
        call_ensures(JwtConfig::with_sliding_refresh, (config, on), set) ==> {
            &&& set.sliding_refresh == on && set.secure == config.secure
            &&& has_same_keys(set, config) && has_same_access_settings(set, config)
            &&& has_same_refresh_settings(set, config)
        },
        call_ensures(JwtConfig::with_refresh_enabled, (config, on), set) ==> {
            &&& set.refresh_enabled == on
            &&& set.refresh_ttl == config.refresh_ttl
            &&& set.refresh_cookie_name == config.refresh_cookie_name
            &&& set.refresh_path == config.refresh_path
            &&& has_same_keys(set, config) && has_same_access_settings(set, config)
            &&& set.secure == config.secure && set.sliding_refresh == config.sliding_refresh
        },
{
}

/// Setting the lifetime, the name or the path of refresh tokens sets just that.
pub proof fn refresh_settings_are_set_one_by_one<T: IntoText>(
    config: JwtConfig,
    ttl: Duration,
    text: T,
    set: JwtConfig,
)
    ensures
        call_ensures(JwtConfig::with_refresh_ttl, (config, ttl), set) ==> {
            &&& set.refresh_ttl == ttl
            &&& set.refresh_enabled == config.refresh_enabled
            &&& set.refresh_cookie_name == config.refresh_cookie_name
            &&& set.refresh_path == config.refresh_path
            &&& has_same_keys(set, config) && has_same_access_settings(set, config)
            &&& set.secure == config.secure && set.sliding_refresh == config.sliding_refresh
        },
        call_ensures(JwtConfig::with_refresh_cookie_name, (config, text), set) ==> {
            &&& set.refresh_cookie_name@ == text.characters()
            &&& set.refresh_enabled == config.refresh_enabled
            &&& set.refresh_ttl == config.refresh_ttl && set.refresh_path == config.refresh_path
            &&& has_same_keys(set, config) && has_same_access_settings(set, config)
            &&& set.secure == config.secure && set.sliding_refresh == config.sliding_refresh
        },
        call_ensures(JwtConfig::with_refresh_path, (config, text), set) ==> {
            &&& set.refresh_path@ == text.characters()
            &&& set.refresh_enabled == config.refresh_enabled
            &&& set.refresh_ttl == config.refresh_ttl
            &&& set.refresh_cookie_name == config.refresh_cookie_name
            &&& has_same_keys(set, config) && has_same_access_settings(set, config)
            &&& set.secure == config.secure && set.sliding_refresh == config.sliding_refresh
        },
{
}

/// The clone of a configuration says all that it says.
pub proof fn configuration_is_cloned_whole(config: &JwtConfig, copy: JwtConfig)
    requires
        call_ensures(<JwtConfig as Clone>::clone, (config,), copy),
    ensures
        has_same_keys(copy, *config),
        has_same_access_settings(copy, *config),
        has_same_refresh_settings(copy, *config),
        copy.secure == config.secure,
        copy.sliding_refresh == config.sliding_refresh,
{
}

/// Tokens can be checked with a whole key, and with a leeway that is not longer than the
/// time since the epoch; they can be signed with any key but one of RSA.
pub proof fn keys_are_asked(config: &JwtConfig, answer: bool)
    ensures
        call_ensures(JwtConfig::can_check, (config,), answer) ==> (answer <==> is_whole(
            config.decoding_key,
        ) && leeway_of(config.validation) <= 1_700_000_000),
        call_ensures(JwtConfig::has_rsa_key, (config,), answer) ==> (answer <==> signing_family_of(
            config.encoding_key,
        ) is Rsa) && (!answer ==> is_sound(config.algorithm, config.encoding_key)),
{
}

/// A timestamp is the whole seconds since the epoch, and none before it; the current one is
/// that of some instant.
pub proof fn timestamps_count_from_the_epoch(instant: &SystemTime, seconds: u64)
    ensures
        call_ensures(unix_timestamp, (instant,), seconds) ==> seconds == if seconds_since_epoch(
            *instant,
        ) < 0 {
            0
        } else {
            seconds_since_epoch(*instant)
        },
        call_ensures(now_unix, (), seconds) ==> is_reading(seconds),
{
}

} // verus!
