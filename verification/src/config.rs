//! The node's configuration: its defaults, what it has to hold, and where its relative
//! paths lead.
//!
//! Paths are UTF-8. Where the node runs on a POSIX system, a path is absolute if it begins with a
//! slash. Elsewhere paths follow the rules of the platform, as `std::path` has them.

use crate::error;
use crate::text;
use vstd::prelude::*;

verus! {

/// How the node reports its counts to the homepage.
#[derive(Debug)]
pub struct StatsReportConfig {
    pub enabled: bool,
    pub node_id: Option<String>,
    pub endpoint: Option<String>,
    pub token: Option<String>,
    pub interval_seconds: u64,
}

/// Where the node keeps its files.
#[derive(Debug)]
pub struct PathConfig {
    pub data_dir: String,
    pub records_dir: String,
    pub keys_dir: String,
    pub controller_authorization_nonce_file: String,
    pub registration_credential_query_nonce_file: String,
    pub database_url: Option<String>,
}

impl Default for StatsReportConfig {
    fn default() -> (config: StatsReportConfig)
        ensures
            !config.enabled,
            config.node_id is None,
            config.endpoint is None,
            config.token is None,
            config.interval_seconds == 60,
    {
        StatsReportConfig {
            enabled: false,
            node_id: None,
            endpoint: None,
            token: None,
            interval_seconds: default_stats_report_interval_seconds(),
        }
    }
}

pub fn default_records_dir() -> (path: String)
    ensures
        path@ == "../../data/registrar/resource-records"@,
{
    "../../data/registrar/resource-records".to_owned()
}

pub fn default_keys_dir() -> (path: String)
    ensures
        path@ == "../../data/registrar/keys"@,
{
    "../../data/registrar/keys".to_owned()
}

pub fn default_controller_authorization_nonce_file() -> (path: String)
    ensures
        path@ == "../../data/registrar/controller-authorization-nonces.json"@,
{
    "../../data/registrar/controller-authorization-nonces.json".to_owned()
}

pub fn default_registration_credential_query_nonce_file() -> (path: String)
    ensures
        path@ == "../../data/registrar/registration-credential-query-nonces.json"@,
{
    "../../data/registrar/registration-credential-query-nonces.json".to_owned()
}

pub fn default_root_did() -> (did: String)
    ensures
        did@ == "did:oan:INRT:7YpQm9Kx2VnRb6Ts3WfHa4Cd5Ej8LgNz"@,
{
    "did:oan:INRT:7YpQm9Kx2VnRb6Ts3WfHa4Cd5Ej8LgNz".to_owned()
}

pub fn default_stats_report_interval_seconds() -> (seconds: u64)
    ensures
        seconds == 60,
{
    60
}

/// Whether a setting is there and says something.
pub open spec fn is_set(setting: Option<String>) -> bool {
    setting is Some && !text::blank(setting->0@)
}

/// What is missing in a report configuration that is switched on.
pub open spec fn report_config_verdict(config: StatsReportConfig) -> Result<(), Seq<char>> {
    if !config.enabled {
        Ok(())
    } else if !is_set(config.node_id) {
        Err("stats_report.node_id is required when enabled"@)
    } else if !is_set(config.endpoint) {
        Err("stats_report.endpoint is required when enabled"@)
    } else if !is_set(config.token) {
        Err("stats_report.token is required when enabled"@)
    } else if config.interval_seconds == 0 {
        Err("stats_report.interval_seconds must be greater than 0"@)
    } else {
        Ok(())
    }
}

fn says_something(setting: &Option<String>) -> (found: bool)
    ensures
        found == is_set(*setting),
{
    match setting {
        Some(held) => !text::is_blank(held.as_str()),
        None => false,
    }
}

/// Checks the report configuration.
pub fn validate_stats_report_config(config: &StatsReportConfig) -> (result: Result<(), String>)
    ensures
        error::complaint(result) == report_config_verdict(*config),
{
    if !config.enabled {
        return Ok(());
    }
    if !says_something(&config.node_id) {
        return Err("stats_report.node_id is required when enabled".to_owned());
    }
    if !says_something(&config.endpoint) {
        return Err("stats_report.endpoint is required when enabled".to_owned());
    }
    if !says_something(&config.token) {
        return Err("stats_report.token is required when enabled".to_owned());
    }
    if config.interval_seconds == 0 {
        return Err("stats_report.interval_seconds must be greater than 0".to_owned());
    }
    Ok(())
}

/// Whose rules paths follow.
#[derive(Clone, Copy, Debug, PartialEq, Eq, Structural)]
pub enum PathRules {
    /// Those of POSIX.
    Posix,
    /// Those of the platform that the node runs on.
    Native,
}

/// Whether a path is absolute by the rules of POSIX.
pub open spec fn is_absolute(path: Seq<char>) -> bool {
    path.len() > 0 && path[0] == '/'
}

/// A path as seen from a directory, by the rules of POSIX.
pub open spec fn resolved(base: Seq<char>, path: Seq<char>) -> Seq<char> {
    if is_absolute(path) || base.len() == 0 {
        path
    } else if base.last() == '/' {
        base + path
    } else {
        base.push('/') + path
    }
}

/// A path that no platform takes for an absolute one: it begins with no separator and names no
/// drive.
pub open spec fn is_plainly_relative(path: Seq<char>) -> bool {
    path.len() > 0 && path[0] != '/' && path[0] != '\\' && !path.contains(':')
}

/// A directory that every platform puts a separator behind, and nothing but that.
pub open spec fn is_plain_directory(base: Seq<char>) -> bool {
    base.len() > 0 && base[0] != '\\' && base.last() != '/' && base.last() != '\\' && base.last()
        != ':'
}

/// What holds on every platform of a path as seen from a directory: a plainly relative path is
/// put behind the directory, with a separator between.
pub open spec fn is_natively_resolved(
    base: Seq<char>,
    path: Seq<char>,
    found: Seq<char>,
) -> bool {
    is_plainly_relative(path) ==> {
        &&& base.len() == 0 ==> found == path
        &&& is_plain_directory(base) ==> found == base.push('/') + path || found == base.push(
            '\\',
        ) + path
    }
}

/// `found` is the path as seen from the directory, by the given rules.
pub open spec fn resolves_to(
    rules: PathRules,
    base: Seq<char>,
    path: Seq<char>,
    found: Seq<char>,
) -> bool {
    match rules {
        PathRules::Posix => found == resolved(base, path),
        PathRules::Native => is_natively_resolved(base, path, found),
    }
}

/// The path in a SQLite URL.
pub open spec fn sqlite_path(url: Seq<char>) -> Option<Seq<char>> {
    if text::begins_with(url, "sqlite://"@) {
        Some(url.skip("sqlite://"@.len() as int))
    } else if text::begins_with(url, "sqlite:"@) {
        Some(url.skip("sqlite:"@.len() as int))
    } else {
        None
    }
}

/// A database URL with the path of a SQLite file seen from a directory, by the rules of POSIX.
pub open spec fn resolved_url(base: Seq<char>, url: Seq<char>) -> Seq<char> {
    match sqlite_path(url) {
        Some(path) => "sqlite:"@ + resolved(base, path),
        None => url,
    }
}

/// `found` is the database URL with the path of a SQLite file seen from the directory, by the
/// given rules.
pub open spec fn url_resolves_to(
    rules: PathRules,
    base: Seq<char>,
    url: Seq<char>,
    found: Seq<char>,
) -> bool {
    match sqlite_path(url) {
        Some(path) => text::begins_with(found, "sqlite:"@) && resolves_to(
            rules,
            base,
            path,
            found.skip("sqlite:"@.len() as int),
        ),
        None => found == url,
    }
}

/// `std::path::Path::join`, as text. An absolute path takes the place of the directory; a
/// relative one is put behind it, with the separator of the platform between. Which paths are
/// absolute, what becomes of paths that name a drive or begin with a separator and are not, and
/// of directories with a prefix of their own, depends on the platform and is not stated.
#[verifier::external_body]
fn join(base: &str, path: &str) -> (found: String)
    ensures
        is_natively_resolved(base@, path@, found@),
{
    std::path::Path::new(base).join(path).display().to_string()
}

/// A path as seen from a directory.
pub fn resolve_relative(rules: PathRules, base: &str, path: &str) -> (found: String)
    ensures
        resolves_to(rules, base@, path@, found@),
{
    match rules {
        PathRules::Posix => resolve_posix(base, path),
        PathRules::Native => join(base, path),
    }
}

/// A path as seen from a directory, by the rules of POSIX.
fn resolve_posix(base: &str, path: &str) -> (found: String)
    ensures
        found@ == resolved(base@, path@),
{
    let held = text::characters(path);
    if held.len() > 0 && held[0] == '/' {
        return path.to_owned();
    }
    let directory = text::characters(base);
    if directory.len() == 0 {
        return path.to_owned();
    }
    let mut found = base.to_owned();
    if directory[directory.len() - 1] != '/' {
        found.push('/');
    }
    found.append(path);
    found
}

/// A database URL as seen from a directory. Only a SQLite URL holds a path.
pub fn resolve_database_url(rules: PathRules, base: &str, url: &str) -> (found: String)
    ensures
        url_resolves_to(rules, base@, url@, found@),
        rules is Posix ==> found@ == resolved_url(base@, url@),
{
    let path = match text::after_prefix(url, "sqlite://") {
        Some(path) => path,
        None => match text::after_prefix(url, "sqlite:") {
            Some(path) => path,
            None => {
                return url.to_owned();
            },
        },
    };
    let there = resolve_relative(rules, base, path.as_str());
    let found = text::joined("sqlite:", there.as_str());
    proof {
        assert(found@.take("sqlite:"@.len() as int) == "sqlite:"@);
        assert(found@.skip("sqlite:"@.len() as int) == there@);
    }
    found
}

/// The configured paths as seen from the directory of the configuration file.
pub fn resolve_paths(rules: PathRules, base: &str, paths: PathConfig) -> (found: PathConfig)
    ensures
        resolves_to(rules, base@, paths.data_dir@, found.data_dir@),
        resolves_to(rules, base@, paths.records_dir@, found.records_dir@),
        resolves_to(rules, base@, paths.keys_dir@, found.keys_dir@),
        resolves_to(
            rules,
            base@,
            paths.controller_authorization_nonce_file@,
            found.controller_authorization_nonce_file@,
        ),
        resolves_to(
            rules,
            base@,
            paths.registration_credential_query_nonce_file@,
            found.registration_credential_query_nonce_file@,
        ),
        found.database_url is Some <==> paths.database_url is Some,
        paths.database_url is Some ==> url_resolves_to(
            rules,
            base@,
            paths.database_url->0@,
            found.database_url->0@,
        ),
        paths.database_url is Some && rules is Posix ==> found.database_url->0@ == resolved_url(
            base@,
            paths.database_url->0@,
        ),
{
    PathConfig {
        data_dir: resolve_relative(rules, base, paths.data_dir.as_str()),
        records_dir: resolve_relative(rules, base, paths.records_dir.as_str()),
        keys_dir: resolve_relative(rules, base, paths.keys_dir.as_str()),
        controller_authorization_nonce_file: resolve_relative(
            rules,
            base,
            paths.controller_authorization_nonce_file.as_str(),
        ),
        registration_credential_query_nonce_file: resolve_relative(
            rules,
            base,
            paths.registration_credential_query_nonce_file.as_str(),
        ),
        database_url: match paths.database_url {
            Some(url) => Some(resolve_database_url(rules, base, url.as_str())),
            None => None,
        },
    }
}

/// By the rules of POSIX an absolute path leads to the same place from everywhere.
pub proof fn law_absolute_paths_stay(base: Seq<char>, path: Seq<char>)
    requires
        is_absolute(path),
    ensures
        resolved(base, path) == path,
{
}

/// By the rules of POSIX a path seen from an absolute directory is absolute, and seeing it from
/// there once more changes nothing.
pub proof fn law_resolving_twice_is_resolving_once(base: Seq<char>, path: Seq<char>)
    requires
        is_absolute(base),
    ensures
        is_absolute(resolved(base, path)),
        resolved(base, resolved(base, path)) == resolved(base, path),
{
}

/// By the rules of POSIX a database URL seen from an absolute directory does not change when it
/// is seen from there once more, unless its path begins with two slashes.
pub proof fn law_resolving_a_url_twice_is_resolving_it_once(base: Seq<char>, url: Seq<char>)
    requires
        is_absolute(base),
        sqlite_path(url) is Some ==> !text::begins_with(
            resolved(base, sqlite_path(url)->0),
            "//"@,
        ),
    ensures
        resolved_url(base, resolved_url(base, url)) == resolved_url(base, url),
{
    if let Some(path) = sqlite_path(url) {
        reveal_strlit("sqlite:");
        reveal_strlit("sqlite://");
        reveal_strlit("//");
        let there = resolved(base, path);
        let once = "sqlite:"@ + there;
        law_resolving_twice_is_resolving_once(base, path);
        assert(once.take("sqlite:"@.len() as int) == "sqlite:"@);
        assert(once.skip("sqlite:"@.len() as int) == there);
        if text::begins_with(once, "sqlite://"@) {
            let prefix = "sqlite://"@;
            assert(once.take(prefix.len() as int) == prefix);
            assert(once[7] == prefix[7] && once[8] == prefix[8]);
            assert(there[0] == '/' && there[1] == '/');
            assert(there.take(2) == "//"@);
        }
    }
}


/// A relative path is put behind the directory that it is seen from, with one slash between. Seen
/// from nowhere it stays as it is.
pub proof fn law_relative_paths_follow_the_directory(base: Seq<char>, path: Seq<char>)
    requires
        path.len() == 0 || path[0] != '/',
    ensures
        base.len() > 0 && base.last() != '/' ==> resolved(base, path) == base + seq!['/'] + path,
        base.len() > 0 && base.last() == '/' ==> resolved(base, path) == base + path,
        resolved(Seq::empty(), path) == path,
{
    if base.len() > 0 && base.last() != '/' {
        assert(base.push('/') + path == base + seq!['/'] + path);
    }
}

/// Different relative paths lead to different places, and a path ends where it is said to.
pub proof fn law_paths_stay_apart(base: Seq<char>, left: Seq<char>, right: Seq<char>)
    requires
        left.len() == 0 || left[0] != '/',
        right.len() == 0 || right[0] != '/',
    ensures
        resolved(base, left) == resolved(base, right) ==> left == right,
        text::ends_in(resolved(base, left), left),
        text::begins_with(resolved(base, left), base),
{
    let there = resolved(base, left);
    assert(there.skip(there.len() - left.len()) == left);
    assert(there.take(base.len() as int) == base);
    let other = resolved(base, right);
    assert(other.skip(other.len() - right.len()) == right);
}

/// The path of a SQLite URL is what follows the scheme, with or without slashes behind it. Other
/// URLs hold no path.
pub proof fn law_sqlite_paths_follow_the_scheme(rest: Seq<char>)
    ensures
        sqlite_path("sqlite://"@ + rest) == Some(rest),
        !text::begins_with(rest, "//"@) ==> sqlite_path("sqlite:"@ + rest) == Some(rest),
        !text::begins_with(rest, "sqlite:"@) ==> sqlite_path(rest) is None,
{
    reveal_strlit("sqlite://");
    reveal_strlit("sqlite:");
    reveal_strlit("//");
    let long = "sqlite://"@ + rest;
    let short = "sqlite:"@ + rest;
    assert(long.take("sqlite://"@.len() as int) == "sqlite://"@);
    assert(long.skip("sqlite://"@.len() as int) == rest);
    assert(short.take("sqlite:"@.len() as int) == "sqlite:"@);
    assert(short.skip("sqlite:"@.len() as int) == rest);
    if text::begins_with(short, "sqlite://"@) {
        assert(short.take("sqlite://"@.len() as int) == "sqlite://"@);
        assert(short[7] == "sqlite://"@[7] && short[8] == "sqlite://"@[8]);
        assert(rest[0] == '/' && rest[1] == '/');
        assert(rest.take("//"@.len() as int) == "//"@);
    }
    if text::begins_with(rest, "sqlite://"@) {
        assert(rest.take("sqlite://"@.len() as int) == "sqlite://"@);
        assert forall|i: int| 0 <= i < 7 implies rest[i] == #[trigger] "sqlite:"@[i] by {
            assert(rest[i] == rest.take("sqlite://"@.len() as int)[i]);
            assert("sqlite://"@[i] == "sqlite:"@[i]);
        }
        assert(rest.take("sqlite:"@.len() as int) == "sqlite:"@);
    }
}

/// A SQLite URL leads to its path as seen from the directory; any other URL stays.
pub proof fn law_urls_lead_to_their_path(base: Seq<char>, url: Seq<char>, path: Seq<char>)
    ensures
        sqlite_path(url) == Some(path) ==> resolved_url(base, url) == "sqlite:"@ + resolved(
            base,
            path,
        ),
        !text::begins_with(url, "sqlite:"@) ==> resolved_url(base, url) == url,
{
    law_sqlite_paths_follow_the_scheme(url);
}

/// By the rules of POSIX there is one place that a path or a URL leads to.
pub proof fn law_posix_leaves_no_choice(
    base: Seq<char>,
    path: Seq<char>,
    left: Seq<char>,
    right: Seq<char>,
)
    ensures
        resolves_to(PathRules::Posix, base, path, left) && resolves_to(
            PathRules::Posix,
            base,
            path,
            right,
        ) ==> left == right,
        resolves_to(PathRules::Posix, base, path, left) <==> left == resolved(base, path),
        url_resolves_to(PathRules::Posix, base, path, left) <==> left == resolved_url(base, path),
{
    if sqlite_path(path) is Some {
        let there = resolved(base, sqlite_path(path)->0);
        let found = "sqlite:"@ + there;
        assert(found.take("sqlite:"@.len() as int) == "sqlite:"@);
        assert(found.skip("sqlite:"@.len() as int) == there);
        if text::begins_with(left, "sqlite:"@) {
            assert(left == left.take("sqlite:"@.len() as int) + left.skip(
                "sqlite:"@.len() as int,
            ));
        }
    }
}

/// On every platform a plain relative path is put behind a plain directory, with one separator
/// between, and stays as it is where there is no directory.
pub proof fn law_platforms_put_paths_behind_directories(
    base: Seq<char>,
    path: Seq<char>,
    found: Seq<char>,
)
    requires
        resolves_to(PathRules::Native, base, path, found),
        path.len() > 0,
        path[0] != '/',
        path[0] != '\\',
        !path.contains(':'),
    ensures
        base.len() == 0 ==> found == path,
        base.len() > 0 && base[0] != '\\' && base.last() != '/' && base.last() != '\\'
            && base.last() != ':' ==> found.len() == base.len() + 1 + path.len() && found.take(
            base.len() as int,
        ) == base && (found[base.len() as int] == '/' || found[base.len() as int] == '\\')
            && found.skip(base.len() as int + 1) == path,
{
    if base.len() > 0 && base[0] != '\\' && base.last() != '/' && base.last() != '\\' && base.last()
        != ':' {
        assert((base.push('/') + path).take(base.len() as int) == base);
        assert((base.push('/') + path).skip(base.len() as int + 1) == path);
        assert((base.push('\\') + path).take(base.len() as int) == base);
        assert((base.push('\\') + path).skip(base.len() as int + 1) == path);
    }
}

/// A setting says something if it holds a character that is no space.
pub proof fn law_settings_say_something(setting: Option<String>)
    ensures
        is_set(setting) <==> setting is Some && exists|i: int|
            0 <= i < setting->0@.len() && !text::is_space(#[trigger] setting->0@[i]),
{
}

/// Reports that are switched on need a node, an endpoint, a token and an interval, and the first
/// that is missing is named. Reports that are switched off need nothing.
pub proof fn law_missing_settings_are_named(config: StatsReportConfig)
    ensures
        report_config_verdict(config) is Ok <==> (config.enabled ==> is_set(config.node_id)
            && is_set(config.endpoint) && is_set(config.token) && config.interval_seconds > 0),
        config.enabled && !is_set(config.node_id) ==> report_config_verdict(config) == Err::<
            (),
            Seq<char>,
        >("stats_report.node_id is required when enabled"@),
        config.enabled && is_set(config.node_id) && !is_set(config.endpoint)
            ==> report_config_verdict(config) == Err::<(), Seq<char>>(
            "stats_report.endpoint is required when enabled"@,
        ),
        config.enabled && is_set(config.node_id) && is_set(config.endpoint) && !is_set(
            config.token,
        ) ==> report_config_verdict(config) == Err::<(), Seq<char>>(
            "stats_report.token is required when enabled"@,
        ),
        config.enabled && is_set(config.node_id) && is_set(config.endpoint) && is_set(config.token)
            && config.interval_seconds == 0 ==> report_config_verdict(config) == Err::<
            (),
            Seq<char>,
        >("stats_report.interval_seconds must be greater than 0"@),
{
}

/// By the rules of POSIX the paths that begin with a slash are the absolute ones, the slash alone
/// among them.
pub proof fn law_paths_from_the_root_are_absolute(base: Seq<char>, rest: Seq<char>)
    ensures
        is_absolute(seq!['/'] + rest),
        resolved(base, seq!['/'] + rest) == seq!['/'] + rest,
        is_absolute(rest) ==> rest == seq!['/'] + rest.skip(1),
        !is_absolute(Seq::empty()),
{
    assert((seq!['/'] + rest)[0] == '/');
    if is_absolute(rest) {
        assert(rest == seq!['/'] + rest.skip(1));
    }
}

} // verus!
