//! Client configuration: which CLI to run, where the protocol schemas are,
//! which server versions are accepted, and the session guards.
use vstd::prelude::*;
use crate::errors::{PromptRunError, RpcError, RuntimeError};
use crate::hooks::RuntimeHookConfig;
use crate::json::str_views;
use crate::text::{
    all_digits, chars_of, digits_value, first_index_of, is_blank, is_ws, lemma_first_index_of, owned,
    string_from_chars, str_eq, trim, trim_str,
};
use crate::wire::{path_exists, resolve_attachment_path, spec_resolve_path};

verus! {

/// Schema directory relative to the working directory.
pub const DEFAULT_SCHEMA_RELATIVE_DIR: &'static str = "SCHEMAS/app-server/active";

/// Environment variable naming the schema directory.
pub const SCHEMA_DIR_ENV: &'static str = "APP_SERVER_SCHEMA_DIR";

/// A `major.minor.patch` version.
#[derive(Clone, Copy, Debug, PartialEq, Eq, Structural)]
pub struct SemVerTriplet {
    pub major: u32,
    pub minor: u32,
    pub patch: u32,
}

impl SemVerTriplet {
    /// A version from its parts.
    pub fn new(major: u32, minor: u32, patch: u32) -> (v: Self)
        ensures
            v.major == major,
            v.minor == minor,
            v.patch == patch,
    {
        SemVerTriplet { major, minor, patch }
    }
}

/// `a` is at least `b`, comparing major, then minor, then patch.
pub open spec fn version_at_least(a: SemVerTriplet, b: SemVerTriplet) -> bool {
    if a.major != b.major {
        a.major > b.major
    } else if a.minor != b.minor {
        a.minor > b.minor
    } else {
        a.patch >= b.patch
    }
}

/// `a` is at least `b` (see `version_at_least`).
pub fn is_version_at_least(a: SemVerTriplet, b: SemVerTriplet) -> (r: bool)
    ensures
        r == version_at_least(a, b),
{
    if a.major != b.major {
        a.major > b.major
    } else if a.minor != b.minor {
        a.minor > b.minor
    } else {
        a.patch >= b.patch
    }
}

/// Which server versions a client accepts.
#[derive(Clone, Copy, Debug, PartialEq, Eq, Structural)]
pub struct CompatibilityGuard {
    pub require_initialize_user_agent: bool,
    pub min_codex_version: Option<SemVerTriplet>,
}

impl Default for CompatibilityGuard {
    /// The user agent is required and must be at least 0.104.0.
    fn default() -> (g: Self)
        ensures
            g.require_initialize_user_agent,
            g.min_codex_version == Some(SemVerTriplet { major: 0, minor: 104, patch: 0 }),
    {
        CompatibilityGuard {
            require_initialize_user_agent: true,
            min_codex_version: Some(SemVerTriplet { major: 0, minor: 104, patch: 0 }),
        }
    }
}

/// Index of the first whitespace character of `s`, or its length.
pub open spec fn token_end(s: Seq<char>) -> int
    decreases s.len(),
{
    if s.len() == 0 {
        0
    } else if is_ws(s[0]) {
        0
    } else {
        1 + token_end(s.drop_first())
    }
}

/// A token ends within its text.
proof fn lemma_token_end_bounds(s: Seq<char>)
    ensures
        0 <= token_end(s) <= s.len(),
    decreases s.len(),
{
    if s.len() > 0 && !is_ws(s[0]) {
        lemma_token_end_bounds(s.drop_first());
    }
}

/// A run of decimal digits whose value fits `u32`.
pub open spec fn parse_u32_part(s: Seq<char>) -> Option<u32> {
    if s.len() > 0 && all_digits(s) && digits_value(s) <= u32::MAX {
        Some(digits_value(s) as u32)
    } else {
        None
    }
}

/// `a.b.c` with three decimal parts that fit `u32`.
pub open spec fn parse_semver(s: Seq<char>) -> Option<SemVerTriplet> {
    match first_index_of(s, '.') {
        None => None,
        Some(i) => {
            let rest = s.subrange(i + 1, s.len() as int);
            match first_index_of(rest, '.') {
                None => None,
                Some(j) => {
                    let a = parse_u32_part(s.subrange(0, i));
                    let b = parse_u32_part(rest.subrange(0, j));
                    let c = parse_u32_part(rest.subrange(j + 1, rest.len() as int));
                    if a is Some && b is Some && c is Some {
                        Some(SemVerTriplet { major: a->0, minor: b->0, patch: c->0 })
                    } else {
                        None
                    }
                },
            }
        },
    }
}

/// Product and version of an initialize `userAgent` such as
/// `Codex Desktop/0.104.0 (Mac OS 26.3.0; arm64)`: the product is the
/// trimmed text before the first `/` and must not be empty; the version is
/// the text after it up to the first whitespace.
pub open spec fn spec_parse_user_agent(ua: Seq<char>) -> Option<(Seq<char>, SemVerTriplet)> {
    match first_index_of(ua, '/') {
        None => None,
        Some(i) => {
            let product = trim(ua.subrange(0, i));
            let rest = ua.subrange(i + 1, ua.len() as int);
            let version = rest.subrange(0, token_end(rest));
            if product.len() == 0 {
                None
            } else {
                match parse_semver(version) {
                    Some(v) => Some((product, v)),
                    None => None,
                }
            }
        },
    }
}

/// Index of the first `c` in `cs[from..]`, if any.
fn find_char(cs: &Vec<char>, from: usize, c: char) -> (r: Option<usize>)
    requires
        from <= cs.len(),
    ensures
        match first_index_of(cs@.subrange(from as int, cs.len() as int), c) {
            Some(i) => r == Some((from + i) as usize),
            None => r is None,
        },
        r matches Some(k) ==> from <= k < cs.len() && cs@[k as int] == c,
    decreases cs.len() - from,
{
    if from == cs.len() {
        return None;
    }
    let ghost s = cs@.subrange(from as int, cs.len() as int);
    assert(s.drop_first() =~= cs@.subrange(from + 1, cs.len() as int));
    proof { lemma_first_index_of(s, c); lemma_first_index_of(s.drop_first(), c); }
    if cs[from] == c {
        Some(from)
    } else {
        let r = find_char(cs, from + 1, c);
        r
    }
}

/// End of the token starting at `from`: the first whitespace or the end.
fn find_token_end(cs: &Vec<char>, from: usize) -> (r: usize)
    requires
        from <= cs.len(),
    ensures
        r == from + token_end(cs@.subrange(from as int, cs.len() as int)),
        r <= cs.len(),
    decreases cs.len() - from,
{
    if from == cs.len() {
        return from;
    }
    let ghost s = cs@.subrange(from as int, cs.len() as int);
    assert(s.drop_first() =~= cs@.subrange(from + 1, cs.len() as int));
    if crate::text::char_is_ws(cs[from]) {
        from
    } else {
        find_token_end(cs, from + 1)
    }
}

/// Value of `cs[from..to]` as a `u32` decimal number.
fn parse_u32_range(cs: &Vec<char>, from: usize, to: usize) -> (r: Option<u32>)
    requires
        from <= to <= cs.len(),
    ensures
        r == parse_u32_part(cs@.subrange(from as int, to as int)),
{
    let ghost s = cs@.subrange(from as int, to as int);
    if from == to {
        return None;
    }
    let mut acc: u64 = 0;
    let mut i: usize = from;
    while i < to
        invariant
            from <= i <= to <= cs.len(),
            s == cs@.subrange(from as int, to as int),
            forall|j: int| 0 <= j < i - from ==> crate::text::is_digit(#[trigger] s[j]),
            acc == digits_value(s.subrange(0, i - from)),
            acc <= u32::MAX,
        decreases to - i,
    {
        let c = cs[i];
        let ghost k: int = i - from;
        assert(s[k] == c);
        if !('0' <= c && c <= '9') {
            assert(!all_digits(s));
            return None;
        }
        let d = crate::text::char_digit_value(c);
        assert(s.subrange(0, k + 1).drop_last() =~= s.subrange(0, k));
        assert(digits_value(s.subrange(0, k + 1)) == acc * 10 + d);
        let next = acc * 10 + d;
        if next > u32::MAX as u64 {
            proof {
                crate::text::lemma_digits_value_prefix_monotone(s, (k + 1) as nat);
            }
            return None;
        }
        acc = next;
        i += 1;
    }
    assert(s.subrange(0, s.len() as int) =~= s);
    Some(acc as u32)
}

/// Product and version of an initialize `userAgent` (see
/// `spec_parse_user_agent`).
#[verifier::spinoff_prover]
#[verifier::rlimit(40)]
pub fn parse_initialize_user_agent(value: &str) -> (r: Option<(String, SemVerTriplet)>)
    ensures
        match spec_parse_user_agent(value@) {
            Some((p, v)) => r matches Some((rp, rv)) && rp@ == p && rv == v,
            None => r is None,
        },
{
    let cs = chars_of(value);
    proof {
        assert(cs@.subrange(0, cs.len() as int) =~= cs@);
    }
    proof { lemma_first_index_of(value@, '/'); }
    let slash = match find_char(&cs, 0, '/') {
        Some(i) => i,
        None => return None,
    };
    let product_raw = string_from_chars(&cs, 0, slash);
    let product = owned(trim_str(product_raw.as_str()));
    let vstart = slash + 1;
    let vend = find_token_end(&cs, vstart);
    let ghost rest = value@.subrange(slash + 1, value@.len() as int);
    assert(cs@.subrange(vstart as int, cs.len() as int) =~= rest);
    proof { lemma_token_end_bounds(rest); }
    let ghost version = rest.subrange(0, token_end(rest));
    assert(version =~= cs@.subrange(vstart as int, vend as int));
    assert(first_index_of(value@, '/') == Some(slash as int));
    assert(product@ == trim(value@.subrange(0, slash as int)));
    if product.as_str().is_empty() {
        return None;
    }
    let vc = sub_chars(&cs, vstart, vend);
    assert(vc@ == version);
    assert(vc@.subrange(0, vc.len() as int) =~= vc@);
    proof { lemma_first_index_of(version, '.'); }
    let i = match find_char(&vc, 0, '.') {
        Some(i) => i,
        None => return None,
    };
    let ghost rest2 = version.subrange(i + 1, version.len() as int);
    assert(vc@.subrange(i + 1, vc.len() as int) =~= rest2);
    proof { lemma_first_index_of(rest2, '.'); }
    let j = match find_char(&vc, i + 1, '.') {
        Some(j) => j,
        None => return None,
    };
    let ghost jr: int = j - (i + 1);
    assert(rest2.subrange(0, jr) =~= vc@.subrange(i + 1, j as int));
    assert(rest2.subrange(jr + 1, rest2.len() as int) =~= vc@.subrange(j + 1, vc.len() as int));
    let a = parse_u32_range(&vc, 0, i);
    let b = parse_u32_range(&vc, i + 1, j);
    let c = parse_u32_range(&vc, j + 1, vc.len());
    match (a, b, c) {
        (Some(major), Some(minor), Some(patch)) => Some((product, SemVerTriplet { major, minor, patch })),
        _ => None,
    }
}

/// The characters `cs[from..to]`.
fn sub_chars(cs: &Vec<char>, from: usize, to: usize) -> (r: Vec<char>)
    requires
        from <= to <= cs.len(),
    ensures
        r@ == cs@.subrange(from as int, to as int),
{
    let mut out: Vec<char> = Vec::new();
    let mut i: usize = from;
    while i < to
        invariant
            from <= i <= to <= cs.len(),
            out@ == cs@.subrange(from as int, i as int),
        decreases to - i,
    {
        out.push(cs[i]);
        assert(out@ =~= cs@.subrange(from as int, i + 1 as int));
        i += 1;
    }
    out
}

/// Where the protocol schemas are looked up first: an explicit directory,
/// else a non-blank environment value (trimmed); `None` means the defaults.
pub open spec fn spec_pick_schema_dir(explicit: Option<Seq<char>>, env_value: Option<Seq<char>>) -> Option<Seq<char>> {
    match explicit {
        Some(p) => Some(p),
        None => match env_value {
            Some(v) => if trim(v).len() > 0 { Some(trim(v)) } else { None },
            None => None,
        },
    }
}

/// The schema directory candidate from configuration and environment (see
/// `spec_pick_schema_dir`).
pub fn pick_schema_dir(explicit: Option<&str>, env_value: Option<&str>) -> (r: Option<String>)
    ensures
        match spec_pick_schema_dir(
            match explicit { Some(p) => Some(p@), None => None },
            match env_value { Some(v) => Some(v@), None => None },
        ) {
            Some(p) => r matches Some(s) && s@ == p,
            None => r is None,
        },
{
    match explicit {
        Some(p) => Some(owned(p)),
        None => match env_value {
            Some(v) => {
                let t = trim_str(v);
                if t.is_empty() {
                    None
                } else {
                    Some(owned(t))
                }
            },
            None => None,
        },
    }
}

/// Failure of a client operation.
#[derive(Debug)]
pub enum ClientError {
    CurrentDir(String),
    SchemaDirNotFound(String),
    SchemaDirNotDirectory(String),
    MissingInitializeUserAgent,
    InvalidInitializeUserAgent(String),
    IncompatibleCodexVersion { detected: String, required: String, user_agent: String },
    CompatibilityValidationWithShutdown { compatibility: Box<ClientError>, shutdown: RuntimeError },
    Runtime(RuntimeError),
}

/// Client configuration.
#[derive(Clone, Debug, PartialEq, Eq)]
pub struct ClientConfig {
    pub cli_bin: String,
    pub schema_dir: Option<String>,
    pub compatibility_guard: CompatibilityGuard,
    pub hooks: RuntimeHookConfig,
}

impl ClientConfig {
    /// The `codex` binary, schema discovery, the default guard, no hooks.
    pub fn new() -> (c: Self)
        ensures
            c.cli_bin@ == "codex"@,
            c.schema_dir is None,
            c.compatibility_guard.require_initialize_user_agent,
            c.compatibility_guard.min_codex_version == Some(SemVerTriplet { major: 0, minor: 104, patch: 0 }),
            c.hooks.pre_hooks@.len() == 0,
            c.hooks.post_hooks@.len() == 0,
    {
        ClientConfig {
            cli_bin: owned("codex"),
            schema_dir: None,
            compatibility_guard: CompatibilityGuard::default(),
            hooks: RuntimeHookConfig::new(),
        }
    }

    /// Sets the CLI binary.
    pub fn with_cli_bin(self, cli_bin: &str) -> (c: Self)
        ensures
            c.cli_bin@ == cli_bin@,
            c.schema_dir == self.schema_dir,
            c.compatibility_guard == self.compatibility_guard,
            c.hooks == self.hooks,
    {
        let mut c = self;
        c.cli_bin = owned(cli_bin);
        c
    }

    /// Sets the schema directory.
    pub fn with_schema_dir(self, schema_dir: &str) -> (c: Self)
        ensures
            c.cli_bin == self.cli_bin,
            c.schema_dir matches Some(d) && d@ == schema_dir@,
            c.compatibility_guard == self.compatibility_guard,
            c.hooks == self.hooks,
    {
        let mut c = self;
        c.schema_dir = Some(owned(schema_dir));
        c
    }

    /// Sets the compatibility guard.
    pub fn with_compatibility_guard(self, guard: CompatibilityGuard) -> (c: Self)
        ensures
            c.cli_bin == self.cli_bin,
            c.schema_dir == self.schema_dir,
            c.compatibility_guard == guard,
            c.hooks == self.hooks,
    {
        let mut c = self;
        c.compatibility_guard = guard;
        c
    }

    /// Turns the compatibility checks off.
    pub fn without_compatibility_guard(self) -> (c: Self)
        ensures
            c.cli_bin == self.cli_bin,
            c.schema_dir == self.schema_dir,
            !c.compatibility_guard.require_initialize_user_agent,
            c.compatibility_guard.min_codex_version is None,
            c.hooks == self.hooks,
    {
        let mut c = self;
        c.compatibility_guard = CompatibilityGuard { require_initialize_user_agent: false, min_codex_version: None };
        c
    }

    /// Replaces the hooks.
    pub fn with_hooks(self, hooks: RuntimeHookConfig) -> (c: Self)
        ensures
            c.cli_bin == self.cli_bin,
            c.schema_dir == self.schema_dir,
            c.compatibility_guard == self.compatibility_guard,
            c.hooks == hooks,
    {
        let mut c = self;
        c.hooks = hooks;
        c
    }

    /// Adds a pre hook.
    pub fn with_pre_hook(self, hook: String) -> (c: Self)
        ensures
            c.cli_bin == self.cli_bin,
            c.schema_dir == self.schema_dir,
            c.compatibility_guard == self.compatibility_guard,
            c.hooks.pre_hooks@ == self.hooks.pre_hooks@.push(hook),
            c.hooks.post_hooks@ == self.hooks.post_hooks@,
    {
        let mut c = self;
        c.hooks.pre_hooks.push(hook);
        c
    }

    /// Adds a post hook.
    pub fn with_post_hook(self, hook: String) -> (c: Self)
        ensures
            c.cli_bin == self.cli_bin,
            c.schema_dir == self.schema_dir,
            c.compatibility_guard == self.compatibility_guard,
            c.hooks.pre_hooks@ == self.hooks.pre_hooks@,
            c.hooks.post_hooks@ == self.hooks.post_hooks@.push(hook),
    {
        let mut c = self;
        c.hooks.post_hooks.push(hook);
        c
    }
}

/// Outcome of checking a schema directory that does (`exists`) or does not
/// exist and is (`is_dir`) or is not a directory.
pub open spec fn schema_dir_outcome(path: Seq<char>, exists: bool, is_dir: bool, r: Result<String, ClientError>) -> bool {
    if !exists {
        r matches Err(ClientError::SchemaDirNotFound(p)) && p@ == path
    } else if !is_dir {
        r matches Err(ClientError::SchemaDirNotDirectory(p)) && p@ == path
    } else {
        r matches Ok(p) && p@ == path
    }
}

/// Accepts a schema directory that exists and is a directory.
pub fn schema_dir_decision(path: &str, exists: bool, is_dir: bool) -> (r: Result<String, ClientError>)
    ensures
        schema_dir_outcome(path@, exists, is_dir, r),
{
    if !exists {
        return Err(ClientError::SchemaDirNotFound(owned(path)));
    }
    if !is_dir {
        return Err(ClientError::SchemaDirNotDirectory(owned(path)));
    }
    Ok(owned(path))
}

/// `std::path::Path::is_dir`. It depends on the file system at the time of
/// the call, so nothing is stated of it.
#[verifier::external_body]
fn path_is_dir(path: &str) -> bool {
    std::path::Path::new(path).is_dir()
}

/// Checks that a schema directory exists and is a directory.
pub fn validate_schema_dir(path: &str) -> (r: Result<String, ClientError>)
    ensures
        exists|e: bool, d: bool| #[trigger] schema_dir_outcome(path@, e, d, r),
{
    let exists = path_exists(path);
    let is_dir = if exists { path_is_dir(path) } else { false };
    let r = schema_dir_decision(path, exists, is_dir);
    assert(schema_dir_outcome(path@, exists, is_dir, r));
    r
}

/// The directory checked when no schema directory is configured: the one
/// under `cwd` when it exists, else the package default when it differs
/// and exists, else the one under `cwd` (which then fails the check).
pub open spec fn spec_default_schema_choice(cwd_default: Seq<char>, package_default: Seq<char>, cwd_exists: bool, package_exists: bool) -> Seq<char> {
    if cwd_exists {
        cwd_default
    } else if package_default != cwd_default && package_exists {
        package_default
    } else {
        cwd_default
    }
}

/// The default schema directory is chosen by existence: the one under the
/// working directory whenever it exists; otherwise the package default
/// when it exists and is another directory; otherwise the one under the
/// working directory, to be reported.
pub proof fn lemma_cwd_schema_dir_is_preferred(cwd_default: Seq<char>, package_default: Seq<char>, cwd_exists: bool, package_exists: bool)
    ensures
        cwd_exists ==> spec_default_schema_choice(cwd_default, package_default, cwd_exists, package_exists) == cwd_default,
        !cwd_exists && package_exists && package_default != cwd_default ==>
            spec_default_schema_choice(cwd_default, package_default, cwd_exists, package_exists) == package_default,
        !cwd_exists && !package_exists ==>
            spec_default_schema_choice(cwd_default, package_default, cwd_exists, package_exists) == cwd_default,
{
}

/// The default schema directory under `cwd`.
pub open spec fn spec_cwd_schema_dir(cwd: Seq<char>) -> Seq<char> {
    spec_resolve_path(cwd, DEFAULT_SCHEMA_RELATIVE_DIR@)
}

/// `b` is an answer of the check `probe` for a path whose text is `path`.
pub open spec fn answers<F: Fn(&str) -> bool>(probe: F, path: Seq<char>, b: bool) -> bool {
    exists|s: &str| s@ == path && #[trigger] call_ensures(probe, (s,), b)
}

/// `r` checks the directory `path` with the answers of `exists_check` and, when
/// it exists, of `is_dir` about it (see `schema_dir_outcome`).
pub open spec fn schema_dir_checked<E: Fn(&str) -> bool, D: Fn(&str) -> bool>(
    path: Seq<char>,
    exists_check: E,
    is_dir: D,
    r: Result<String, ClientError>,
) -> bool {
    exists|e: bool, d: bool| #[trigger] schema_dir_outcome(path, e, d, r)
        && answers(exists_check, path, e) && (e ==> answers(is_dir, path, d))
}

/// `r` resolves the default schema directory with the answers of
/// `exists_check` and `is_dir`: the directory under `cwd` is asked about
/// first and checked when it exists; otherwise the package default, when it
/// is another directory, is asked about and checked when it exists;
/// otherwise the directory under `cwd` is checked.
pub open spec fn default_schema_resolved<E: Fn(&str) -> bool, D: Fn(&str) -> bool>(
    cwd: Seq<char>,
    package_default: Seq<char>,
    exists_check: E,
    is_dir: D,
    r: Result<String, ClientError>,
) -> bool {
    exists|ce: bool| #[trigger] answers(exists_check, spec_cwd_schema_dir(cwd), ce) && if ce {
        schema_dir_checked(spec_cwd_schema_dir(cwd), exists_check, is_dir, r)
    } else if package_default != spec_cwd_schema_dir(cwd) {
        exists|pe: bool| #[trigger] answers(exists_check, package_default, pe) && if pe {
            schema_dir_checked(package_default, exists_check, is_dir, r)
        } else {
            schema_dir_checked(spec_cwd_schema_dir(cwd), exists_check, is_dir, r)
        }
    } else {
        schema_dir_checked(spec_cwd_schema_dir(cwd), exists_check, is_dir, r)
    }
}

/// Whenever the existence check says the directory under `cwd` exists,
/// that directory is the one checked, whatever the package default is;
/// the package default is checked only when the check says the one under
/// `cwd` does not exist and the package default does.
pub proof fn lemma_existing_cwd_schema_dir_wins<E: Fn(&str) -> bool, D: Fn(&str) -> bool>(
    cwd: Seq<char>,
    package_default: Seq<char>,
    exists_check: E,
    is_dir: D,
    r: Result<String, ClientError>,
)
    requires
        default_schema_resolved(cwd, package_default, exists_check, is_dir, r),
    ensures
        (forall|b: bool| #[trigger] answers(exists_check, spec_cwd_schema_dir(cwd), b) ==> b) ==>
            schema_dir_checked(spec_cwd_schema_dir(cwd), exists_check, is_dir, r),
        (forall|b: bool| #[trigger] answers(exists_check, spec_cwd_schema_dir(cwd), b) ==> !b)
            && package_default != spec_cwd_schema_dir(cwd)
            && (forall|b: bool| #[trigger] answers(exists_check, package_default, b) ==> b) ==>
            schema_dir_checked(package_default, exists_check, is_dir, r),
{
}

/// Checks the directory `path` with the checks `exists_check` and `is_dir`.
pub fn validate_schema_dir_with<E: Fn(&str) -> bool, D: Fn(&str) -> bool>(path: &str, exists_check: &E, is_dir: &D) -> (r: Result<String, ClientError>)
    requires
        forall|s: &str| call_requires(*exists_check, (s,)),
        forall|s: &str| call_requires(*is_dir, (s,)),
    ensures
        schema_dir_checked(path@, *exists_check, *is_dir, r),
{
    let e = exists_check(path);
    let d = if e { is_dir(path) } else { false };
    let r = schema_dir_decision(path, e, d);
    assert(schema_dir_outcome(path@, e, d, r));
    assert(call_ensures(*exists_check, (path,), e));
    r
}

/// The default schema directory checked with the checks `exists_check` and
/// `is_dir`: the directory under `cwd` is asked about first, and when it
/// exists it is the one checked; otherwise the package default, when it
/// is another directory, is asked about, and checked when it exists;
/// otherwise the directory under `cwd` is checked (and reported).
pub fn resolve_default_schema_dir_with<E: Fn(&str) -> bool, D: Fn(&str) -> bool>(
    cwd: &str,
    package_default: &str,
    exists_check: &E,
    is_dir: &D,
) -> (r: Result<String, ClientError>)
    requires
        forall|s: &str| call_requires(*exists_check, (s,)),
        forall|s: &str| call_requires(*is_dir, (s,)),
    ensures
        default_schema_resolved(cwd@, package_default@, *exists_check, *is_dir, r),
{
    let cwd_default = resolve_attachment_path(cwd, DEFAULT_SCHEMA_RELATIVE_DIR);
    let cd = cwd_default.as_str();
    let ce = exists_check(cd);
    assert(answers(*exists_check, spec_cwd_schema_dir(cwd@), ce));
    if ce {
        return validate_schema_dir_with(cd, exists_check, is_dir);
    }
    if !str_eq(package_default, cd) {
        let pe = exists_check(package_default);
        assert(answers(*exists_check, package_default@, pe));
        if pe {
            return validate_schema_dir_with(package_default, exists_check, is_dir);
        }
    }
    validate_schema_dir_with(cd, exists_check, is_dir)
}

/// Resolves and checks the default schema directory on disk (see
/// `resolve_default_schema_dir_with` and `spec_default_schema_choice`).
pub fn resolve_default_schema_dir(cwd: &str, package_default: &str) -> (r: Result<String, ClientError>)
    ensures
        exists|ce: bool, pe: bool, e: bool, d: bool| #[trigger] schema_dir_outcome(
            spec_default_schema_choice(spec_cwd_schema_dir(cwd@), package_default@, ce, pe), e, d, r),
{
    let on_disk = |p: &str| -> (b: bool) { path_exists(p) };
    let dir_on_disk = |p: &str| -> (b: bool) { path_is_dir(p) };
    let r = resolve_default_schema_dir_with(cwd, package_default, &on_disk, &dir_on_disk);
    proof {
        let cd = spec_cwd_schema_dir(cwd@);
        let ce = choose|ce: bool| #[trigger] answers(on_disk, cd, ce) && if ce {
            schema_dir_checked(cd, on_disk, dir_on_disk, r)
        } else if package_default@ != cd {
            exists|pe: bool| #[trigger] answers(on_disk, package_default@, pe) && if pe {
                schema_dir_checked(package_default@, on_disk, dir_on_disk, r)
            } else {
                schema_dir_checked(cd, on_disk, dir_on_disk, r)
            }
        } else {
            schema_dir_checked(cd, on_disk, dir_on_disk, r)
        };
        if ce {
            let (e, d) = choose|e: bool, d: bool| #[trigger] schema_dir_outcome(cd, e, d, r)
                && answers(on_disk, cd, e) && (e ==> answers(dir_on_disk, cd, d));
            assert(schema_dir_outcome(spec_default_schema_choice(cd, package_default@, true, false), e, d, r));
        } else if package_default@ != cd {
            let pe = choose|pe: bool| #[trigger] answers(on_disk, package_default@, pe) && if pe {
                schema_dir_checked(package_default@, on_disk, dir_on_disk, r)
            } else {
                schema_dir_checked(cd, on_disk, dir_on_disk, r)
            };
            let p = spec_default_schema_choice(cd, package_default@, false, pe);
            let (e, d) = choose|e: bool, d: bool| #[trigger] schema_dir_outcome(p, e, d, r)
                && answers(on_disk, p, e) && (e ==> answers(dir_on_disk, p, d));
            assert(schema_dir_outcome(p, e, d, r));
        } else {
            let (e, d) = choose|e: bool, d: bool| #[trigger] schema_dir_outcome(cd, e, d, r)
                && answers(on_disk, cd, e) && (e ==> answers(dir_on_disk, cd, d));
            assert(schema_dir_outcome(spec_default_schema_choice(cd, package_default@, false, false), e, d, r));
        }
    }
    r
}

/// Refuses a prompt on a closed session.
pub fn ensure_session_open_for_prompt(closed: bool) -> (r: Result<(), PromptRunError>)
    ensures
        closed ==> (r matches Err(PromptRunError::Rpc(RpcError::InvalidRequest(m))) && m@ == "session is closed"@),
        !closed ==> r is Ok,
{
    if closed {
        return Err(PromptRunError::Rpc(RpcError::InvalidRequest(owned("session is closed"))));
    }
    Ok(())
}

/// Refuses an RPC on a closed session.
pub fn ensure_session_open_for_rpc(closed: bool) -> (r: Result<(), RpcError>)
    ensures
        closed ==> (r matches Err(RpcError::InvalidRequest(m)) && m@ == "session is closed"@),
        !closed ==> r is Ok,
{
    if closed {
        return Err(RpcError::InvalidRequest(owned("session is closed")));
    }
    Ok(())
}

} // verus!
