use vstd::prelude::*;
use crate::config::{ConfigTable, ConfigValue, str_field, int_field, millis_field};

verus! {

/// The storage backends that this build can construct.
#[derive(Clone, Copy, PartialEq, Eq, Structural, Debug)]
pub enum Backend {
    Azblob,
    Azdls,
    Dashmap,
    Fs,
    Ftp,
    Gcs,
    Ghac,
    Ipfs,
    Ipmfs,
    Memcached,
    Memory,
    Moka,
    Obs,
    Oss,
    S3,
    Sled,
    Webdav,
    Webhdfs,
}

/// The backend that a scheme identifier selects; `None` for a scheme that no
/// backend of this build serves (`redis` is not built in).
pub open spec fn backend_of(scheme: Seq<char>) -> Option<Backend> {
    if scheme == "azblob"@ {
        Some(Backend::Azblob)
    } else if scheme == "azdfs"@ {
        Some(Backend::Azdls)
    } else if scheme == "dashmap"@ {
        Some(Backend::Dashmap)
    } else if scheme == "fs"@ {
        Some(Backend::Fs)
    } else if scheme == "ftp"@ {
        Some(Backend::Ftp)
    } else if scheme == "gcs"@ {
        Some(Backend::Gcs)
    } else if scheme == "ghac"@ {
        Some(Backend::Ghac)
    } else if scheme == "ipfs"@ {
        Some(Backend::Ipfs)
    } else if scheme == "ipmfs"@ {
        Some(Backend::Ipmfs)
    } else if scheme == "memcached"@ {
        Some(Backend::Memcached)
    } else if scheme == "memory"@ {
        Some(Backend::Memory)
    } else if scheme == "moka"@ {
        Some(Backend::Moka)
    } else if scheme == "obs"@ {
        Some(Backend::Obs)
    } else if scheme == "oss"@ {
        Some(Backend::Oss)
    } else if scheme == "s3"@ || scheme == "minio"@ {
        Some(Backend::S3)
    } else if scheme == "sled"@ {
        Some(Backend::Sled)
    } else if scheme == "webdav"@ {
        Some(Backend::Webdav)
    } else if scheme == "webhdfs"@ {
        Some(Backend::Webhdfs)
    } else {
        None
    }
}

/// The service name under which the storage library knows a backend.
pub open spec fn service_name(b: Backend) -> Seq<char> {
    match b {
        Backend::Azblob => "azblob"@,
        Backend::Azdls => "azdls"@,
        Backend::Dashmap => "dashmap"@,
        Backend::Fs => "fs"@,
        Backend::Ftp => "ftp"@,
        Backend::Gcs => "gcs"@,
        Backend::Ghac => "ghac"@,
        Backend::Ipfs => "ipfs"@,
        Backend::Ipmfs => "ipmfs"@,
        Backend::Memcached => "memcached"@,
        Backend::Memory => "memory"@,
        Backend::Moka => "moka"@,
        Backend::Obs => "obs"@,
        Backend::Oss => "oss"@,
        Backend::S3 => "s3"@,
        Backend::Sled => "sled"@,
        Backend::Webdav => "webdav"@,
        Backend::Webhdfs => "webhdfs"@,
    }
}

/// Whether a backend takes a password from the secret resolver.
pub open spec fn uses_password(b: Backend) -> bool {
    b == Backend::Ftp || b == Backend::Webdav
}

/// Whether a backend keeps its data in process memory and builds from any
/// options.
pub open spec fn in_process(b: Backend) -> bool {
    b == Backend::Memory || b == Backend::Dashmap
}

/// Option pairs as text.
pub open spec fn options_view(v: Seq<(String, String)>) -> Seq<(Seq<char>, Seq<char>)> {
    v.map_values(|p: (String, String)| (p.0@, p.1@))
}

/// The option `opt` with the string that the table holds under `field`, if any.
pub open spec fn text_opt(
    cfg: Seq<(String, ConfigValue)>,
    field: Seq<char>,
    opt: Seq<char>,
) -> Seq<(Seq<char>, Seq<char>)> {
    match str_field(cfg, field) {
        Some(v) => seq![(opt, v)],
        None => seq![],
    }
}

/// The option `opt` with the string under `first`, or else under `second`.
pub open spec fn text_opt_either(
    cfg: Seq<(String, ConfigValue)>,
    first: Seq<char>,
    second: Seq<char>,
    opt: Seq<char>,
) -> Seq<(Seq<char>, Seq<char>)> {
    match str_field(cfg, first) {
        Some(v) => seq![(opt, v)],
        None => text_opt(cfg, second, opt),
    }
}

/// The option `opt`, always present: the string under `field`, or empty text.
pub open spec fn required_opt(
    cfg: Seq<(String, ConfigValue)>,
    field: Seq<char>,
    opt: Seq<char>,
) -> Seq<(Seq<char>, Seq<char>)> {
    match str_field(cfg, field) {
        Some(v) => seq![(opt, v)],
        None => seq![(opt, Seq::empty())],
    }
}

/// Decimal digits of a natural number, most significant first.
pub open spec fn digits(n: nat) -> Seq<char>
    decreases n,
{
    let d = (n % 10) as u8;
    let c = (('0' as u8) + d) as char;
    if n < 10 {
        seq![c]
    } else {
        digits(n / 10).push(c)
    }
}

/// Decimal text of an integer, with a leading `-` when it is negative.
pub open spec fn decimal_text(n: int) -> Seq<char> {
    if n < 0 {
        seq!['-'] + digits((-n) as nat)
    } else {
        digits(n as nat)
    }
}

/// The option `opt` with the integer under `field` in decimal, where it lies
/// in `least ..= most`.
pub open spec fn count_opt(
    cfg: Seq<(String, ConfigValue)>,
    field: Seq<char>,
    opt: Seq<char>,
    least: int,
    most: int,
) -> Seq<(Seq<char>, Seq<char>)> {
    match int_field(cfg, field) {
        Some(n) => if least <= n <= most {
            seq![(opt, decimal_text(n))]
        } else {
            seq![]
        },
        None => seq![],
    }
}

/// The password option, where a secret was resolved.
pub open spec fn secret_opt(password: Option<Seq<char>>) -> Seq<(Seq<char>, Seq<char>)> {
    match password {
        Some(p) => seq![("password"@, p)],
        None => seq![],
    }
}

/// The options handed to the storage library for backend `b`: each field of
/// the configuration that the backend reads, under the option name the
/// library uses, in this order; absent fields give no option.
/// Durations are not among them: they go to the builders' typed setters (see
/// `plan_times`).
pub open spec fn plan_options(
    b: Backend,
    cfg: Seq<(String, ConfigValue)>,
    password: Option<Seq<char>>,
) -> Seq<(Seq<char>, Seq<char>)> {
    let e = Seq::<(Seq<char>, Seq<char>)>::empty();
    match b {
        Backend::Azblob => e + required_opt(cfg, "container"@, "container"@) + text_opt(
            cfg,
            "root"@,
            "root"@,
        ) + text_opt(cfg, "endpoint"@, "endpoint"@) + text_opt(cfg, "account-name"@, "account_name"@)
            + text_opt(cfg, "account-key"@, "account_key"@) + text_opt(
            cfg,
            "sas-token"@,
            "sas_token"@,
        ),
        Backend::Azdls => e + required_opt(cfg, "filesystem"@, "filesystem"@) + text_opt(
            cfg,
            "root"@,
            "root"@,
        ) + text_opt(cfg, "endpoint"@, "endpoint"@) + text_opt(cfg, "account-name"@, "account_name"@)
            + text_opt(cfg, "account-key"@, "account_key"@),
        Backend::Dashmap => e,
        Backend::Fs => e + text_opt(cfg, "root"@, "root"@) + text_opt(
            cfg,
            "atomic-write-dir"@,
            "atomic_write_dir"@,
        ),
        Backend::Ftp => e + text_opt(cfg, "root"@, "root"@) + text_opt(cfg, "endpoint"@, "endpoint"@)
            + text_opt(cfg, "user"@, "user"@) + secret_opt(password),
        Backend::Gcs => e + text_opt(cfg, "root"@, "root"@) + text_opt(cfg, "bucket"@, "bucket"@)
            + text_opt(cfg, "endpoint"@, "endpoint"@) + text_opt(
            cfg,
            "service-account"@,
            "service_account"@,
        ) + text_opt(cfg, "credential"@, "credential"@) + text_opt(
            cfg,
            "credential-path"@,
            "credential_path"@,
        ),
        Backend::Ghac => e + text_opt(cfg, "root"@, "root"@) + text_opt(cfg, "version"@, "version"@),
        Backend::Ipfs => e + text_opt(cfg, "root"@, "root"@) + text_opt(cfg, "endpoint"@, "endpoint"@),
        Backend::Ipmfs => e + text_opt(cfg, "root"@, "root"@) + text_opt(
            cfg,
            "endpoint"@,
            "endpoint"@,
        ),
        Backend::Memcached => e + text_opt(cfg, "root"@, "root"@) + text_opt(
            cfg,
            "endpoint"@,
            "endpoint"@,
        ),
        Backend::Memory => e,
        Backend::Moka => e + text_opt(cfg, "name"@, "name"@) + count_opt(
            cfg,
            "max-capacity"@,
            "max_capacity"@,
            1,
            u64::MAX as int,
        ) + count_opt(cfg, "segments"@, "num_segments"@, 1, usize::MAX as int),
        Backend::Obs => e + text_opt(cfg, "root"@, "root"@) + text_opt(cfg, "bucket"@, "bucket"@)
            + text_opt(cfg, "endpoint"@, "endpoint"@) + text_opt(
            cfg,
            "access-key-id"@,
            "access_key_id"@,
        ) + text_opt_either(cfg, "secret_access_key"@, "secret-access-key"@, "secret_access_key"@),
        Backend::Oss => e + text_opt(cfg, "root"@, "root"@) + text_opt(cfg, "bucket"@, "bucket"@)
            + text_opt(cfg, "endpoint"@, "endpoint"@) + text_opt(
            cfg,
            "presign-endpoint"@,
            "presign_endpoint"@,
        ) + text_opt(cfg, "access-key-id"@, "access_key_id"@) + text_opt(
            cfg,
            "access-key-secret"@,
            "access_key_secret"@,
        ),
        Backend::S3 => e + text_opt(cfg, "root"@, "root"@) + text_opt(cfg, "bucket"@, "bucket"@)
            + text_opt(cfg, "endpoint"@, "endpoint"@) + text_opt(cfg, "region"@, "region"@)
            + text_opt(cfg, "access-key-id"@, "access_key_id"@) + text_opt(
            cfg,
            "secret-access-key"@,
            "secret_access_key"@,
        ) + text_opt(cfg, "role-arn"@, "role_arn"@) + text_opt(cfg, "external-id"@, "external_id"@),
        Backend::Sled => e + text_opt(cfg, "data-dir"@, "datadir"@),
        Backend::Webdav => e + text_opt(cfg, "root"@, "root"@) + text_opt(
            cfg,
            "endpoint"@,
            "endpoint"@,
        ) + text_opt(cfg, "username"@, "username"@) + secret_opt(password),
        Backend::Webhdfs => e + text_opt(cfg, "root"@, "root"@) + text_opt(
            cfg,
            "endpoint"@,
            "endpoint"@,
        ) + text_opt(cfg, "delegation"@, "delegation"@),
    }
}

/// The longest cache expiration, in milliseconds, that the moka cache
/// accepts: a thousand years of 365 days.
pub const MAX_EXPIRATION_MILLIS: u64 = 31_536_000_000_000;

/// The duration under `field`, where it is at most `most` milliseconds.
pub open spec fn millis_opt(cfg: Seq<(String, ConfigValue)>, field: Seq<char>, most: int) -> Option<
    int,
> {
    match millis_field(cfg, field) {
        Some(n) => if n <= most {
            Some(n)
        } else {
            None
        },
        None => None,
    }
}

/// The expirations of a plan, in milliseconds: time to live (the default TTL
/// of memcached) and time to idle. Only moka and memcached read them.
pub open spec fn plan_times(b: Backend, cfg: Seq<(String, ConfigValue)>) -> (
    Option<int>,
    Option<int>,
) {
    match b {
        Backend::Moka => (
            millis_opt(cfg, "time-to-live"@, MAX_EXPIRATION_MILLIS as int),
            millis_opt(cfg, "time-to-idle"@, MAX_EXPIRATION_MILLIS as int),
        ),
        Backend::Memcached => (millis_opt(cfg, "default-ttl"@, u64::MAX as int), None),
        _ => (None, None),
    }
}

/// An optional count as an integer.
pub open spec fn opt_int(o: Option<u64>) -> Option<int> {
    match o {
        Some(n) => Some(n as int),
        None => None,
    }
}

/// What a backend is built from: the backend, its options, and its
/// expirations in milliseconds.
#[derive(Debug)]
pub struct BackendPlan {
    pub backend: Backend,
    pub options: Vec<(String, String)>,
    pub time_to_live: Option<u64>,
    pub time_to_idle: Option<u64>,
}

impl BackendPlan {
    /// Whether the expirations are those that `plan_times` gives.
    pub open spec fn times_match(&self, cfg: Seq<(String, ConfigValue)>) -> bool {
        plan_times(self.backend, cfg) == (opt_int(self.time_to_live), opt_int(self.time_to_idle))
    }
}

/// The plan for `scheme`, or `None` where no backend of this build serves it.
pub open spec fn plan_spec(
    scheme: Seq<char>,
    cfg: Seq<(String, ConfigValue)>,
    password: Option<Seq<char>>,
) -> Option<(Backend, Seq<(Seq<char>, Seq<char>)>)> {
    match backend_of(scheme) {
        Some(b) => Some((b, plan_options(b, cfg, password))),
        None => None,
    }
}

/// Relies on the standard library's `Display` for `i64` (through `to_string`):
/// the decimal representation, with a `-` sign for negative values.
#[verifier::external_body]
fn decimal(n: i64) -> (r: String)
    ensures
        r@ == decimal_text(n as int),
{
    n.to_string()
}

/// Whether `s` is the text of literal `lit`.
fn is(s: &String, lit: &str) -> (r: bool)
    ensures
        r == (s@ == lit@),
{
    let l = lit.to_owned();
    *s == l
}

/// The backend that `scheme` selects.
pub fn backend_for(scheme: &str) -> (r: Option<Backend>)
    ensures
        r == backend_of(scheme@),
{
    let s = scheme.to_owned();
    if is(&s, "azblob") {
        Some(Backend::Azblob)
    } else if is(&s, "azdfs") {
        Some(Backend::Azdls)
    } else if is(&s, "dashmap") {
        Some(Backend::Dashmap)
    } else if is(&s, "fs") {
        Some(Backend::Fs)
    } else if is(&s, "ftp") {
        Some(Backend::Ftp)
    } else if is(&s, "gcs") {
        Some(Backend::Gcs)
    } else if is(&s, "ghac") {
        Some(Backend::Ghac)
    } else if is(&s, "ipfs") {
        Some(Backend::Ipfs)
    } else if is(&s, "ipmfs") {
        Some(Backend::Ipmfs)
    } else if is(&s, "memcached") {
        Some(Backend::Memcached)
    } else if is(&s, "memory") {
        Some(Backend::Memory)
    } else if is(&s, "moka") {
        Some(Backend::Moka)
    } else if is(&s, "obs") {
        Some(Backend::Obs)
    } else if is(&s, "oss") {
        Some(Backend::Oss)
    } else if is(&s, "s3") || is(&s, "minio") {
        Some(Backend::S3)
    } else if is(&s, "sled") {
        Some(Backend::Sled)
    } else if is(&s, "webdav") {
        Some(Backend::Webdav)
    } else if is(&s, "webhdfs") {
        Some(Backend::Webhdfs)
    } else {
        None
    }
}

impl Backend {
    /// Whether this backend takes a password from the secret resolver, so
    /// that the resolver needs to be consulted for it.
    pub fn takes_password(&self) -> (r: bool)
        ensures
            r == uses_password(*self),
    {
        match self {
            Backend::Ftp | Backend::Webdav => true,
            _ => false,
        }
    }

    /// The service name under which the storage library knows this backend.
    pub fn name(&self) -> (r: &'static str)
        ensures
            r@ == service_name(*self),
    {
        match self {
            Backend::Azblob => "azblob",
            Backend::Azdls => "azdls",
            Backend::Dashmap => "dashmap",
            Backend::Fs => "fs",
            Backend::Ftp => "ftp",
            Backend::Gcs => "gcs",
            Backend::Ghac => "ghac",
            Backend::Ipfs => "ipfs",
            Backend::Ipmfs => "ipmfs",
            Backend::Memcached => "memcached",
            Backend::Memory => "memory",
            Backend::Moka => "moka",
            Backend::Obs => "obs",
            Backend::Oss => "oss",
            Backend::S3 => "s3",
            Backend::Sled => "sled",
            Backend::Webdav => "webdav",
            Backend::Webhdfs => "webhdfs",
        }
    }
}

fn push_pair(opts: &mut Vec<(String, String)>, key: &str, value: String)
    ensures
        options_view(final(opts)@) == options_view(old(opts)@) + seq![(key@, value@)],
{
    let k = key.to_owned();
    let ghost v = value@;
    opts.push((k, value));
    assert(options_view(final(opts)@) =~= options_view(old(opts)@) + seq![(key@, v)]);
}

fn push_text(opts: &mut Vec<(String, String)>, cfg: &ConfigTable, field: &str, opt: &str)
    ensures
        options_view(final(opts)@) == options_view(old(opts)@) + text_opt(cfg.entries@, field@, opt@),
{
    match cfg.get_str(field) {
        Some(v) => push_pair(opts, opt, v),
        None => {
            assert(options_view(old(opts)@) + seq![] =~= options_view(old(opts)@));
        },
    }
}

fn push_text_either(
    opts: &mut Vec<(String, String)>,
    cfg: &ConfigTable,
    first: &str,
    second: &str,
    opt: &str,
)
    ensures
        options_view(final(opts)@) == options_view(old(opts)@) + text_opt_either(
            cfg.entries@,
            first@,
            second@,
            opt@,
        ),
{
    match cfg.get_str(first) {
        Some(v) => push_pair(opts, opt, v),
        None => push_text(opts, cfg, second, opt),
    }
}

fn push_required(opts: &mut Vec<(String, String)>, cfg: &ConfigTable, field: &str, opt: &str)
    ensures
        options_view(final(opts)@) == options_view(old(opts)@) + required_opt(
            cfg.entries@,
            field@,
            opt@,
        ),
{
    match cfg.get_str(field) {
        Some(v) => push_pair(opts, opt, v),
        None => push_pair(opts, opt, String::new()),
    }
}

fn push_count(
    opts: &mut Vec<(String, String)>,
    cfg: &ConfigTable,
    field: &str,
    opt: &str,
    least: i64,
    most: u64,
)
    requires
        least >= 0,
    ensures
        options_view(final(opts)@) == options_view(old(opts)@) + count_opt(
            cfg.entries@,
            field@,
            opt@,
            least as int,
            most as int,
        ),
{
    match cfg.get_i64(field) {
        Some(n) => {
            if least <= n && (n as u64) <= most {
                push_pair(opts, opt, decimal(n));
            } else {
                assert(options_view(old(opts)@) + seq![] =~= options_view(old(opts)@));
            }
        },
        None => {
            assert(options_view(old(opts)@) + seq![] =~= options_view(old(opts)@));
        },
    }
}

fn push_secret(opts: &mut Vec<(String, String)>, password: Option<&str>)
    ensures
        options_view(final(opts)@) == options_view(old(opts)@) + secret_opt(
            match password {
                Some(p) => Some(p@),
                None => None,
            },
        ),
{
    match password {
        Some(p) => push_pair(opts, "password", p.to_owned()),
        None => {
            assert(options_view(old(opts)@) + seq![] =~= options_view(old(opts)@));
        },
    }
}

fn millis_at_most(cfg: &ConfigTable, field: &str, most: u64) -> (r: Option<u64>)
    ensures
        opt_int(r) == millis_opt(cfg.entries@, field@, most as int),
{
    match cfg.get_millis(field) {
        Some(n) => if n <= most {
            Some(n)
        } else {
            None
        },
        None => None,
    }
}

/// The view of an optional borrowed text.
pub open spec fn opt_text(p: Option<&str>) -> Option<Seq<char>> {
    match p {
        Some(s) => Some(s@),
        None => None,
    }
}

impl BackendPlan {
    /// The plan for `scheme` over `config`, where `password` is the secret
    /// resolved for it; `None` where no backend of this build serves the
    /// scheme.
    pub fn for_scheme(scheme: &str, config: &ConfigTable, password: Option<&str>) -> (r: Option<
        BackendPlan,
    >)
        ensures
            match r {
                Some(p) => plan_spec(scheme@, config.entries@, opt_text(password)) == Some(
                    (p.backend, options_view(p.options@)),
                ) && p.times_match(config.entries@),
                None => plan_spec(scheme@, config.entries@, opt_text(password)) is None,
            },
    {
        let b = match backend_for(scheme) {
            Some(b) => b,
            None => {
                return None;
            },
        };
        let mut o: Vec<(String, String)> = Vec::new();
        proof {
            assert(options_view(o@) =~= Seq::<(Seq<char>, Seq<char>)>::empty());
        }
        let c = config;
        match b {
            Backend::Azblob => {
                push_required(&mut o, c, "container", "container");
                push_text(&mut o, c, "root", "root");
                push_text(&mut o, c, "endpoint", "endpoint");
                push_text(&mut o, c, "account-name", "account_name");
                push_text(&mut o, c, "account-key", "account_key");
                push_text(&mut o, c, "sas-token", "sas_token");
            },
            Backend::Azdls => {
                push_required(&mut o, c, "filesystem", "filesystem");
                push_text(&mut o, c, "root", "root");
                push_text(&mut o, c, "endpoint", "endpoint");
                push_text(&mut o, c, "account-name", "account_name");
                push_text(&mut o, c, "account-key", "account_key");
            },
            Backend::Dashmap => {},
            Backend::Fs => {
                push_text(&mut o, c, "root", "root");
                push_text(&mut o, c, "atomic-write-dir", "atomic_write_dir");
            },
            Backend::Ftp => {
                push_text(&mut o, c, "root", "root");
                push_text(&mut o, c, "endpoint", "endpoint");
                push_text(&mut o, c, "user", "user");
                push_secret(&mut o, password);
            },
            Backend::Gcs => {
                push_text(&mut o, c, "root", "root");
                push_text(&mut o, c, "bucket", "bucket");
                push_text(&mut o, c, "endpoint", "endpoint");
                push_text(&mut o, c, "service-account", "service_account");
                push_text(&mut o, c, "credential", "credential");
                push_text(&mut o, c, "credential-path", "credential_path");
            },
            Backend::Ghac => {
                push_text(&mut o, c, "root", "root");
                push_text(&mut o, c, "version", "version");
            },
            Backend::Ipfs | Backend::Ipmfs | Backend::Memcached => {
                push_text(&mut o, c, "root", "root");
                push_text(&mut o, c, "endpoint", "endpoint");
            },
            Backend::Memory => {},
            Backend::Moka => {
                push_text(&mut o, c, "name", "name");
                push_count(&mut o, c, "max-capacity", "max_capacity", 1, u64::MAX);
                push_count(&mut o, c, "segments", "num_segments", 1, usize::MAX as u64);
            },
            Backend::Obs => {
                push_text(&mut o, c, "root", "root");
                push_text(&mut o, c, "bucket", "bucket");
                push_text(&mut o, c, "endpoint", "endpoint");
                push_text(&mut o, c, "access-key-id", "access_key_id");
                push_text_either(&mut o, c, "secret_access_key", "secret-access-key", "secret_access_key");
            },
            Backend::Oss => {
                push_text(&mut o, c, "root", "root");
                push_text(&mut o, c, "bucket", "bucket");
                push_text(&mut o, c, "endpoint", "endpoint");
                push_text(&mut o, c, "presign-endpoint", "presign_endpoint");
                push_text(&mut o, c, "access-key-id", "access_key_id");
                push_text(&mut o, c, "access-key-secret", "access_key_secret");
            },
            Backend::S3 => {
                push_text(&mut o, c, "root", "root");
                push_text(&mut o, c, "bucket", "bucket");
                push_text(&mut o, c, "endpoint", "endpoint");
                push_text(&mut o, c, "region", "region");
                push_text(&mut o, c, "access-key-id", "access_key_id");
                push_text(&mut o, c, "secret-access-key", "secret_access_key");
                push_text(&mut o, c, "role-arn", "role_arn");
                push_text(&mut o, c, "external-id", "external_id");
            },
            Backend::Sled => {
                push_text(&mut o, c, "data-dir", "datadir");
            },
            Backend::Webdav => {
                push_text(&mut o, c, "root", "root");
                push_text(&mut o, c, "endpoint", "endpoint");
                push_text(&mut o, c, "username", "username");
                push_secret(&mut o, password);
            },
            Backend::Webhdfs => {
                push_text(&mut o, c, "root", "root");
                push_text(&mut o, c, "endpoint", "endpoint");
                push_text(&mut o, c, "delegation", "delegation");
            },
        }
        let (ttl, tti) = match b {
            Backend::Moka => (
                millis_at_most(c, "time-to-live", MAX_EXPIRATION_MILLIS),
                millis_at_most(c, "time-to-idle", MAX_EXPIRATION_MILLIS),
            ),
            Backend::Memcached => (millis_at_most(c, "default-ttl", u64::MAX), None),
            _ => (None, None),
        };
        Some(BackendPlan { backend: b, options: o, time_to_live: ttl, time_to_idle: tti })
    }
}

} // verus!
