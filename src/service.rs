use vstd::prelude::*;
use crate::plan::{Backend, decimal_text, plan_options, service_name, count_opt, text_opt};
use crate::config::ConfigValue;

verus! {

/// A storage operator of the storage library; it is opaque here.
#[verifier::external_type_specification]
#[verifier::external_body]
pub struct ExOperator(opendal::Operator);

/// An error of the storage library.
#[verifier::external_type_specification]
#[verifier::external_body]
pub struct ExError(opendal::Error);

/// The moka backend's builder.
#[verifier::external_type_specification]
#[verifier::external_body]
pub struct ExMoka(opendal::services::Moka);

/// The memcached backend's builder.
#[verifier::external_type_specification]
#[verifier::external_body]
pub struct ExMemcached(opendal::services::Memcached);

/// Options that moka's map constructor reads without panicking: its name and
/// its two counts, each count in decimal within its type (`num_segments` at
/// least one, as the cache's segment count must not be zero).
pub open spec fn moka_options_accepted(o: Seq<(Seq<char>, Seq<char>)>) -> bool {
    forall|i: int|
        0 <= i < o.len() ==> {
            &&& o[i].0 == "name"@ || o[i].0 == "max_capacity"@ || o[i].0 == "num_segments"@
            &&& o[i].0 == "max_capacity"@ ==> exists|n: int|
                0 <= n <= u64::MAX && o[i].1 == decimal_text(n)
            &&& o[i].0 == "num_segments"@ ==> exists|n: int|
                1 <= n <= usize::MAX && o[i].1 == decimal_text(n)
        }
}

/// Options that memcached's map constructor reads without panicking: text
/// options only.
pub open spec fn memcached_options_accepted(o: Seq<(Seq<char>, Seq<char>)>) -> bool {
    forall|i: int| 0 <= i < o.len() ==> o[i].0 == "root"@ || o[i].0 == "endpoint"@
}

/// Relies on `<opendal::services::Moka as opendal::Builder>::from_map`: a
/// builder configured by the options. It deserializes them with `expect`,
/// and its `build` panics on zero segments; the `requires` rules out both.
#[verifier::external_body]
pub(crate) fn moka_builder(options: &Vec<(String, String)>) -> opendal::services::Moka
    requires
        moka_options_accepted(crate::plan::options_view(options@)),
{
    <opendal::services::Moka as opendal::Builder>::from_map(options.iter().cloned().collect())
}

/// Relies on `opendal::services::Moka::time_to_live`: sets the time to live
/// (a zero duration leaves it unset). moka panics at build time beyond a
/// thousand years, which the `requires` rules out.
#[verifier::external_body]
pub(crate) fn moka_time_to_live(b: &mut opendal::services::Moka, millis: u64)
    requires
        millis <= crate::plan::MAX_EXPIRATION_MILLIS,
{
    b.time_to_live(std::time::Duration::from_millis(millis));
}

/// Relies on `opendal::services::Moka::time_to_idle`: sets the time to idle
/// (a zero duration leaves it unset). moka panics at build time beyond a
/// thousand years, which the `requires` rules out.
#[verifier::external_body]
pub(crate) fn moka_time_to_idle(b: &mut opendal::services::Moka, millis: u64)
    requires
        millis <= crate::plan::MAX_EXPIRATION_MILLIS,
{
    b.time_to_idle(std::time::Duration::from_millis(millis));
}

/// Relies on `opendal::Operator::new` and `OperatorBuilder::finish`: the
/// moka backend built from the builder, or its error.
#[verifier::external_body]
pub(crate) fn moka_operator(b: opendal::services::Moka) -> Result<opendal::Operator, opendal::Error> {
    Ok(opendal::Operator::new(b)?.finish())
}

/// Relies on `<opendal::services::Memcached as opendal::Builder>::from_map`:
/// a builder configured by the options, which it deserializes with `expect`;
/// text options never fail there.
#[verifier::external_body]
pub(crate) fn memcached_builder(options: &Vec<(String, String)>) -> opendal::services::Memcached
    requires
        memcached_options_accepted(crate::plan::options_view(options@)),
{
    <opendal::services::Memcached as opendal::Builder>::from_map(options.iter().cloned().collect())
}

/// Relies on `opendal::services::Memcached::default_ttl`: sets the default
/// time to live of stored values.
#[verifier::external_body]
pub(crate) fn memcached_default_ttl(b: &mut opendal::services::Memcached, millis: u64) {
    b.default_ttl(std::time::Duration::from_millis(millis));
}

/// Relies on `opendal::Operator::new` and `OperatorBuilder::finish`: the
/// memcached backend built from the builder, or its error.
#[verifier::external_body]
pub(crate) fn memcached_operator(b: opendal::services::Memcached) -> Result<
    opendal::Operator,
    opendal::Error,
> {
    Ok(opendal::Operator::new(b)?.finish())
}

/// Options that a plan gives for the backend that the storage library names
/// `name`. Such options never make its map constructor panic: their keys are
/// distinct lower-case option names of text fields of that backend, an Azure
/// Blob plan always has `container` and a Data Lake plan `filesystem` (plain,
/// non-optional fields read with `expect`), and the only other typed options,
/// moka's counts, hold decimal text within their types.
pub open spec fn options_accepted(name: Seq<char>, o: Seq<(Seq<char>, Seq<char>)>) -> bool {
    exists|b: Backend, cfg: Seq<(String, ConfigValue)>, pw: Option<Seq<char>>|
        service_name(b) == name && #[trigger] plan_options(b, cfg, pw) == o
}

/// Relies on `opendal::Scheme::from_str` and `opendal::Operator::via_map`: the
/// backend that the storage library names `name` is built from the options,
/// or refuses them with an error. `via_map` reads typed configurations with
/// `expect`; the `requires` keeps that from failing. `from_str` always
/// succeeds, and the memory and dashmap builders build a fresh in-process map
/// without a failure path, so those two always give an operator.
#[verifier::external_body]
pub(crate) fn open_service(name: &str, options: &Vec<(String, String)>) -> (r: Result<
    opendal::Operator,
    opendal::Error,
>)
    requires
        options_accepted(name@, crate::plan::options_view(options@)),
    ensures
        name@ == "memory"@ || name@ == "dashmap"@ ==> r is Ok,
{
    let scheme = <opendal::Scheme as std::str::FromStr>::from_str(name)?;
    opendal::Operator::via_map(scheme, options.iter().cloned().collect())
}

/// Relies on `opendal::Operator::layer` with `opendal::layers::TracingLayer`:
/// each operation emits a tracing span.
#[verifier::external_body]
pub(crate) fn with_tracing(op: opendal::Operator) -> opendal::Operator {
    op.layer(opendal::layers::TracingLayer)
}

/// Relies on `opendal::Operator::layer` with `opendal::layers::MetricsLayer`:
/// each operation is counted and timed.
#[verifier::external_body]
pub(crate) fn with_metrics(op: opendal::Operator) -> opendal::Operator {
    op.layer(opendal::layers::MetricsLayer)
}

/// Relies on `opendal::Operator::layer` with `opendal::layers::RetryLayer::new`:
/// temporary failures are retried with the layer's default policy.
#[verifier::external_body]
pub(crate) fn with_retry(op: opendal::Operator) -> opendal::Operator {
    op.layer(opendal::layers::RetryLayer::new())
}

/// Relies on `Display` of `opendal::Error` (through `to_string`): a message
/// for the error.
#[verifier::external_body]
pub(crate) fn error_text(e: &opendal::Error) -> String {
    e.to_string()
}

} // verus!

verus! {

/// The options of a moka or memcached plan are accepted by that backend's
/// map constructor.
pub proof fn lemma_typed_plans_accepted(cfg: Seq<(String, ConfigValue)>, password: Option<Seq<char>>)
    ensures
        moka_options_accepted(plan_options(Backend::Moka, cfg, password)),
        memcached_options_accepted(plan_options(Backend::Memcached, cfg, password)),
{
    reveal_strlit("name");
    reveal_strlit("max_capacity");
    reveal_strlit("num_segments");
    let o = plan_options(Backend::Moka, cfg, password);
    let e = Seq::<(Seq<char>, Seq<char>)>::empty();
    let a = text_opt(cfg, "name"@, "name"@);
    let m = count_opt(cfg, "max-capacity"@, "max_capacity"@, 1, u64::MAX as int);
    let s = count_opt(cfg, "segments"@, "num_segments"@, 1, usize::MAX as int);
    assert(o == a + m + s);
    assert forall|i: int| 0 <= i < o.len() implies {
        &&& o[i].0 == "name"@ || o[i].0 == "max_capacity"@ || o[i].0 == "num_segments"@
        &&& o[i].0 == "max_capacity"@ ==> exists|n: int|
            0 <= n <= u64::MAX && o[i].1 == decimal_text(n)
        &&& o[i].0 == "num_segments"@ ==> exists|n: int|
            1 <= n <= usize::MAX && o[i].1 == decimal_text(n)
    } by {
        if i < a.len() {
            assert(o[i] == a[i]);
            assert(o[i].0 == "name"@);
            assert("name"@ != "max_capacity"@);
            assert("name"@ != "num_segments"@);
        } else if i < a.len() + m.len() {
            assert(o[i] == m[i - a.len()]);
            let n = crate::config::int_field(cfg, "max-capacity"@).unwrap();
            assert(o[i].0 == "max_capacity"@);
            assert(o[i].1 == decimal_text(n));
            assert("max_capacity"@[0] != "num_segments"@[0]);
        } else {
            assert(o[i] == s[i - a.len() - m.len()]);
            let n = crate::config::int_field(cfg, "segments"@).unwrap();
            assert(o[i].0 == "num_segments"@);
            assert(o[i].1 == decimal_text(n));
            assert("max_capacity"@[0] != "num_segments"@[0]);
        }
    }
    let q = plan_options(Backend::Memcached, cfg, password);
    let r = text_opt(cfg, "root"@, "root"@);
    let d = text_opt(cfg, "endpoint"@, "endpoint"@);
    assert(q == r + d);
    assert forall|i: int| 0 <= i < q.len() implies q[i].0 == "root"@ || q[i].0 == "endpoint"@ by {
        if i < r.len() {
            assert(q[i] == r[i]);
        } else {
            assert(q[i] == d[i - r.len()]);
        }
    }
}

} // verus!
