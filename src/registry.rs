use vstd::prelude::*;
use crate::config::{ConfigTable, ConfigValue, str_field};
use crate::plan::{
    Backend,
    BackendPlan,
    backend_of,
    in_process,
    opt_text,
    options_view,
    plan_options,
    plan_spec,
};
use crate::service::{
    error_text,
    lemma_typed_plans_accepted,
    memcached_builder,
    memcached_default_ttl,
    memcached_operator,
    moka_builder,
    moka_operator,
    moka_time_to_idle,
    moka_time_to_live,
    open_service,
    with_metrics,
    with_retry,
    with_tracing,
};

verus! {

/// Why an operator could not be built.
#[derive(Debug)]
pub enum AccessorError {
    /// No backend of this build serves the scheme.
    UnsupportedScheme(String),
    /// The backend of the scheme (first field) refused its configuration;
    /// the second field is the storage library's message.
    BuildFailed(String, String),
}

/// Why the registry could not be built: the accessor that failed, by name,
/// and its error, which names its scheme.
#[derive(Debug)]
pub struct RegistryError {
    pub name: String,
    pub error: AccessorError,
}

/// A configured accessor: its configuration record and the password that the
/// secret resolver gave for it, if any.
pub struct AccessorConfig {
    pub table: ConfigTable,
    pub password: Option<String>,
}

/// A named operator of the registry, with the plan it was built from.
pub struct AccessorEntry {
    pub name: String,
    pub plan: BackendPlan,
    pub operator: opendal::Operator,
}

/// The registry of storage accessors: the built-in in-memory accessor first,
/// then the configured ones in configuration order. It is never changed
/// after construction.
pub struct GlobalAccessor {
    entries: Vec<AccessorEntry>,
}

/// The scheme of a configured accessor; a record without one names no backend.
pub open spec fn record_scheme(t: Seq<(String, ConfigValue)>) -> Seq<char> {
    match str_field(t, "scheme"@) {
        Some(s) => s,
        None => "unknown"@,
    }
}

/// The name of a configured accessor: its `name` field, else its scheme.
pub open spec fn record_name(t: Seq<(String, ConfigValue)>) -> Seq<char> {
    match str_field(t, "name"@) {
        Some(s) => s,
        None => record_scheme(t),
    }
}

/// Whether `e` is the entry built for the configured accessor `c`.
pub open spec fn entry_for(e: AccessorEntry, c: AccessorConfig) -> bool {
    &&& e.name@ == record_name(c.table.entries@)
    &&& plan_spec(
        record_scheme(c.table.entries@),
        c.table.entries@,
        opt_view(c.password),
    ) == Some((e.plan.backend, options_view(e.plan.options@)))
    &&& e.plan.times_match(c.table.entries@)
}

/// The view of an optional owned text.
pub open spec fn opt_view(p: Option<String>) -> Option<Seq<char>> {
    match p {
        Some(s) => Some(s@),
        None => None,
    }
}

/// Whether `e` is the built-in in-memory entry.
pub open spec fn is_builtin_memory(e: AccessorEntry) -> bool {
    &&& e.name@ == "memory"@
    &&& e.plan.backend == Backend::Memory
    &&& e.plan.options@.len() == 0
    &&& e.plan.time_to_live is None
    &&& e.plan.time_to_idle is None
}

/// The index of the first entry at or after `i` named `name`.
pub open spec fn find_from(e: Seq<AccessorEntry>, name: Seq<char>, i: int) -> Option<int>
    decreases e.len() - i,
{
    if i < 0 || i >= e.len() {
        None
    } else if e[i].name@ == name {
        Some(i)
    } else {
        find_from(e, name, i + 1)
    }
}

/// The index of the first entry named `name`.
pub open spec fn find(e: Seq<AccessorEntry>, name: Seq<char>) -> Option<int> {
    find_from(e, name, 0)
}

/// Whether `r` is what a lookup of `name` in `g` returns: the operator of the
/// first entry named `name`, or nothing where no entry has that name.
pub open spec fn returned_by_get(
    g: &GlobalAccessor,
    name: Seq<char>,
    r: Option<&opendal::Operator>,
) -> bool {
    match r {
        Some(op) => find(g.entries_view(), name) matches Some(j) && *op
            == g.entries_view()[j].operator,
        None => find(g.entries_view(), name) is None,
    }
}

/// Whether `e` is the error of record `i` of `c` during construction.
pub open spec fn error_of_record(e: RegistryError, c: Seq<AccessorConfig>, i: int) -> bool {
    let t = c[i].table.entries@;
    &&& e.name@ == record_name(t)
    &&& match e.error {
        AccessorError::UnsupportedScheme(s) => s@ == record_scheme(t) && backend_of(s@) is None,
        AccessorError::BuildFailed(s, _) => s@ == record_scheme(t) && (backend_of(s@) matches Some(
            b,
        ) && !in_process(b)),
    }
}

/// Whether every record of `c` selects an in-process backend.
pub open spec fn all_in_process(c: Seq<AccessorConfig>) -> bool {
    forall|i: int|
        0 <= i < c.len() ==> (backend_of(record_scheme(#[trigger] c[i].table.entries@)) matches Some(
            b,
        ) && in_process(b))
}

/// Whether the configuration records `c` have no scheme that this build
/// lacks.
pub open spec fn all_supported(c: Seq<AccessorConfig>) -> bool {
    forall|i: int| 0 <= i < c.len() ==> backend_of(record_scheme(#[trigger] c[i].table.entries@)) is Some
}

proof fn lemma_find_reaches(e: Seq<AccessorEntry>, name: Seq<char>, start: int, m: int)
    requires
        0 <= start <= m < e.len(),
        e[m].name@ == name,
    ensures
        find_from(e, name, start) matches Some(j) && start <= j <= m && e[j].name@ == name,
    decreases m - start,
{
    if e[start].name@ != name {
        lemma_find_reaches(e, name, start + 1, m);
    }
}

/// The built-in in-memory accessor is what the name `memory` finds in a
/// registry built from any configuration list, the empty one included: a
/// configured accessor also named `memory` does not shadow it.
pub proof fn lemma_builtin_memory_wins(g: &GlobalAccessor, c: Seq<AccessorConfig>)
    requires
        g.built_from(c),
    ensures
        find(g.entries_view(), "memory"@) == Some(0int),
        is_builtin_memory(g.entries_view()[0]),
        c.len() == 0 ==> g.entries_view().len() == 1,
{
}

/// Where two configured accessors share a name, a lookup of that name finds
/// the earlier one (or the built-in entry before it), never the later one.
pub proof fn lemma_first_configured_wins(g: &GlobalAccessor, c: Seq<AccessorConfig>, i: int, k: int)
    requires
        g.built_from(c),
        0 <= i < k < c.len(),
        record_name(c[i].table.entries@) == record_name(c[k].table.entries@),
    ensures
        find(g.entries_view(), record_name(c[k].table.entries@)) matches Some(j) && j <= i + 1
            && g.entries_view()[j].name@ == record_name(c[k].table.entries@),
{
    assert(entry_for(g.entries_view()[i + 1], c[i]));
    lemma_find_reaches(g.entries_view(), record_name(c[k].table.entries@), 0, i + 1);
}

proof fn lemma_find_first(e: Seq<AccessorEntry>, name: Seq<char>, start: int, m: int)
    requires
        0 <= start <= m < e.len(),
        e[m].name@ == name,
        forall|k: int| start <= k < m ==> #[trigger] e[k].name@ != name,
    ensures
        find_from(e, name, start) == Some(m),
    decreases m - start,
{
    if start < m {
        lemma_find_first(e, name, start + 1, m);
    }
}

/// Where configured accessor `i` is the earliest one named `n`, and `n` is not
/// `memory`, a lookup of `n` finds exactly the entry built for accessor `i`,
/// whatever later accessors share the name.
pub proof fn lemma_earliest_configured_found(g: &GlobalAccessor, c: Seq<AccessorConfig>, i: int)
    requires
        g.built_from(c),
        0 <= i < c.len(),
        record_name(c[i].table.entries@) != "memory"@,
        forall|j: int|
            0 <= j < i ==> record_name(#[trigger] c[j].table.entries@) != record_name(
                c[i].table.entries@,
            ),
    ensures
        find(g.entries_view(), record_name(c[i].table.entries@)) == Some(i + 1),
        entry_for(g.entries_view()[i + 1], c[i]),
{
    let e = g.entries_view();
    let n = record_name(c[i].table.entries@);
    assert(entry_for(e[i + 1], c[i]));
    assert forall|k: int| 0 <= k < i + 1 implies #[trigger] e[k].name@ != n by {
        if k > 0 {
            assert(entry_for(e[(k - 1) + 1], c[k - 1]));
        }
    }
    lemma_find_first(e, n, 0, i + 1);
}

/// Two lookups of one name in one registry return the same operator.
pub proof fn lemma_get_repeatable(
    g: &GlobalAccessor,
    name: Seq<char>,
    a: Option<&opendal::Operator>,
    b: Option<&opendal::Operator>,
)
    requires
        returned_by_get(g, name, a),
        returned_by_get(g, name, b),
    ensures
        a == b,
{
}

/// Wraps a raw operator in tracing, then metrics, then retry: the retry
/// layer is outermost, so tracing and metrics see every attempt.
fn decorate(op: opendal::Operator) -> opendal::Operator {
    with_retry(with_metrics(with_tracing(op)))
}

/// Builds the decorated operator of a plan; a failure is reported for `scheme`.
fn build_plan(scheme: &str, plan: &BackendPlan) -> (r: Result<opendal::Operator, AccessorError>)
    requires
        exists|cfg: Seq<(String, ConfigValue)>, pw: Option<Seq<char>>|
            #[trigger] plan_options(plan.backend, cfg, pw) == options_view(plan.options@),
        plan.backend == Backend::Moka ==> (plan.time_to_live matches Some(t) ==> t
            <= crate::plan::MAX_EXPIRATION_MILLIS),
        plan.backend == Backend::Moka ==> (plan.time_to_idle matches Some(t) ==> t
            <= crate::plan::MAX_EXPIRATION_MILLIS),
    ensures
        r matches Err(e) ==> e matches AccessorError::BuildFailed(s, _) && s@ == scheme@,
        in_process(plan.backend) ==> r is Ok,
{
    let ghost (cfg, pw) = choose|cfg: Seq<(String, ConfigValue)>, pw: Option<Seq<char>>|
        #[trigger] plan_options(plan.backend, cfg, pw) == options_view(plan.options@);
    proof {
        lemma_typed_plans_accepted(cfg, pw);
        assert(crate::service::options_accepted(
            crate::plan::service_name(plan.backend),
            options_view(plan.options@),
        ));
    }
    let raw = match plan.backend {
        Backend::Moka => {
            let mut b = moka_builder(&plan.options);
            if let Some(t) = plan.time_to_live {
                moka_time_to_live(&mut b, t);
            }
            if let Some(t) = plan.time_to_idle {
                moka_time_to_idle(&mut b, t);
            }
            moka_operator(b)
        },
        Backend::Memcached => {
            let mut b = memcached_builder(&plan.options);
            if let Some(t) = plan.time_to_live {
                memcached_default_ttl(&mut b, t);
            }
            memcached_operator(b)
        },
        _ => open_service(plan.backend.name(), &plan.options),
    };
    match raw {
        Ok(op) => Ok(decorate(op)),
        Err(e) => Err(AccessorError::BuildFailed(scheme.to_owned(), error_text(&e))),
    }
}

/// Builds the plan of `scheme` over `config` (with `password`, the secret
/// resolved for it) and the decorated operator of that plan. The plan is the
/// one `BackendPlan::for_scheme` gives; in-process backends always build.
pub fn build_entry(scheme: &str, config: &ConfigTable, password: Option<&str>) -> (r: Result<
    (BackendPlan, opendal::Operator),
    AccessorError,
>)
    ensures
        backend_of(scheme@) is None <==> r matches Err(AccessorError::UnsupportedScheme(_)),
        r matches Err(AccessorError::UnsupportedScheme(s)) ==> s@ == scheme@,
        r matches Err(AccessorError::BuildFailed(s, _)) ==> s@ == scheme@,
        (backend_of(scheme@) matches Some(b) && in_process(b)) ==> r is Ok,
        r matches Err(AccessorError::BuildFailed(_, _)) ==> (backend_of(scheme@) matches Some(b)
            && !in_process(b)),
        r matches Ok(p) ==> plan_spec(scheme@, config.entries@, opt_text(password)) == Some(
            (p.0.backend, options_view(p.0.options@)),
        ) && p.0.times_match(config.entries@),
{
    match BackendPlan::for_scheme(scheme, config, password) {
        None => Err(AccessorError::UnsupportedScheme(scheme.to_owned())),
        Some(plan) => {
            proof {
                assert(plan_options(plan.backend, config.entries@, opt_text(password))
                    == options_view(plan.options@));
            }
            match build_plan(scheme, &plan) {
                Ok(op) => Ok((plan, op)),
                Err(e) => Err(e),
            }
        },
    }
}

impl GlobalAccessor {
    /// Constructs a new operator with the configuration for the storage
    /// service of `scheme`, decorated with tracing, metrics and retry.
    /// `password` is what the secret resolver gave for `config`. A scheme that
    /// no backend of this build serves gives `UnsupportedScheme`; the backend
    /// may refuse the configuration with `BuildFailed`.
    pub fn try_new_operator(scheme: &str, config: &ConfigTable, password: Option<&str>) -> (r:
        Result<opendal::Operator, AccessorError>)
        ensures
            backend_of(scheme@) is None <==> r matches Err(AccessorError::UnsupportedScheme(_)),
            r matches Err(AccessorError::UnsupportedScheme(s)) ==> s@ == scheme@,
            r matches Err(AccessorError::BuildFailed(s, _)) ==> s@ == scheme@,
            (backend_of(scheme@) matches Some(b) && in_process(b)) ==> r is Ok,
            r matches Err(AccessorError::BuildFailed(_, _)) ==> (backend_of(scheme@) matches Some(
                b,
            ) && !in_process(b)),
    {
        match build_entry(scheme, config, password) {
            Ok(p) => Ok(p.1),
            Err(e) => Err(e),
        }
    }

    /// The entries, in lookup order.
    pub closed spec fn entries_view(&self) -> Seq<AccessorEntry> {
        self.entries@
    }

    /// Well formed: the built-in in-memory entry comes first.
    pub open spec fn wf(&self) -> bool {
        &&& self.entries_view().len() >= 1
        &&& is_builtin_memory(self.entries_view()[0])
    }

    /// Whether this registry was built from the configuration records `c`.
    pub open spec fn built_from(&self, c: Seq<AccessorConfig>) -> bool {
        &&& self.wf()
        &&& self.entries_view().len() == c.len() + 1
        &&& forall|i: int|
            0 <= i < c.len() ==> entry_for(#[trigger] self.entries_view()[i + 1], c[i])
    }

    /// Builds the registry: the in-memory accessor, then one accessor for each
    /// record in order, named by its `name` field or else by its scheme. The
    /// first record that cannot be built ends construction with its error.
    pub fn try_new(records: &Vec<AccessorConfig>) -> (r: Result<GlobalAccessor, RegistryError>)
        ensures
            r matches Ok(g) ==> g.built_from(records@),
            all_in_process(records@) ==> r is Ok,
            !all_supported(records@) ==> r is Err,
            r matches Err(e) ==> exists|i: int|
                0 <= i < records@.len() && error_of_record(e, records@, i) && forall|j: int|
                    0 <= j < i ==> backend_of(
                        record_scheme(#[trigger] records@[j].table.entries@),
                    ) is Some,
    {
        let plan = BackendPlan {
            backend: Backend::Memory,
            options: Vec::new(),
            time_to_live: None,
            time_to_idle: None,
        };
        proof {
            assert(options_view(plan.options@) =~= plan_options(Backend::Memory, Seq::empty(), None));
        }
        let memory = match build_plan("memory", &plan) {
            Ok(op) => (plan, op),
            Err(e) => {
                return Err(RegistryError { name: "memory".to_owned(), error: e });
            },
        };
        let mut entries: Vec<AccessorEntry> = Vec::new();
        entries.push(AccessorEntry { name: "memory".to_owned(), plan: memory.0, operator: memory.1 });
        let mut i: usize = 0;
        while i < records.len()
            invariant
                0 <= i <= records@.len(),
                entries@.len() == i + 1,
                is_builtin_memory(entries@[0]),
                forall|j: int| 0 <= j < i ==> entry_for(#[trigger] entries@[j + 1], records@[j]),
                forall|j: int|
                    0 <= j < i ==> backend_of(record_scheme(#[trigger] records@[j].table.entries@)) is Some,
            decreases records@.len() - i,
        {
            let rec = &records[i];
            let scheme = match rec.table.get_str("scheme") {
                Some(s) => s,
                None => "unknown".to_owned(),
            };
            let name = match rec.table.get_str("name") {
                Some(n) => n,
                None => scheme.clone(),
            };
            let password = match &rec.password {
                Some(p) => Some(p.as_str()),
                None => None,
            };
            let built = build_entry(scheme.as_str(), &rec.table, password);
            match built {
                Ok(p) => {
                    entries.push(AccessorEntry { name, plan: p.0, operator: p.1 });
                },
                Err(e) => {
                    let err = RegistryError { name, error: e };
                    proof {
                        assert(error_of_record(err, records@, i as int));
                    }
                    return Err(err);
                },
            }
            i = i + 1;
        }
        Ok(GlobalAccessor { entries })
    }

    /// The entry named `name`: the first one in construction order.
    pub fn get_entry(&self, name: &str) -> (r: Option<&AccessorEntry>)
        ensures
            match r {
                Some(e) => find(self.entries_view(), name@) matches Some(j) && *e
                    == self.entries_view()[j],
                None => find(self.entries_view(), name@) is None,
            },
    {
        let k = name.to_owned();
        let mut i: usize = 0;
        while i < self.entries.len()
            invariant
                0 <= i <= self.entries@.len(),
                k@ == name@,
                find(self.entries@, name@) == find_from(self.entries@, name@, i as int),
            decreases self.entries@.len() - i,
        {
            if self.entries[i].name == k {
                return Some(&self.entries[i]);
            }
            i = i + 1;
        }
        None
    }

    /// Gets the operator for the storage service named `name`: that of the
    /// first entry with this name.
    pub fn get(&self, name: &str) -> (r: Option<&opendal::Operator>)
        ensures
            returned_by_get(self, name@, r),
    {
        match self.get_entry(name) {
            Some(e) => Some(&e.operator),
            None => None,
        }
    }

    /// The names of the entries, in lookup order.
    pub fn names(&self) -> (r: Vec<String>)
        ensures
            r@.len() == self.entries_view().len(),
            forall|i: int| 0 <= i < r@.len() ==> #[trigger] r@[i]@ == self.entries_view()[i].name@,
    {
        let mut r: Vec<String> = Vec::new();
        let mut i: usize = 0;
        while i < self.entries.len()
            invariant
                0 <= i <= self.entries@.len(),
                r@.len() == i,
                forall|j: int| 0 <= j < i ==> #[trigger] r@[j]@ == self.entries@[j].name@,
            decreases self.entries@.len() - i,
        {
            r.push(self.entries[i].name.clone());
            i = i + 1;
        }
        r
    }
}

} // verus!
