use vstd::prelude::*;
use vstd::string::StrSliceExecFns;

verus! {

/// A loosely typed configuration value.
#[derive(Debug)]
pub enum ConfigValue {
    Str(String),
    Int(i64),
    Bool(bool),
    /// A duration in milliseconds.
    Duration(u64),
    /// A value of a kind that no backend reads (a float, an array, a table).
    Other,
}

/// An ordered configuration record: field names with their values.
#[derive(Debug)]
pub struct ConfigTable {
    pub entries: Vec<(String, ConfigValue)>,
}

/// The value of the first entry of `e` at or after `i` whose name is `key`.
pub open spec fn lookup_from(e: Seq<(String, ConfigValue)>, key: Seq<char>, i: int) -> Option<
    ConfigValue,
>
    decreases e.len() - i,
{
    if i < 0 || i >= e.len() {
        None
    } else if e[i].0@ == key {
        Some(e[i].1)
    } else {
        lookup_from(e, key, i + 1)
    }
}

/// The value that a table holds under `key`.
pub open spec fn lookup(e: Seq<(String, ConfigValue)>, key: Seq<char>) -> Option<ConfigValue> {
    lookup_from(e, key, 0)
}

/// The text that a table holds under `key`, if the value there is a string.
pub open spec fn str_field(e: Seq<(String, ConfigValue)>, key: Seq<char>) -> Option<Seq<char>> {
    match lookup(e, key) {
        Some(ConfigValue::Str(s)) => Some(s@),
        _ => None,
    }
}

/// The integer that a table holds under `key`, if the value there is an integer.
pub open spec fn int_field(e: Seq<(String, ConfigValue)>, key: Seq<char>) -> Option<int> {
    match lookup(e, key) {
        Some(ConfigValue::Int(n)) => Some(n as int),
        _ => None,
    }
}

/// Whether `c` is a decimal digit.
pub open spec fn is_digit(c: char) -> bool {
    '0' <= c <= '9'
}

/// The value of a sequence of decimal digits, most significant first.
pub open spec fn number_value(s: Seq<char>) -> int
    decreases s.len(),
{
    if s.len() == 0 {
        0
    } else {
        number_value(s.drop_last()) * 10 + (s.last() as int - '0' as int)
    }
}

/// Duration text split into its number and the milliseconds of its unit:
/// `ms`, `s`, `m`, `h` or `d` after the number.
pub open spec fn duration_split(s: Seq<char>) -> Option<(Seq<char>, int)> {
    let n = s.len() as int;
    if n >= 2 && s[n - 2] == 'm' && s[n - 1] == 's' {
        Some((s.subrange(0, n - 2), 1))
    } else if n >= 1 && s[n - 1] == 's' {
        Some((s.subrange(0, n - 1), 1000))
    } else if n >= 1 && s[n - 1] == 'm' {
        Some((s.subrange(0, n - 1), 60_000))
    } else if n >= 1 && s[n - 1] == 'h' {
        Some((s.subrange(0, n - 1), 3_600_000))
    } else if n >= 1 && s[n - 1] == 'd' {
        Some((s.subrange(0, n - 1), 86_400_000))
    } else {
        None
    }
}

/// The milliseconds that duration text such as `30s` or `500ms` stands for:
/// one or more digits and a unit, where the result fits in a `u64`.
pub open spec fn duration_millis(s: Seq<char>) -> Option<int> {
    match duration_split(s) {
        Some((d, f)) => if d.len() > 0 && (forall|i: int| 0 <= i < d.len() ==> is_digit(#[trigger] d[i]))
            && number_value(d) * f <= u64::MAX {
            Some(number_value(d) * f)
        } else {
            None
        },
        None => None,
    }
}

/// The duration in milliseconds that a table holds under `key`: a duration
/// value, or duration text.
pub open spec fn millis_field(e: Seq<(String, ConfigValue)>, key: Seq<char>) -> Option<int> {
    match lookup(e, key) {
        Some(ConfigValue::Duration(n)) => Some(n as int),
        Some(ConfigValue::Str(s)) => duration_millis(s@),
        _ => None,
    }
}

proof fn lemma_number_grows(d: Seq<char>, i: int)
    requires
        0 <= i <= d.len(),
        forall|j: int| 0 <= j < d.len() ==> is_digit(#[trigger] d[j]),
    ensures
        0 <= number_value(d.subrange(0, i)) <= number_value(d),
    decreases d.len() - i,
{
    if i < d.len() {
        lemma_number_grows(d, i + 1);
        assert(d.subrange(0, i + 1).drop_last() =~= d.subrange(0, i));
        lemma_number_nonneg(d.subrange(0, i));
    } else {
        assert(d.subrange(0, i) =~= d);
        lemma_number_nonneg(d);
    }
}

proof fn lemma_number_nonneg(d: Seq<char>)
    requires
        forall|j: int| 0 <= j < d.len() ==> is_digit(#[trigger] d[j]),
    ensures
        number_value(d) >= 0,
    decreases d.len(),
{
    if d.len() > 0 {
        lemma_number_nonneg(d.drop_last());
    }
}

/// The milliseconds of duration text (see `duration_millis`).
pub fn parse_millis(s: &str) -> (r: Option<u64>)
    ensures
        match r {
            Some(v) => duration_millis(s@) == Some(v as int),
            None => duration_millis(s@) is None,
        },
{
    let n = s.unicode_len();
    let (end, factor): (usize, u64) = if n >= 2 && s.get_char(n - 2) == 'm' && s.get_char(n - 1)
        == 's' {
        (n - 2, 1)
    } else if n >= 1 && s.get_char(n - 1) == 's' {
        (n - 1, 1000)
    } else if n >= 1 && s.get_char(n - 1) == 'm' {
        (n - 1, 60_000)
    } else if n >= 1 && s.get_char(n - 1) == 'h' {
        (n - 1, 3_600_000)
    } else if n >= 1 && s.get_char(n - 1) == 'd' {
        (n - 1, 86_400_000)
    } else {
        return None;
    };
    let ghost d = s@.subrange(0, end as int);
    assert(duration_split(s@) == Some((d, factor as int)));
    if end == 0 {
        return None;
    }
    let mut value: u64 = 0;
    let mut i: usize = 0;
    while i < end
        invariant
            0 <= i <= end <= n,
            n == s@.len(),
            d == s@.subrange(0, end as int),
            value as int == number_value(d.subrange(0, i as int)),
            forall|j: int| 0 <= j < i ==> is_digit(#[trigger] d[j]),
            factor >= 1,
            duration_split(s@) == Some((d, factor as int)),
        decreases end - i,
    {
        let c = s.get_char(i);
        assert(d.subrange(0, i + 1).drop_last() =~= d.subrange(0, i as int));
        assert(d[i as int] == c);
        if c < '0' || c > '9' {
            return None;
        }
        let digit = (c as u32 - '0' as u32) as u64;
        if value > (u64::MAX - digit) / 10 {
            proof {
                let ghost big = value as int * 10 + digit as int;
                assert(big > u64::MAX) by (nonlinear_arith)
                    requires
                        value as int > (u64::MAX - digit as int) / 10,
                        0 <= digit <= 9,
                        big == value as int * 10 + digit as int,
                ;
                assert(number_value(d.subrange(0, i + 1)) == big);
                if forall|j: int| 0 <= j < d.len() ==> is_digit(#[trigger] d[j]) {
                    lemma_number_grows(d, i + 1);
                    let ghost v = number_value(d);
                    let ghost f = factor as int;
                    assert(v * f >= v) by (nonlinear_arith)
                        requires
                            v >= 0,
                            f >= 1,
                    ;
                }
            }
            return None;
        }
        value = value * 10 + digit;
        i = i + 1;
    }
    assert(d.subrange(0, end as int) =~= d);
    match value.checked_mul(factor) {
        Some(v) => Some(v),
        None => None,
    }
}

impl ConfigTable {
    /// A table without fields.
    pub fn new() -> (r: ConfigTable)
        ensures
            r.entries@.len() == 0,
    {
        ConfigTable { entries: Vec::new() }
    }

    /// Appends a field; a field of the same name that is already there keeps
    /// its place and its value for lookups.
    pub fn insert(&mut self, key: String, value: ConfigValue)
        ensures
            final(self).entries@ == old(self).entries@.push((key, value)),
    {
        self.entries.push((key, value));
    }

    /// Index of the entry that `lookup` reads, or the length if there is none.
    fn position(&self, key: &str) -> (r: usize)
        ensures
            r <= self.entries@.len(),
            r < self.entries@.len() ==> self.entries@[r as int].0@ == key@ && lookup(
                self.entries@,
                key@,
            ) == Some(self.entries@[r as int].1),
            r == self.entries@.len() ==> lookup(self.entries@, key@) is None,
    {
        let k = key.to_owned();
        let mut i: usize = 0;
        while i < self.entries.len()
            invariant
                0 <= i <= self.entries@.len(),
                k@ == key@,
                lookup(self.entries@, key@) == lookup_from(self.entries@, key@, i as int),
            decreases self.entries@.len() - i,
        {
            if self.entries[i].0 == k {
                return i;
            }
            i = i + 1;
        }
        i
    }

    /// The string stored under `key`; `None` where the field is absent or is
    /// not a string.
    pub fn get_str(&self, key: &str) -> (r: Option<String>)
        ensures
            match r {
                Some(s) => str_field(self.entries@, key@) == Some(s@),
                None => str_field(self.entries@, key@) is None,
            },
    {
        let i = self.position(key);
        if i < self.entries.len() {
            match &self.entries[i].1 {
                ConfigValue::Str(s) => Some(s.clone()),
                _ => None,
            }
        } else {
            None
        }
    }

    /// The duration in milliseconds stored under `key`; `None` where the
    /// field is absent or is not a duration.
    pub fn get_millis(&self, key: &str) -> (r: Option<u64>)
        ensures
            match r {
                Some(n) => millis_field(self.entries@, key@) == Some(n as int),
                None => millis_field(self.entries@, key@) is None,
            },
    {
        let i = self.position(key);
        if i < self.entries.len() {
            match &self.entries[i].1 {
                ConfigValue::Duration(n) => Some(*n),
                ConfigValue::Str(t) => parse_millis(t.as_str()),
                _ => None,
            }
        } else {
            None
        }
    }

    /// The integer stored under `key`; `None` where the field is absent or is
    /// not an integer.
    pub fn get_i64(&self, key: &str) -> (r: Option<i64>)
        ensures
            match r {
                Some(n) => int_field(self.entries@, key@) == Some(n as int),
                None => int_field(self.entries@, key@) is None,
            },
    {
        let i = self.position(key);
        if i < self.entries.len() {
            match &self.entries[i].1 {
                ConfigValue::Int(n) => Some(*n),
                _ => None,
            }
        } else {
            None
        }
    }
}

} // verus!
