use vstd::prelude::*;

use crate::value::{Value, ValueKind, ValueView};

verus! {

/// Why a lookup in an environment failed.
#[derive(Clone, Copy, Debug, PartialEq, Eq, Structural)]
pub enum EnvError {
    /// No value was ever added under the key's name.
    MissingKey,
    /// A value is stored under the key's name, but of another type than the
    /// key declares.
    TypeMismatch,
}

/// A named key together with the type of value it is declared to address.
/// Two keys address the same entry exactly when their names are equal.
#[derive(Clone, Debug, PartialEq, Eq)]
pub struct Key {
    pub name: String,
    pub kind: ValueKind,
}

impl Key {
    /// The key named `name`, declared to address values of type `kind`.
    pub fn new(name: &str, kind: ValueKind) -> (k: Key)
        ensures
            k.name@ == name@,
            k.kind == kind,
    {
        Key { name: name.to_string(), kind }
    }

    /// Whether the two keys address the same entry.
    pub fn same_entry(&self, other: &Key) -> (r: bool)
        ensures
            r == (self.name@ == other.name@),
    {
        self.name == other.name
    }
}

/// What a lookup of `name`, declared of type `kind`, gives in the mapping `m`.
pub open spec fn lookup(m: Map<Seq<char>, ValueView>, name: Seq<char>, kind: ValueKind) -> Result<
    ValueView,
    EnvError,
> {
    if !m.contains_key(name) {
        Err(EnvError::MissingKey)
    } else if m[name].kind() != kind {
        Err(EnvError::TypeMismatch)
    } else {
        Ok(m[name])
    }
}

/// The content of a lookup result.
pub open spec fn result_view(r: Result<Value, EnvError>) -> Result<ValueView, EnvError> {
    match r {
        Ok(v) => Ok(v@),
        Err(e) => Err(e),
    }
}

/// The mapping that a list of additions builds: a later entry under a name
/// replaces an earlier one.
pub open spec fn entries_map(s: Seq<(String, Value)>) -> Map<Seq<char>, ValueView>
    decreases s.len(),
{
    if s.len() == 0 {
        Map::empty()
    } else {
        entries_map(s.drop_last()).insert(s.last().0@, s.last().1@)
    }
}

/// An environment: a mapping from key names to values. Extending one yields a
/// new environment and leaves the old one as it was.
#[derive(Debug)]
pub struct Env {
    entries: Vec<(String, Value)>,
}

impl View for Env {
    type V = Map<Seq<char>, ValueView>;

    closed spec fn view(&self) -> Map<Seq<char>, ValueView> {
        entries_map(self.entries@)
    }
}

/// Entries after index `i` whose names all differ from `name` leave the
/// mapping's answer for `name` to the first `i` entries.
proof fn lemma_later_entries_absent(s: Seq<(String, Value)>, i: int, name: Seq<char>)
    requires
        0 <= i <= s.len(),
        forall|j: int| i <= j < s.len() ==> s[j].0@ != name,
    ensures
        entries_map(s).contains_key(name) == entries_map(s.subrange(0, i)).contains_key(name),
        entries_map(s).contains_key(name) ==> entries_map(s)[name] == entries_map(
            s.subrange(0, i),
        )[name],
    decreases s.len(),
{
    if s.len() == i {
        assert(s.subrange(0, i) =~= s);
    } else {
        assert(s.drop_last().subrange(0, i) =~= s.subrange(0, i));
        lemma_later_entries_absent(s.drop_last(), i, name);
    }
}

impl Env {
    /// The empty environment.
    pub fn new() -> (e: Env)
        ensures
            e@ == Map::<Seq<char>, ValueView>::empty(),
    {
        Env { entries: Vec::new() }
    }

    /// A new environment that holds everything this one does, and `value`
    /// under `key`'s name, in place of what was there. This environment is
    /// left unchanged.
    pub fn adding(&self, key: &Key, value: Value) -> (e: Env)
        ensures
            e@ == self@.insert(key.name@, value@),
    {
        let mut entries: Vec<(String, Value)> = Vec::new();
        let n = self.entries.len();
        let mut i: usize = 0;
        while i < n
            invariant
                n == self.entries@.len(),
                i <= n,
                entries@.len() == i,
                forall|j: int|
                    0 <= j < i ==> (#[trigger] entries@[j]).0@ == self.entries@[j].0@
                        && entries@[j].1@ == self.entries@[j].1@,
            decreases n - i,
        {
            let (name, v) = &self.entries[i];
            entries.push((name.clone(), v.duplicate()));
            i = i + 1;
        }
        proof {
            lemma_same_map(entries@, self.entries@);
        }
        let ghost before = entries@;
        let ghost added = value@;
        entries.push((key.name.clone(), value));
        proof {
            assert(entries@.drop_last() =~= before);
            assert(entries@.last().1@ == added);
        }
        Env { entries }
    }

    /// The value stored under `key`'s name, if there is one and it has the
    /// type that `key` declares.
    pub fn get(&self, key: &Key) -> (r: Result<Value, EnvError>)
        ensures
            result_view(r) == lookup(self@, key.name@, key.kind),
    {
        let mut i: usize = self.entries.len();
        while i > 0
            invariant
                i <= self.entries@.len(),
                forall|j: int| i <= j < self.entries@.len() ==> self.entries@[j].0@ != key.name@,
            decreases i,
        {
            if self.entries[i - 1].0 == key.name {
                proof {
                    let s = self.entries@;
                    lemma_later_entries_absent(s, i as int, key.name@);
                    assert(s.subrange(0, i as int).drop_last() =~= s.subrange(0, i - 1));
                }
                let v = &self.entries[i - 1].1;
                if v.kind() == key.kind {
                    return Ok(v.duplicate());
                } else {
                    return Err(EnvError::TypeMismatch);
                }
            }
            i = i - 1;
        }
        proof {
            lemma_later_entries_absent(self.entries@, 0, key.name@);
        }
        Err(EnvError::MissingKey)
    }
}

/// Two lists of additions that agree entry by entry build the same mapping.
proof fn lemma_same_map(a: Seq<(String, Value)>, b: Seq<(String, Value)>)
    requires
        a.len() == b.len(),
        forall|j: int| 0 <= j < a.len() ==> (#[trigger] a[j]).0@ == b[j].0@ && a[j].1@ == b[j].1@,
    ensures
        entries_map(a) == entries_map(b),
    decreases a.len(),
{
    if a.len() > 0 {
        lemma_same_map(a.drop_last(), b.drop_last());
    }
}

/// A value added under a key, of the type the key declares, is what a lookup
/// of that key in the extended environment returns.
pub proof fn law_get_after_adding(env: Env, key: Key, value: Value)
    requires
        value@.kind() == key.kind,
    ensures
        lookup(env@.insert(key.name@, value@), key.name@, key.kind) == Ok::<ValueView, EnvError>(
            value@,
        ),
{
}

/// Of two values added under the same key, the later one is found.
pub proof fn law_later_adding_wins(env: Env, key: Key, first: Value, second: Value)
    requires
        second@.kind() == key.kind,
    ensures
        lookup(env@.insert(key.name@, first@).insert(key.name@, second@), key.name@, key.kind)
            == Ok::<ValueView, EnvError>(second@),
{
}

/// A key whose name was never added is missing, in the empty environment and
/// after adding values under other names.
pub proof fn law_missing_key(env: Env, key: Key, other: Key, value: Value)
    requires
        !env@.contains_key(key.name@),
        other.name@ != key.name@,
    ensures
        lookup(Map::empty(), key.name@, key.kind) == Err::<ValueView, EnvError>(
            EnvError::MissingKey,
        ),
        lookup(env@, key.name@, key.kind) == Err::<ValueView, EnvError>(EnvError::MissingKey),
        lookup(env@.insert(other.name@, value@), key.name@, key.kind) == Err::<
            ValueView,
            EnvError,
        >(EnvError::MissingKey),
{
}

/// A lookup through a key that shares its name with the key a value was added
/// under, but declares another type, is a type mismatch.
pub proof fn law_type_mismatch(env: Env, key: Key, value: Value, other: Key)
    requires
        value@.kind() == key.kind,
        other.name@ == key.name@,
        other.kind != key.kind,
    ensures
        lookup(env@.insert(key.name@, value@), other.name@, other.kind) == Err::<
            ValueView,
            EnvError,
        >(EnvError::TypeMismatch),
{
}

/// Extending an environment changes no lookup under a name other than the
/// added key's.
pub proof fn law_extension_keeps_other_keys(env: Env, key: Key, value: Value, other: Key)
    requires
        other.name@ != key.name@,
    ensures
        lookup(env@.insert(key.name@, value@), other.name@, other.kind) == lookup(
            env@,
            other.name@,
            other.kind,
        ),
{
}

} // verus!
