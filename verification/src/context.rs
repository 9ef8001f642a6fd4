//! Extra data that an experiment carries along and hands on with its results.

use crate::errors::{VictorsErrors, VictorsResult};
use serde_json::Value;
use vstd::prelude::*;

verus! {

/// What [`Context::from_value`] says of a JSON value that is not an object.
pub const NOT_AN_OBJECT: &'static str =
    "Creating a Context from a Value/Serialize requires it being a JSON object";

/// `serde_json::Value`. What is inside a value is left to `serde_json`.
#[verifier::external_type_specification]
#[verifier::external_body]
pub struct ExJsonValue(serde_json::Value);

/// What `serde_json` answers when two of its values are compared with `==`.
pub uninterp spec fn json_equal(a: Value, b: Value) -> bool;

/// Whether a JSON value is an object.
pub uninterp spec fn json_is_object(value: Value) -> bool;

/// The members of a JSON object, by key.
pub uninterp spec fn json_members(value: Value) -> Map<Seq<char>, Value>;

/// Whether some entry of `entries` has the key `key`.
spec fn has_key(entries: Seq<(String, Value)>, key: Seq<char>) -> bool {
    exists|i: int| 0 <= i < entries.len() && (#[trigger] entries[i]).0@ == key
}

/// Whether no two entries of `entries` have the same key.
spec fn distinct_keys(entries: Seq<(String, Value)>) -> bool {
    forall|i: int, j: int|
        0 <= i < j < entries.len() ==> (#[trigger] entries[i]).0@ != (#[trigger] entries[j]).0@
}

/// The mapping that a list of entries with distinct keys stands for.
spec fn entries_map(entries: Seq<(String, Value)>) -> Map<Seq<char>, Value> {
    Map::new(
        |key: Seq<char>| has_key(entries, key),
        |key: Seq<char>|
            entries[choose|i: int| 0 <= i < entries.len() && (#[trigger] entries[i]).0@ == key].1,
    )
}

/// `<serde_json::Value as Clone>::clone`, which is derived: the copy is the same JSON value.
#[verifier::external_body]
fn clone_json(value: &Value) -> (copy: Value)
    ensures
        copy == *value,
{
    value.clone()
}

/// `<serde_json::Value as PartialEq>::eq`. The answer is only given a name.
#[verifier::external_body]
fn json_eq(a: &Value, b: &Value) -> (same: bool)
    ensures
        same == json_equal(*a, *b),
{
    a == b
}

/// Takes a `serde_json::Value` apart. For `Value::Object` it hands out what
/// `serde_json::Map::into_iter` yields, which is every member of the object
/// with its key, each key once; for any other variant it hands out `None`.
#[verifier::external_body]
fn object_members(value: Value) -> (members: Option<Vec<(String, Value)>>)
    ensures
        match members {
            Some(entries) => json_is_object(value) && distinct_keys(entries@) && json_members(value)
                == entries_map(entries@),
            None => !json_is_object(value),
        },
{
    match value {
        Value::Object(map) => Some(map.into_iter().collect()),
        _ => None,
    }
}

/// Collects entries with distinct keys into a `serde_json::Map`, by the
/// map's `FromIterator`, and wraps the map in `Value::Object`: the value is
/// an object whose members are the entries.
#[verifier::external_body]
fn object_from(entries: Vec<(String, Value)>) -> (value: Value)
    requires
        distinct_keys(entries@),
    ensures
        json_is_object(value),
        json_members(value) == entries_map(entries@),
{
    Value::Object(entries.into_iter().collect())
}

/// The entry with a given key is the one that `entries_map` reads.
proof fn lemma_entry_is_member(entries: Seq<(String, Value)>, i: int)
    requires
        distinct_keys(entries),
        0 <= i < entries.len(),
    ensures
        entries_map(entries).contains_key(entries[i].0@),
        entries_map(entries)[entries[i].0@] == entries[i].1,
{
    let key = entries[i].0@;
    let j = choose|j: int| 0 <= j < entries.len() && (#[trigger] entries[j]).0@ == key;
    assert(j == i);
}

/// A mapping from string keys to JSON values. Keys are unique; the order in
/// which entries were inserted plays no role.
#[derive(Debug)]
pub struct Context {
    data: Vec<(String, Value)>,
}

impl View for Context {
    type V = Map<Seq<char>, Value>;

    closed spec fn view(&self) -> Map<Seq<char>, Value> {
        entries_map(self.data@)
    }
}

impl Context {
    #[verifier::type_invariant]
    spec fn keys_are_unique(self) -> bool {
        distinct_keys(self.data@)
    }

    /// Initializes an empty context.
    pub fn new() -> (context: Self)
        ensures
            context@ == Map::<Seq<char>, Value>::empty(),
    {
        let context = Context { data: Vec::new() };
        context
    }

    /// Where the entry with the key `key` stands, if there is one.
    fn position(&self, key: &String) -> (found: Option<usize>)
        ensures
            match found {
                Some(i) => i < self.data.len() && self.data[i as int].0@ == key@,
                None => !has_key(self.data@, key@),
            },
    {
        let mut i: usize = 0;
        while i < self.data.len()
            invariant
                i <= self.data.len(),
                forall|j: int| 0 <= j < i ==> (#[trigger] self.data[j]).0@ != key@,
            decreases self.data.len() - i,
        {
            if self.data[i].0 == *key {
                return Some(i);
            }
            i += 1;
        }
        None
    }

    /// Inserts `val` under `key`, in place of the value that was there, if any.
    pub fn insert(&mut self, key: String, val: Value)
        ensures
            final(self)@ == old(self)@.insert(key@, val),
    {
        proof {
            use_type_invariant(&*self);
        }
        let ghost before = self.data@;
        let found = self.position(&key);
        let mut data: Vec<(String, Value)> = Vec::new();
        std::mem::swap(&mut data, &mut self.data);
        match found {
            Some(i) => {
                data.set(i, (key, val));
                proof {
                    lemma_replace_entry(before, i as int, data@[i as int]);
                }
            },
            None => {
                data.push((key, val));
                proof {
                    lemma_push_entry(before, data@.last());
                }
            },
        }
        self.data = data;
    }

    /// Adds the entries of `source`; where both have a key, the value of `source` stays.
    pub fn extend(&mut self, source: Context)
        ensures
            final(self)@ == old(self)@.union_prefer_right(source@),
    {
        proof {
            use_type_invariant(&source);
        }
        let ghost target = self@.union_prefer_right(source@);
        let mut rest = source.data;
        while rest.len() > 0
            invariant
                distinct_keys(rest@),
                self@.union_prefer_right(entries_map(rest@)) == target,
            decreases rest.len(),
        {
            let ghost before = rest@;
            let ghost mine = self@;
            let entry = rest.pop().unwrap();
            proof {
                assert(before =~= rest@.push(entry));
                assert(distinct_keys(rest@));
                assert(!has_key(rest@, entry.0@));
                lemma_push_entry(rest@, entry);
            }
            self.insert(entry.0, entry.1);
            proof {
                assert(self@.union_prefer_right(entries_map(rest@)) =~= mine.union_prefer_right(
                    entries_map(before),
                ));
            }
        }
    }

    /// Turns the context into a JSON object with the same members.
    pub fn into_json(self) -> (value: Value)
        ensures
            json_is_object(value),
            json_members(value) == self@,
    {
        proof {
            use_type_invariant(&self);
        }
        object_from(self.data)
    }

    /// The context with the members of a JSON object. Any other JSON value is refused.
    pub fn from_value(obj: Value) -> (made: VictorsResult<Self>)
        ensures
            match made {
                Ok(context) => json_is_object(obj) && context@ == json_members(obj),
                Err(e) => !json_is_object(obj) && e@ == (crate::errors::Failure::Msg {
                    text: NOT_AN_OBJECT@,
                }),
            },
    {
        match object_members(obj) {
            Some(data) => Ok(Context { data }),
            None => Err(VictorsErrors::Msg(NOT_AN_OBJECT.to_owned())),
        }
    }

    /// The value under `key`.
    pub fn get(&self, key: &str) -> (found: Option<&Value>)
        ensures
            match found {
                Some(value) => self@.contains_key(key@) && *value == self@[key@],
                None => !self@.contains_key(key@),
            },
    {
        proof {
            use_type_invariant(self);
        }
        let wanted = key.to_owned();
        match self.position(&wanted) {
            Some(i) => {
                proof {
                    lemma_entry_is_member(self.data@, i as int);
                }
                Some(&self.data[i].1)
            },
            None => None,
        }
    }

    /// The key-value pair under `key`.
    pub fn get_key_value(&self, key: &str) -> (found: Option<(&String, &Value)>)
        ensures
            match found {
                Some((name, value)) => name@ == key@ && self@.contains_key(key@) && *value
                    == self@[key@],
                None => !self@.contains_key(key@),
            },
    {
        proof {
            use_type_invariant(self);
        }
        let wanted = key.to_owned();
        match self.position(&wanted) {
            Some(i) => {
                proof {
                    lemma_entry_is_member(self.data@, i as int);
                }
                Some((&self.data[i].0, &self.data[i].1))
            },
            None => None,
        }
    }

    /// Whether there is a value under `index`.
    pub fn contains_key(&self, index: &str) -> (found: bool)
        ensures
            found == self@.contains_key(index@),
    {
        let wanted = index.to_owned();
        self.position(&wanted).is_some()
    }

    /// Whether every entry of `self` has, under the same key in `other`, a
    /// value that `serde_json` finds equal.
    fn within(&self, other: &Context) -> (all: bool)
        ensures
            all == covered_by(self@, other@),
    {
        proof {
            use_type_invariant(self);
            use_type_invariant(other);
        }
        let mut i: usize = 0;
        while i < self.data.len()
            invariant
                i <= self.data.len(),
                distinct_keys(self.data@),
                distinct_keys(other.data@),
                forall|j: int|
                    0 <= j < i ==> other@.contains_key((#[trigger] self.data[j]).0@) && json_equal(
                        self.data[j].1,
                        other@[self.data[j].0@],
                    ),
            decreases self.data.len() - i,
        {
            proof {
                lemma_entry_is_member(self.data@, i as int);
            }
            match other.position(&self.data[i].0) {
                Some(at) => {
                    proof {
                        lemma_entry_is_member(other.data@, at as int);
                    }
                    if !json_eq(&self.data[i].1, &other.data[at].1) {
                        return false;
                    }
                },
                None => {
                    return false;
                },
            }
            i += 1;
        }
        proof {
            assert forall|key: Seq<char>| self@.contains_key(key) implies other@.contains_key(key)
                && json_equal(self@[key], other@[key]) by {
                let j = choose|j: int|
                    0 <= j < self.data@.len() && (#[trigger] self.data@[j]).0@ == key;
                lemma_entry_is_member(self.data@, j);
            }
        }
        true
    }
}

/// Whether every key of `a` is a key of `b` whose value `serde_json` finds
/// equal to the one in `a`.
pub open spec fn covered_by(a: Map<Seq<char>, Value>, b: Map<Seq<char>, Value>) -> bool {
    forall|key: Seq<char>| #[trigger]
        a.contains_key(key) ==> b.contains_key(key) && json_equal(a[key], b[key])
}

impl Default for Context {
    fn default() -> (context: Context)
        ensures
            context@ == Map::<Seq<char>, Value>::empty(),
    {
        Context::new()
    }
}

impl Clone for Context {
    fn clone(&self) -> (copy: Self)
        ensures
            copy@ == self@,
    {
        proof {
            use_type_invariant(self);
        }
        let mut data: Vec<(String, Value)> = Vec::new();
        let mut i: usize = 0;
        while i < self.data.len()
            invariant
                i <= self.data.len(),
                data@ == self.data@.take(i as int),
            decreases self.data.len() - i,
        {
            let entry = &self.data[i];
            data.push((entry.0.clone(), clone_json(&entry.1)));
            i += 1;
        }
        proof {
            assert(data@ =~= self.data@);
        }
        Context { data }
    }
}

impl PartialEq for Context {
    fn eq(&self, other: &Self) -> (same: bool) {
        self.within(other) && other.within(self)
    }
}

impl vstd::std_specs::cmp::PartialEqSpecImpl for Context {
    open spec fn obeys_eq_spec() -> bool {
        true
    }

    open spec fn eq_spec(&self, other: &Self) -> bool {
        covered_by(self@, other@) && covered_by(other@, self@)
    }
}

/// Adding an entry under a new key inserts it into the mapping.
proof fn lemma_push_entry(before: Seq<(String, Value)>, entry: (String, Value))
    requires
        distinct_keys(before),
        !has_key(before, entry.0@),
    ensures
        distinct_keys(before.push(entry)),
        entries_map(before.push(entry)) == entries_map(before).insert(entry.0@, entry.1),
{
    let after = before.push(entry);
    assert(distinct_keys(after));
    lemma_same_map(before, after, entry, after.len() - 1);
}

/// Putting an entry in the place of one with the same key inserts it into the mapping.
proof fn lemma_replace_entry(before: Seq<(String, Value)>, i: int, entry: (String, Value))
    requires
        distinct_keys(before),
        0 <= i < before.len(),
        before[i].0@ == entry.0@,
    ensures
        distinct_keys(before.update(i, entry)),
        entries_map(before.update(i, entry)) == entries_map(before).insert(entry.0@, entry.1),
{
    let after = before.update(i, entry);
    assert(distinct_keys(after));
    lemma_same_map(before, after, entry, i);
}

/// Two lists that differ only in the entry for one key differ as mappings in that key alone.
proof fn lemma_same_map(
    before: Seq<(String, Value)>,
    after: Seq<(String, Value)>,
    entry: (String, Value),
    at: int,
)
    requires
        distinct_keys(before),
        distinct_keys(after),
        before.len() <= after.len() <= before.len() + 1,
        0 <= at < after.len(),
        after[at] == entry,
        forall|j: int|
            0 <= j < before.len() ==> #[trigger] after[j] == before[j] || (after[j] == entry
                && before[j].0@ == entry.0@),
        forall|j: int| before.len() <= j < after.len() ==> #[trigger] after[j] == entry,
    ensures
        entries_map(after) == entries_map(before).insert(entry.0@, entry.1),
{
    assert forall|k: Seq<char>| has_key(after, k) <==> has_key(before, k) || k == entry.0@ by {
        if has_key(before, k) {
            let j = choose|j: int| 0 <= j < before.len() && (#[trigger] before[j]).0@ == k;
            assert(after[j].0@ == k);
        }
    }
    assert forall|k: Seq<char>| has_key(after, k) implies entries_map(after)[k] == entries_map(
        before,
    ).insert(entry.0@, entry.1)[k] by {
        let j = choose|j: int| 0 <= j < after.len() && (#[trigger] after[j]).0@ == k;
        lemma_entry_is_member(after, j);
        if k != entry.0@ {
            lemma_entry_is_member(before, j);
        }
    }
}

} // verus!
