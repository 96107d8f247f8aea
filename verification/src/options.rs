//! A model of the configuration blob that the host hands over at
//! initialization: a JSON-like value holding only what the launcher reads.

use vstd::prelude::*;

verus! {

/// A configuration value as the launcher sees it: a string, an array, an
/// object of keyed entries, or anything else (`Other` stands for every value
/// the launcher never looks inside, such as numbers, booleans and null).
#[derive(Debug, PartialEq, Eq)]
pub enum ConfigValue {
    Str(String),
    Arr(Vec<ConfigValue>),
    Obj(Vec<(String, ConfigValue)>),
    Other,
}

/// The value bound to `key` in a list of object entries: the first entry with
/// that key wins, as in a map built left to right without overwriting.
pub open spec fn lookup(entries: Seq<(String, ConfigValue)>, key: Seq<char>) -> Option<ConfigValue>
    decreases entries.len(),
{
    if entries.len() == 0 {
        None
    } else if entries[0].0@ == key {
        Some(entries[0].1)
    } else {
        lookup(entries.drop_first(), key)
    }
}

/// The value bound to `key` if `v` is an object holding that key.
pub open spec fn spec_get(v: ConfigValue, key: Seq<char>) -> Option<ConfigValue> {
    match v {
        ConfigValue::Obj(entries) => lookup(entries@, key),
        _ => None,
    }
}

proof fn lemma_lookup_after_misses(
    entries: Seq<(String, ConfigValue)>,
    key: Seq<char>,
    i: int,
)
    requires
        0 <= i <= entries.len(),
        forall|j: int| 0 <= j < i ==> entries[j].0@ != key,
    ensures
        lookup(entries, key) == lookup(entries.skip(i), key),
    decreases i,
{
    if i > 0 {
        assert(entries[0].0@ != key);
        lemma_lookup_after_misses(entries.drop_first(), key, i - 1);
        assert(entries.drop_first().skip(i - 1) =~= entries.skip(i));
    } else {
        assert(entries.skip(0) =~= entries);
    }
}

impl ConfigValue {
    /// The value bound to `key`, if this value is an object holding that key.
    pub fn get<'a>(&'a self, key: &str) -> (r: Option<&'a ConfigValue>)
        ensures
            match r {
                Some(c) => spec_get(*self, key@) == Some(*c),
                None => spec_get(*self, key@) is None,
            },
    {
        match self {
            ConfigValue::Obj(entries) => {
                let key_owned: String = key.to_owned();
                let n = entries.len();
                let mut i: usize = 0;
                while i < n
                    invariant
                        *self == ConfigValue::Obj(*entries),
                        n == entries@.len(),
                        0 <= i <= n,
                        forall|j: int| 0 <= j < i ==> entries@[j].0@ != key@,
                        key_owned@ == key@,
                    decreases n - i,
                {
                    if entries[i].0 == key_owned {
                        proof {
                            lemma_lookup_after_misses(entries@, key@, i as int);
                            assert(entries@.skip(i as int)[0] == entries@[i as int]);
                        }
                        return Some(&entries[i].1);
                    }
                    i = i + 1;
                }
                proof {
                    lemma_lookup_after_misses(entries@, key@, n as int);
                    assert(entries@.skip(n as int) =~= Seq::<(String, ConfigValue)>::empty());
                }
                None
            },
            _ => None,
        }
    }

    /// The elements of this value, if it is an array.
    pub fn as_array(&self) -> (r: Option<&Vec<ConfigValue>>)
        ensures
            match r {
                Some(a) => *self is Arr && a@ == self->Arr_0@,
                None => !(*self is Arr),
            },
    {
        match self {
            ConfigValue::Arr(items) => Some(items),
            _ => None,
        }
    }

    /// The string held by this value, if it is one.
    pub fn as_str(&self) -> (r: Option<&String>)
        ensures
            match r {
                Some(s) => *self is Str && s@ == self->Str_0@,
                None => !(*self is Str),
            },
    {
        match self {
            ConfigValue::Str(s) => Some(s),
            _ => None,
        }
    }
}

} // verus!
