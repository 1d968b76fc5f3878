//! Environment variables of a container.

use crate::text::same_text;
use vstd::prelude::*;
use vstd::string::*;

verus! {

/// Environment variables, each set once, in the order in which they were first set.
pub struct EnvVars {
    entries: Vec<(String, String)>,
}

/// Pairs of strings as pairs of texts.
pub open spec fn pair_texts(pairs: Seq<(String, String)>) -> Seq<(Seq<char>, Seq<char>)> {
    pairs.map_values(|p: (String, String)| (p.0@, p.1@))
}

/// Strings as texts.
pub open spec fn string_texts(strings: Seq<String>) -> Seq<Seq<char>> {
    strings.map_values(|s: String| s@)
}

/// The value of a variable, if it is set.
pub open spec fn lookup(vars: Seq<(Seq<char>, Seq<char>)>, key: Seq<char>) -> Option<Seq<char>>
    decreases vars.len(),
{
    if vars.len() == 0 {
        None
    } else if vars[0].0 == key {
        Some(vars[0].1)
    } else {
        lookup(vars.skip(1), key)
    }
}

/// Whether no variable is set twice.
pub open spec fn set_once(vars: Seq<(Seq<char>, Seq<char>)>) -> bool {
    forall|i: int, j: int|
        #![trigger vars[i], vars[j]]
        0 <= i < j < vars.len() ==> vars[i].0 != vars[j].0
}

/// One variable in the form `KEY=value`.
pub open spec fn assignment(var: (Seq<char>, Seq<char>)) -> Seq<char> {
    var.0 + "="@ + var.1
}

impl View for EnvVars {
    type V = Seq<(Seq<char>, Seq<char>)>;

    closed spec fn view(&self) -> Seq<(Seq<char>, Seq<char>)> {
        pair_texts(self.entries@)
    }
}

/// A variable that stands at `i` is found there if none before it has its name.
proof fn lemma_lookup_at(vars: Seq<(Seq<char>, Seq<char>)>, key: Seq<char>, i: int)
    requires
        0 <= i < vars.len(),
        vars[i].0 == key,
        forall|k: int| 0 <= k < i ==> (#[trigger] vars[k]).0 != key,
    ensures
        lookup(vars, key) == Some(vars[i].1),
    decreases i,
{
    if i > 0 {
        assert(vars[0].0 != key);
        let rest = vars.skip(1);
        assert(rest[i - 1] == vars[i]);
        assert forall|k: int| 0 <= k < i - 1 implies (#[trigger] rest[k]).0 != key by {
            assert(rest[k] == vars[k + 1]);
        }
        lemma_lookup_at(rest, key, i - 1);
    }
}

/// A variable that stands nowhere is not found.
pub proof fn lemma_lookup_none(vars: Seq<(Seq<char>, Seq<char>)>, key: Seq<char>)
    requires
        forall|k: int| 0 <= k < vars.len() ==> (#[trigger] vars[k]).0 != key,
    ensures
        lookup(vars, key) is None,
    decreases vars.len(),
{
    if vars.len() > 0 {
        assert(vars[0].0 != key);
        let rest = vars.skip(1);
        assert forall|k: int| 0 <= k < rest.len() implies (#[trigger] rest[k]).0 != key by {
            assert(rest[k] == vars[k + 1]);
        }
        lemma_lookup_none(rest, key);
    }
}

impl EnvVars {
    #[verifier::type_invariant]
    spec fn inv(self) -> bool {
        set_once(pair_texts(self.entries@))
    }

    /// No variables.
    pub fn new() -> (r: Self)
        ensures
            r@ == Seq::<(Seq<char>, Seq<char>)>::empty(),
    {
        let r = EnvVars { entries: Vec::new() };
        assert(r@ =~= Seq::empty());
        r
    }

    /// The position of a variable, or the number of variables if it is not set.
    fn position(&self, key: &str) -> (r: usize)
        ensures
            r <= self@.len(),
            r < self@.len() ==> self@[r as int].0 == key@,
            forall|k: int| 0 <= k < r ==> (#[trigger] self@[k]).0 != key@,
    {
        let mut i: usize = 0;
        while i < self.entries.len()
            invariant
                i <= self.entries.len(),
                forall|k: int| 0 <= k < i ==> (#[trigger] self@[k]).0 != key@,
            decreases self.entries.len() - i,
        {
            if same_text(self.entries[i].0.as_str(), key) {
                return i;
            }
            i = i + 1;
        }
        i
    }

    /// These variables and another one; a variable of the same name gets the new value.
    pub fn with(self, key: &str, value: String) -> (r: Self)
        ensures
            set_once(r@),
            lookup(r@, key@) == Some(value@),
            forall|other: Seq<char>|
                other != key@ ==> #[trigger] lookup(r@, other) == lookup(self@, other),
            lookup(self@, key@) is None ==> r@ == self@.push((key@, value@)),
    {
        proof {
            use_type_invariant(&self);
        }
        let at: usize = self.position(key);
        let ghost before = self@;
        let EnvVars { entries } = self;
        let mut entries = entries;
        if at < entries.len() {
            entries.set(at, (key.to_string(), value));
            assert(pair_texts(entries@) =~= before.update(at as int, (key@, value@)));
        } else {
            entries.push((key.to_string(), value));
            assert(pair_texts(entries@) =~= before.push((key@, value@)));
        }
        let ghost after = pair_texts(entries@);
        proof {
            assert forall|i: int, j: int|
                #![trigger after[i], after[j]]
                0 <= i < j < after.len() implies after[i].0 != after[j].0 by {
                if at < before.len() {
                    assert(after[i].0 == before[i].0);
                    assert(after[j].0 == before[j].0);
                } else {
                    assert(after[i] == before[i]);
                    if j < before.len() {
                        assert(after[j] == before[j]);
                    }
                }
            }
            assert forall|k: int| 0 <= k < at implies (#[trigger] after[k]).0 != key@ by {
                assert(after[k] == before[k]);
            }
            lemma_lookup_at(after, key@, at as int);
            if at < before.len() {
                lemma_lookup_at(before, key@, at as int);
            }
            assert forall|other: Seq<char>| other != key@ implies #[trigger] lookup(after, other)
                == lookup(before, other) by {
                lemma_same_lookup(before, after, at as int, key@, other);
            }
        }
        EnvVars { entries }
    }

    /// The value of a variable, if it is set.
    pub fn get(&self, key: &str) -> (r: Option<&String>)
        ensures
            match r {
                Some(value) => lookup(self@, key@) == Some(value@),
                None => lookup(self@, key@) is None,
            },
    {
        let at: usize = self.position(key);
        if at < self.entries.len() {
            proof {
                lemma_lookup_at(self@, key@, at as int);
            }
            Some(&self.entries[at].1)
        } else {
            proof {
                lemma_lookup_none(self@, key@);
            }
            None
        }
    }

    /// Whether a variable is set.
    pub fn contains_key(&self, key: &str) -> (r: bool)
        ensures
            r == (lookup(self@, key@) is Some),
    {
        self.get(key).is_some()
    }

    /// The variables in the form `KEY=value`.
    pub fn assignments(&self) -> (r: Vec<String>)
        ensures
            string_texts(r@) == self@.map_values(|v: (Seq<char>, Seq<char>)| assignment(v)),
    {
        let mut r: Vec<String> = Vec::new();
        let mut i: usize = 0;
        while i < self.entries.len()
            invariant
                i <= self.entries.len(),
                r@.len() == i,
                forall|k: int| 0 <= k < i ==> (#[trigger] r@[k])@ == assignment(self@[k]),
            decreases self.entries.len() - i,
        {
            let mut line = self.entries[i].0.clone();
            line.append("=");
            line.append(self.entries[i].1.as_str());
            r.push(line);
            i = i + 1;
        }
        assert(string_texts(r@) =~= self@.map_values(
            |v: (Seq<char>, Seq<char>)| assignment(v),
        ));
        r
    }
}

/// Two lists that differ in one place, where both hold one and the same name or only the second
/// holds it, agree on every other name.
proof fn lemma_same_lookup(
    before: Seq<(Seq<char>, Seq<char>)>,
    after: Seq<(Seq<char>, Seq<char>)>,
    at: int,
    key: Seq<char>,
    other: Seq<char>,
)
    requires
        other != key,
        0 <= at <= before.len(),
        at < after.len(),
        after[at].0 == key,
        at < before.len() ==> before[at].0 == key && after.len() == before.len(),
        at == before.len() ==> after.len() == before.len() + 1,
        forall|k: int|
            0 <= k < before.len() && k != at ==> #[trigger] after[k] == before[k],
    ensures
        lookup(after, other) == lookup(before, other),
    decreases after.len(),
{
    if at == 0 {
        if before.len() == 0 {
            assert(after.skip(1) =~= Seq::empty());
            assert(lookup(after.skip(1), other) is None);
        } else {
            assert(after.skip(1) =~= before.skip(1)) by {
                assert forall|k: int| 0 <= k < before.len() - 1 implies after.skip(1)[k]
                    == before.skip(1)[k] by {
                    assert(after[k + 1] == before[k + 1]);
                }
            }
        }
    } else {
        assert(after[0] == before[0]);
        if after[0].0 != other {
            let b = before.skip(1);
            let a = after.skip(1);
            assert forall|k: int| 0 <= k < b.len() && k != at - 1 implies #[trigger] a[k]
                == b[k] by {
                assert(after[k + 1] == before[k + 1]);
            }
            lemma_same_lookup(b, a, at - 1, key, other);
        }
    }
}

} // verus!
