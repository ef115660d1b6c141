//! The per-call argument register: the read-only container the resolver
//! consults, addressable by position and by name.

use vstd::prelude::*;
use crate::strutil::str_eq;
use crate::value::NaslValue;

verus! {

/// The call-time container of actual arguments: one sequence of positional
/// values and one mapping from names to values. A script call allocates its
/// own register; resolution only reads it.
pub struct Register {
    positional: Vec<NaslValue>,
    named: Vec<(String, NaslValue)>,
}

/// The mathematical content of a [`Register`]: the positional arguments as a
/// sequence and the named arguments as a map. When a name is supplied twice,
/// the later entry is the one in the map.
pub struct RegisterView {
    pub positional: Seq<NaslValue>,
    pub named: Map<Seq<char>, NaslValue>,
}

/// The name-to-value map a list of named-argument entries denotes: each
/// entry overwrites earlier entries of the same name.
pub open spec fn named_map(entries: Seq<(String, NaslValue)>) -> Map<Seq<char>, NaslValue>
    decreases entries.len(),
{
    if entries.len() == 0 {
        Map::empty()
    } else {
        named_map(entries.drop_last()).insert(entries.last().0@, entries.last().1)
    }
}

impl View for Register {
    type V = RegisterView;

    closed spec fn view(&self) -> RegisterView {
        RegisterView { positional: self.positional@, named: named_map(self.named@) }
    }
}

/// If `entries[k]` is the last entry under `key`, the map holds its value.
proof fn lemma_named_map_found(entries: Seq<(String, NaslValue)>, key: Seq<char>, k: int)
    requires
        0 <= k < entries.len(),
        entries[k].0@ == key,
        forall|j: int| k < j < entries.len() ==> entries[j].0@ != key,
    ensures
        named_map(entries).contains_key(key),
        named_map(entries)[key] == entries[k].1,
    decreases entries.len(),
{
    if k == entries.len() - 1 {
    } else {
        assert(entries.drop_last()[k] == entries[k]);
        assert(forall|j: int|
            k < j < entries.drop_last().len() ==> entries.drop_last()[j].0@ != key);
        lemma_named_map_found(entries.drop_last(), key, k);
    }
}

/// A key under which no entry stands is not in the map.
proof fn lemma_named_map_absent(entries: Seq<(String, NaslValue)>, key: Seq<char>)
    requires
        forall|j: int| 0 <= j < entries.len() ==> entries[j].0@ != key,
    ensures
        !named_map(entries).contains_key(key),
    decreases entries.len(),
{
    if entries.len() > 0 {
        assert(forall|j: int|
            0 <= j < entries.drop_last().len() ==> entries.drop_last()[j].0@ != key);
        lemma_named_map_absent(entries.drop_last(), key);
    }
}

impl Register {
    /// An empty register: no positional and no named arguments.
    pub fn new() -> (r: Self)
        ensures
            r@.positional == Seq::<NaslValue>::empty(),
            r@.named == Map::<Seq<char>, NaslValue>::empty(),
    {
        Register { positional: Vec::new(), named: Vec::new() }
    }

    /// Append the next positional argument.
    pub fn push_positional(&mut self, v: NaslValue)
        ensures
            final(self)@.positional == old(self)@.positional.push(v),
            final(self)@.named == old(self)@.named,
    {
        self.positional.push(v);
    }

    /// Supply a named argument; a later entry under the same name replaces
    /// an earlier one.
    pub fn add_named(&mut self, name: String, v: NaslValue)
        ensures
            final(self)@.positional == old(self)@.positional,
            final(self)@.named == old(self)@.named.insert(name@, v),
    {
        let ghost gname = name;
        let ghost gv = v;
        self.named.push((name, v));
        proof {
            assert(self.named@.drop_last() =~= old(self).named@);
            assert(self.named@.last() == (gname, gv));
        }
    }

    /// How many positional arguments the call supplied.
    pub fn num_positional(&self) -> (n: usize)
        ensures
            n == self@.positional.len(),
    {
        self.positional.len()
    }

    /// The positional argument at `position`, if the call supplied one.
    pub fn get_positional(&self, position: usize) -> (r: Option<&NaslValue>)
        ensures
            match r {
                Some(v) => position < self@.positional.len() && *v == self@.positional[
                    position as int
                ],
                None => position >= self@.positional.len(),
            },
    {
        if position < self.positional.len() {
            Some(&self.positional[position])
        } else {
            None
        }
    }

    /// The named argument under `name`, if the call supplied one.
    pub fn get_named(&self, name: &str) -> (r: Option<&NaslValue>)
        ensures
            match r {
                Some(v) => self@.named.contains_key(name@) && *v == self@.named[name@],
                None => !self@.named.contains_key(name@),
            },
    {
        let mut i: usize = self.named.len();
        while i > 0
            invariant
                i <= self.named@.len(),
                forall|j: int| i <= j < self.named@.len() ==> self.named@[j].0@ != name@,
            decreases i,
        {
            i = i - 1;
            let entry = &self.named[i];
            if str_eq(entry.0.as_str(), name) {
                proof {
                    lemma_named_map_found(self.named@, name@, i as int);
                }
                return Some(&entry.1);
            }
        }
        proof {
            lemma_named_map_absent(self.named@, name@);
        }
        None
    }
}

} // verus!
