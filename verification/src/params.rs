//! Untyped, JSON-shaped parameter values and parameter bags.
//!
//! Configuration reaches the engine as a tree of [`ParamValue`]s: the shape a
//! parsed configuration document has before any typed decoding. A
//! [`ParamBag`] is the key/value container handed to each dispatch target
//! (operation or filter), which then declares which keys it requires and
//! coerces them itself.
//!
//! A floating-point scalar is carried as its decimal text: the execution
//! engine reconstructs the number at the boundary, and the resolution logic
//! itself never computes with it.

use vstd::prelude::*;

verus! {

/// Mathematical image of a [`ParamValue`].
pub enum ParamValueSpec {
    Null,
    Bool { b: bool },
    Int { i: i64 },
    UInt { u: u64 },
    Float { text: Seq<char> },
    Str { s: Seq<char> },
    Arr { items: Seq<ParamValueSpec> },
    Obj { entries: Seq<(Seq<char>, ParamValueSpec)> },
}

/// An untyped configuration value: the shape of a parsed JSON document.
#[derive(Debug)]
pub enum ParamValue {
    Null,
    Bool(bool),
    Int(i64),
    UInt(u64),
    /// A floating-point number, carried as its decimal text; the execution
    /// engine reconstructs the number at the boundary.
    Float(String),
    Str(String),
    Arr(Vec<ParamValue>),
    Obj(ParamBag),
}

/// One key/value pair of a [`ParamBag`].
#[derive(Debug)]
pub struct ParamEntry {
    pub key: String,
    pub value: ParamValue,
}

/// An untyped key/value parameter container. Lookup returns the first entry
/// with a matching key.
#[derive(Debug)]
pub struct ParamBag {
    pub entries: Vec<ParamEntry>,
}

pub open spec fn pv_view(v: ParamValue) -> ParamValueSpec
    decreases v,
{
    match v {
        ParamValue::Null => ParamValueSpec::Null,
        ParamValue::Bool(b) => ParamValueSpec::Bool { b },
        ParamValue::Int(i) => ParamValueSpec::Int { i },
        ParamValue::UInt(u) => ParamValueSpec::UInt { u },
        ParamValue::Float(text) => ParamValueSpec::Float { text: text@ },
        ParamValue::Str(s) => ParamValueSpec::Str { s: s@ },
        ParamValue::Arr(items) => {
            proof {
                assert(decreases_to!(v => items));
                assert(decreases_to!(items => items@));
            }
            ParamValueSpec::Arr { items: pv_view_list(items@) }
        },
        ParamValue::Obj(bag) => {
            proof {
                assert(decreases_to!(v => bag));
                assert(decreases_to!(bag => bag.entries));
                assert(decreases_to!(bag.entries => bag.entries@));
            }
            ParamValueSpec::Obj { entries: pe_view_list(bag.entries@) }
        },
    }
}

/// Pointwise image of a sequence of values.
pub open spec fn pv_view_list(s: Seq<ParamValue>) -> Seq<ParamValueSpec>
    decreases s,
{
    if s.len() == 0 {
        Seq::empty()
    } else {
        seq![pv_view(s[0])] + pv_view_list(s.drop_first())
    }
}

/// Pointwise image of a sequence of bag entries.
pub open spec fn pe_view_list(s: Seq<ParamEntry>) -> Seq<(Seq<char>, ParamValueSpec)>
    decreases s,
{
    if s.len() == 0 {
        Seq::empty()
    } else {
        proof {
            assert(decreases_to!(s => s[0]));
        }
        seq![(s[0].key@, pv_view(s[0].value))] + pe_view_list(s.drop_first())
    }
}

pub proof fn lemma_pv_view_list(s: Seq<ParamValue>)
    ensures
        pv_view_list(s).len() == s.len(),
        forall|i: int| 0 <= i < s.len() ==> pv_view_list(s)[i] == pv_view(s[i]),
    decreases s.len(),
{
    if s.len() > 0 {
        lemma_pv_view_list(s.drop_first());
        assert forall|i: int| 0 <= i < s.len() implies pv_view_list(s)[i] == pv_view(s[i]) by {
            if i > 0 {
                assert(s.drop_first()[i - 1] == s[i]);
            }
        }
    }
}

pub proof fn lemma_pe_view_list(s: Seq<ParamEntry>)
    ensures
        pe_view_list(s).len() == s.len(),
        forall|i: int| 0 <= i < s.len() ==> pe_view_list(s)[i] == (s[i].key@, pv_view(s[i].value)),
    decreases s.len(),
{
    if s.len() > 0 {
        lemma_pe_view_list(s.drop_first());
        assert forall|i: int| 0 <= i < s.len() implies pe_view_list(s)[i] == (
            s[i].key@,
            pv_view(s[i].value),
        ) by {
            if i > 0 {
                assert(s.drop_first()[i - 1] == s[i]);
            }
        }
    }
}

impl View for ParamValue {
    type V = ParamValueSpec;

    open spec fn view(&self) -> ParamValueSpec {
        pv_view(*self)
    }
}

impl View for ParamBag {
    type V = Seq<(Seq<char>, ParamValueSpec)>;

    open spec fn view(&self) -> Seq<(Seq<char>, ParamValueSpec)> {
        pe_view_list(self.entries@)
    }
}

impl Clone for ParamValue {
    /// A deep copy with the same mathematical image.
    #[verifier::loop_isolation(false)]
    fn clone(&self) -> (res: Self)
        ensures
            res@ == self@,
        decreases self,
    {
        match self {
            ParamValue::Null => ParamValue::Null,
            ParamValue::Bool(b) => ParamValue::Bool(*b),
            ParamValue::Int(i) => ParamValue::Int(*i),
            ParamValue::UInt(u) => ParamValue::UInt(*u),
            ParamValue::Float(text) => ParamValue::Float(text.clone()),
            ParamValue::Str(s) => ParamValue::Str(s.clone()),
            ParamValue::Arr(items) => {
                let n: usize = items.len();
                let mut copied: Vec<ParamValue> = Vec::new();
                let mut i: usize = 0;
                while i < n
                    invariant
                        0 <= i <= n,
                        n == items.len(),
                        copied@.len() == i,
                        forall|j: int| 0 <= j < i ==> pv_view(#[trigger] copied@[j]) == pv_view(
                            items@[j],
                        ),
                    decreases n - i,
                {
                    proof {
                        assert(decreases_to!(*self => self->Arr_0));
                        assert(decreases_to!(*items => items@));
                        assert(decreases_to!(items@ => items@[i as int]));
                    }
                    copied.push(items[i].clone());
                    i = i + 1;
                }
                proof {
                    lemma_pv_view_list(copied@);
                    lemma_pv_view_list(items@);
                    assert(pv_view_list(copied@) =~= pv_view_list(items@));
                }
                ParamValue::Arr(copied)
            },
            ParamValue::Obj(bag) => {
                let n: usize = bag.entries.len();
                let mut copied: Vec<ParamEntry> = Vec::new();
                let mut i: usize = 0;
                while i < n
                    invariant
                        0 <= i <= n,
                        n == bag.entries.len(),
                        copied@.len() == i,
                        forall|j: int| 0 <= j < i ==> (#[trigger] copied@[j]).key@
                            == bag.entries@[j].key@ && pv_view(copied@[j].value) == pv_view(
                            bag.entries@[j].value,
                        ),
                    decreases n - i,
                {
                    proof {
                        assert(decreases_to!(*self => self->Obj_0));
                        assert(decreases_to!(*bag => bag.entries));
                        assert(decreases_to!(bag.entries => bag.entries@));
                        assert(decreases_to!(bag.entries@ => bag.entries@[i as int]));
                        assert(decreases_to!(bag.entries@[i as int] => bag.entries@[i as int].value));
                    }
                    let entry = &bag.entries[i];
                    copied.push(ParamEntry { key: entry.key.clone(), value: entry.value.clone() });
                    i = i + 1;
                }
                proof {
                    lemma_pe_view_list(copied@);
                    lemma_pe_view_list(bag.entries@);
                    assert(pe_view_list(copied@) =~= pe_view_list(bag.entries@));
                }
                ParamValue::Obj(ParamBag { entries: copied })
            },
        }
    }
}

/// A deep copy of a sequence of bag entries, with the same mathematical image.
fn clone_entries(entries: &Vec<ParamEntry>) -> (res: Vec<ParamEntry>)
    ensures
        pe_view_list(res@) == pe_view_list(entries@),
{
    let n: usize = entries.len();
    let mut copied: Vec<ParamEntry> = Vec::new();
    let mut i: usize = 0;
    while i < n
        invariant
            0 <= i <= n,
            n == entries.len(),
            copied@.len() == i,
            forall|j: int| 0 <= j < i ==> (#[trigger] copied@[j]).key@ == entries@[j].key@
                && pv_view(copied@[j].value) == pv_view(entries@[j].value),
        decreases n - i,
    {
        let entry = &entries[i];
        copied.push(ParamEntry { key: entry.key.clone(), value: entry.value.clone() });
        i = i + 1;
    }
    proof {
        lemma_pe_view_list(copied@);
        lemma_pe_view_list(entries@);
        assert(pe_view_list(copied@) =~= pe_view_list(entries@));
    }
    copied
}

impl Clone for ParamBag {
    /// A deep copy with the same mathematical image.
    fn clone(&self) -> (res: Self)
        ensures
            res@ == self@,
    {
        ParamBag { entries: clone_entries(&self.entries) }
    }
}

/// First entry of `entries` whose key is `key`, if any.
pub open spec fn spec_bag_lookup(
    entries: Seq<(Seq<char>, ParamValueSpec)>,
    key: Seq<char>,
) -> Option<ParamValueSpec>
    decreases entries.len(),
{
    if entries.len() == 0 {
        None
    } else if entries[0].0 == key {
        Some(entries[0].1)
    } else {
        spec_bag_lookup(entries.drop_first(), key)
    }
}

/// String equality over the character sequences of two string slices.
pub fn str_eq(a: &str, b: &str) -> (r: bool)
    ensures
        r == (a@ == b@),
{
    let sa: String = a.to_owned();
    let sb: String = b.to_owned();
    sa.eq(&sb)
}

impl ParamBag {
    /// A bag with no entries.
    pub fn empty() -> (r: ParamBag)
        ensures
            r@ == Seq::<(Seq<char>, ParamValueSpec)>::empty(),
    {
        let bag = ParamBag { entries: Vec::new() };
        proof {
            assert(bag@ =~= Seq::<(Seq<char>, ParamValueSpec)>::empty());
        }
        bag
    }

    /// Appends one entry at the end of the bag.
    pub fn insert(&mut self, key: String, value: ParamValue)
        ensures
            final(self)@ == old(self)@.push((key@, value@)),
    {
        let ghost old_entries = self.entries@;
        let ghost k = key@;
        let ghost v = value@;
        self.entries.push(ParamEntry { key, value });
        proof {
            lemma_pe_view_list(old_entries);
            lemma_pe_view_list(self.entries@);
            assert(self@ =~= pe_view_list(old_entries).push((k, v)));
        }
    }

    /// First value stored under `key`, if any.
    pub fn get(&self, key: &str) -> (r: Option<&ParamValue>)
        ensures
            match r {
                Some(v) => spec_bag_lookup(self@, key@) == Some(v@),
                None => spec_bag_lookup(self@, key@) is None,
            },
    {
        proof {
            lemma_pe_view_list(self.entries@);
            assert(self@.skip(0) =~= self@);
        }
        let n: usize = self.entries.len();
        let mut i: usize = 0;
        while i < n
            invariant
                0 <= i <= n,
                n == self.entries.len(),
                self@ == pe_view_list(self.entries@),
                self@.len() == n,
                forall|j: int| 0 <= j < n ==> self@[j] == (
                    self.entries@[j].key@,
                    pv_view(self.entries@[j].value),
                ),
                spec_bag_lookup(self@, key@) == spec_bag_lookup(self@.skip(i as int), key@),
            decreases n - i,
        {
            if str_eq(self.entries[i].key.as_str(), key) {
                proof {
                    assert(self@.skip(i as int)[0] == self@[i as int]);
                }
                return Some(&self.entries[i].value);
            }
            proof {
                assert(self@.skip(i as int)[0] == self@[i as int]);
                assert(self@.skip(i as int).drop_first() =~= self@.skip(i + 1));
            }
            i = i + 1;
        }
        proof {
            assert(self@.skip(n as int) =~= Seq::<(Seq<char>, ParamValueSpec)>::empty());
        }
        None
    }
}

} // verus!
