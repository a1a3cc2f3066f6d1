//! The query parameters of a request: a small map from parameter names to
//! values that remembers the order in which the names first arrived.

use vstd::prelude::*;

verus! {

/// The mathematical model of a parameter list: name and value pairs, in order.
pub type Pairs = Seq<(Seq<char>, Seq<char>)>;

/// No name occurs twice in `pairs`.
pub open spec fn names_distinct(pairs: Pairs) -> bool {
    forall|i: int, j: int|
        0 <= i < pairs.len() && 0 <= j < pairs.len() && i != j ==> pairs[i].0 != pairs[j].0
}

/// Some pair of `pairs` carries the name `name`.
pub open spec fn has_name(pairs: Pairs, name: Seq<char>) -> bool {
    exists|i: int| 0 <= i < pairs.len() && #[trigger] pairs[i].0 == name
}

/// A place at which `pairs` carries the name `name`, where there is one.
pub open spec fn place_of(pairs: Pairs, name: Seq<char>) -> int {
    choose|i: int| 0 <= i < pairs.len() && #[trigger] pairs[i].0 == name
}

/// The value that `pairs` holds under `name`, if any.
pub open spec fn value_of(pairs: Pairs, name: Seq<char>) -> Option<Seq<char>> {
    if has_name(pairs, name) {
        Some(pairs[place_of(pairs, name)].1)
    } else {
        None
    }
}

/// `pairs` after `name` is set to `value`: a name already present keeps its
/// place and takes the new value, a new name goes to the end.
pub open spec fn with_pair(pairs: Pairs, name: Seq<char>, value: Seq<char>) -> Pairs {
    if has_name(pairs, name) {
        pairs.update(place_of(pairs, name), (name, value))
    } else {
        pairs.push((name, value))
    }
}

/// In a list without repeated names, a name is found at one place only.
pub proof fn lemma_place_unique(pairs: Pairs, name: Seq<char>, i: int)
    requires
        names_distinct(pairs),
        0 <= i < pairs.len(),
        pairs[i].0 == name,
    ensures
        has_name(pairs, name),
        place_of(pairs, name) == i,
        value_of(pairs, name) == Some(pairs[i].1),
{
}

/// Setting a name keeps the names distinct.
pub proof fn lemma_with_pair_distinct(pairs: Pairs, name: Seq<char>, value: Seq<char>)
    requires
        names_distinct(pairs),
    ensures
        names_distinct(with_pair(pairs, name, value)),
{
}

/// Last write wins: after a name is set, it holds the value just given.
pub proof fn lemma_with_pair_reads_back(pairs: Pairs, name: Seq<char>, value: Seq<char>)
    requires
        names_distinct(pairs),
    ensures
        value_of(with_pair(pairs, name, value), name) == Some(value),
{
    let after = with_pair(pairs, name, value);
    lemma_with_pair_distinct(pairs, name, value);
    if has_name(pairs, name) {
        lemma_place_unique(after, name, place_of(pairs, name));
    } else {
        lemma_place_unique(after, name, pairs.len() as int);
    }
}

/// Setting one name leaves the value under every other name as it was.
pub proof fn lemma_with_pair_keeps_others(
    pairs: Pairs,
    name: Seq<char>,
    value: Seq<char>,
    other: Seq<char>,
)
    requires
        names_distinct(pairs),
        other != name,
    ensures
        value_of(with_pair(pairs, name, value), other) == value_of(pairs, other),
{
    lemma_with_pair_distinct(pairs, name, value);
    if has_name(pairs, other) {
        lemma_place_unique(with_pair(pairs, name, value), other, place_of(pairs, other));
    }
}

/// Setting a name that is present keeps the length; a new name adds one.
pub proof fn lemma_with_pair_len(pairs: Pairs, name: Seq<char>, value: Seq<char>)
    ensures
        with_pair(pairs, name, value).len() == if has_name(pairs, name) {
            pairs.len()
        } else {
            pairs.len() + 1
        },
{
}

/// One query parameter.
#[derive(Clone, Debug)]
pub struct Param {
    name: String,
    value: String,
}

/// The query parameters of a request. Each name occurs once; setting a name
/// again replaces its value. The parameters keep the order in which their
/// names were first set, and that is the order in which a URL lists them.
#[derive(Debug)]
pub struct Params {
    entries: Vec<Param>,
}

impl View for Params {
    type V = Pairs;

    closed spec fn view(&self) -> Pairs {
        Seq::new(self.entries@.len(), |i: int| (self.entries@[i].name@, self.entries@[i].value@))
    }
}

impl Clone for Params {
    /// A parameter list that holds the same names and values in the same
    /// order.
    fn clone(&self) -> (r: Params)
        ensures
            r@ == self@,
    {
        proof {
            use_type_invariant(self);
        }
        let mut entries: Vec<Param> = Vec::new();
        let mut i: usize = 0;
        while i < self.entries.len()
            invariant
                i <= self.entries@.len(),
                entries@.len() == i,
                forall|k: int|
                    0 <= k < i ==> entries@[k].name@ == self.entries@[k].name@ && entries@[k].value@
                        == self.entries@[k].value@,
            decreases self.entries@.len() - i,
        {
            let name = self.entries[i].name.clone();
            let value = self.entries[i].value.clone();
            entries.push(Param { name, value });
            i += 1;
        }
        assert(Seq::new(entries@.len(), |i: int| (entries@[i].name@, entries@[i].value@))
            =~= self@);
        Params { entries }
    }
}

impl Params {
    #[verifier::type_invariant]
    spec fn names_occur_once(self) -> bool {
        names_distinct(self@)
    }

    /// Creates an empty parameter list.
    pub fn new() -> (r: Params)
        ensures
            r@ == Pairs::empty(),
    {
        let r = Params { entries: Vec::new() };
        r
    }

    /// The number of parameters.
    pub fn len(&self) -> (n: usize)
        ensures
            n == self@.len(),
            names_distinct(self@),
    {
        proof {
            use_type_invariant(self);
        }
        self.entries.len()
    }

    /// Whether there is no parameter at all.
    pub fn is_empty(&self) -> (b: bool)
        ensures
            b == (self@.len() == 0),
    {
        self.entries.len() == 0
    }

    /// The name of the parameter at place `i`.
    pub fn name_at(&self, i: usize) -> (r: &str)
        requires
            i < self@.len(),
        ensures
            r@ == self@[i as int].0,
    {
        self.entries[i].name.as_str()
    }

    /// The value of the parameter at place `i`.
    pub fn value_at(&self, i: usize) -> (r: &str)
        requires
            i < self@.len(),
        ensures
            r@ == self@[i as int].1,
    {
        self.entries[i].value.as_str()
    }

    /// The place of `name` among the parameters, if it is set.
    fn find(&self, name: &String) -> (r: Option<usize>)
        ensures
            match r {
                Some(i) => i < self@.len() && self@[i as int].0 == name@,
                None => !has_name(self@, name@),
            },
    {
        let mut i: usize = 0;
        while i < self.entries.len()
            invariant
                i <= self.entries@.len(),
                self@.len() == self.entries@.len(),
                forall|k: int| 0 <= k < i ==> self@[k].0 != name@,
            decreases self.entries@.len() - i,
        {
            if self.entries[i].name == *name {
                return Some(i);
            }
            i += 1;
        }
        None
    }

    /// Whether `name` is set.
    pub fn contains_key(&self, name: &str) -> (b: bool)
        ensures
            b == has_name(self@, name@),
    {
        let owned = name.to_owned();
        self.find(&owned).is_some()
    }

    /// The value set under `name`, if any.
    pub fn get(&self, name: &str) -> (r: Option<&str>)
        ensures
            match r {
                Some(v) => value_of(self@, name@) == Some(v@),
                None => value_of(self@, name@) is None,
            },
    {
        let owned = name.to_owned();
        match self.find(&owned) {
            Some(i) => {
                proof {
                    use_type_invariant(self);
                    lemma_place_unique(self@, name@, i as int);
                }
                Some(self.entries[i].value.as_str())
            },
            None => None,
        }
    }

    /// Sets `name` to `value`. A name that was set before keeps its place and
    /// loses its old value; a new name is added behind the others.
    pub fn insert(&mut self, name: &str, value: String)
        ensures
            final(self)@ == with_pair(old(self)@, name@, value@),
            names_distinct(old(self)@),
            names_distinct(final(self)@),
    {
        let owned = name.to_owned();
        proof {
            use_type_invariant(&*self);
            lemma_with_pair_distinct(self@, name@, value@);
        }
        let ghost before = self@;
        let found = self.find(&owned);
        let mut entries: Vec<Param> = Vec::new();
        core::mem::swap(&mut self.entries, &mut entries);
        match found {
            Some(i) => {
                proof {
                    lemma_place_unique(before, name@, i as int);
                }
                entries.set(i, Param { name: owned, value });
            },
            None => {
                entries.push(Param { name: owned, value });
            },
        }
        assert(Seq::new(entries@.len(), |i: int| (entries@[i].name@, entries@[i].value@))
            =~= with_pair(before, name@, value@));
        self.entries = entries;
    }
}

} // verus!
