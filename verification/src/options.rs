//! The options builder: a fluent way to choose the query parameters of a
//! request.

use crate::params::{names_distinct, with_pair, Pairs, Params};
use crate::wire::{Block, Language, Unit};
use vstd::prelude::*;

verus! {

/// The wire tokens of `blocks`, in order, with a comma between neighbours.
pub open spec fn block_list(blocks: Seq<Block>) -> Seq<char>
    decreases blocks.len(),
{
    if blocks.len() == 0 {
        Seq::empty()
    } else if blocks.len() == 1 {
        blocks[0].token()
    } else {
        block_list(blocks.drop_last()) + ","@ + blocks.last().token()
    }
}

/// `name` is one of the parameters that the builder knows.
pub open spec fn known_name(name: Seq<char>) -> bool {
    name == "exclude"@ || name == "extend"@ || name == "lang"@ || name == "units"@
}

/// Every name in `pairs` is one that the builder knows.
pub open spec fn known_names_only(pairs: Pairs) -> bool {
    forall|i: int| 0 <= i < pairs.len() ==> known_name((#[trigger] pairs[i]).0)
}

/// Setting a parameter that the builder knows, among parameters that it
/// knows, leaves only such parameters.
pub proof fn lemma_known_names_stay(pairs: Pairs, name: Seq<char>, value: Seq<char>)
    requires
        known_names_only(pairs),
        known_name(name),
    ensures
        known_names_only(with_pair(pairs, name, value)),
{
}

/// Builds the query parameters of a request. Each method takes the builder,
/// sets one parameter and hands the builder back, so calls can be chained;
/// setting a parameter again replaces its value. As long as nothing is put
/// in through [`Options::get_mut`], the builder holds none but the parameters
/// `exclude`, `extend`, `lang` and `units`.
#[derive(Debug)]
pub struct Options(Params);

impl View for Options {
    type V = Pairs;

    closed spec fn view(&self) -> Pairs {
        self.0@
    }
}

impl Clone for Options {
    /// A builder with the same parameters set.
    fn clone(&self) -> (r: Options)
        ensures
            r@ == self@,
    {
        Options(self.0.clone())
    }
}

impl Default for Options {
    /// A builder with no parameter set.
    fn default() -> (r: Options)
        ensures
            r@ == Pairs::empty(),
            known_names_only(r@),
    {
        Options(Params::new())
    }
}

impl Options {
    /// Sets `exclude` to the comma-separated tokens of `blocks`. An empty
    /// list sets `exclude` to the empty text.
    pub fn exclude(self, blocks: Vec<Block>) -> (r: Options)
        ensures
            r@ == with_pair(self@, "exclude"@, block_list(blocks@)),
            names_distinct(r@),
            known_names_only(self@) ==> known_names_only(r@),
    {
        let mut list = String::new();
        let mut i: usize = 0;
        while i < blocks.len()
            invariant
                i <= blocks@.len(),
                list@ == block_list(blocks@.take(i as int)),
            decreases blocks@.len() - i,
        {
            if i > 0 {
                list.append(",");
            }
            let ghost done = blocks@.take(i as int);
            let ghost next = blocks@.take(i + 1);
            assert(next.drop_last() =~= done);
            list.append(blocks[i].name());
            i += 1;
        }
        assert(blocks@.take(blocks@.len() as int) =~= blocks@);
        proof {
            if known_names_only(self@) {
                lemma_known_names_stay(self@, "exclude"@, list@);
            }
        }
        let mut params = self.0;
        params.insert("exclude", list);
        Options(params)
    }

    /// Sets `extend` to `hourly`: the hourly block then covers the whole
    /// week rather than two days.
    pub fn extend_hourly(self) -> (r: Options)
        ensures
            r@ == with_pair(self@, "extend"@, "hourly"@),
            names_distinct(r@),
            known_names_only(self@) ==> known_names_only(r@),
    {
        proof {
            if known_names_only(self@) {
                lemma_known_names_stay(self@, "extend"@, "hourly"@);
            }
        }
        let mut params = self.0;
        params.insert("extend", "hourly".to_owned());
        Options(params)
    }

    /// The parameters set so far, for changing them directly. Names and
    /// values put in this way go into the URL as they are.
    pub fn get_mut(&mut self) -> (r: &mut Params)
        ensures
            r@ == old(self)@,
            final(self)@ == final(r)@,
    {
        &mut self.0
    }

    /// The parameters set so far.
    pub fn get_ref(&self) -> (r: &Params)
        ensures
            r@ == self@,
    {
        &self.0
    }

    /// Gives up the builder for the parameters set so far.
    pub fn into_inner(self) -> (r: Params)
        ensures
            r@ == self@,
    {
        self.0
    }

    /// Sets `lang` to the token of `language`.
    pub fn language(self, language: Language) -> (r: Options)
        ensures
            r@ == with_pair(self@, "lang"@, language.token()),
            names_distinct(r@),
            known_names_only(self@) ==> known_names_only(r@),
    {
        proof {
            if known_names_only(self@) {
                lemma_known_names_stay(self@, "lang"@, language.token());
            }
        }
        let mut params = self.0;
        params.insert("lang", language.name().to_owned());
        Options(params)
    }

    /// Sets `units` to the token of `unit`.
    pub fn unit(self, unit: Unit) -> (r: Options)
        ensures
            r@ == with_pair(self@, "units"@, unit.token()),
            names_distinct(r@),
            known_names_only(self@) ==> known_names_only(r@),
    {
        proof {
            if known_names_only(self@) {
                lemma_known_names_stay(self@, "units"@, unit.token());
            }
        }
        let mut params = self.0;
        params.insert("units", unit.name().to_owned());
        Options(params)
    }
}

} // verus!
