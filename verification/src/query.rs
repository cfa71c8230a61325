//! Query parameters: a mapping from name to value in which the last value
//! given for a name wins.

use crate::text::str_eq;
use vstd::prelude::*;

verus! {

/// The mapping that a sequence of (name, value) pairs stands for: each pair
/// is inserted in turn, so of two pairs with one name the later wins.
pub open spec fn pairs_to_map(pairs: Seq<(Seq<char>, Seq<char>)>) -> Map<Seq<char>, Seq<char>>
    decreases pairs.len(),
{
    if pairs.len() == 0 {
        Map::empty()
    } else {
        pairs_to_map(pairs.drop_last()).insert(pairs.last().0, pairs.last().1)
    }
}

/// The value that a mapping has for a name, if it has one.
pub open spec fn lookup(params: Map<Seq<char>, Seq<char>>, name: Seq<char>) -> Option<Seq<char>> {
    if params.dom().contains(name) {
        Some(params[name])
    } else {
        None
    }
}

/// The last value given for a name wins: the mapping has for the name of a
/// pair the value of that pair, where no later pair has the same name.
pub proof fn lemma_last_value_wins(pairs: Seq<(Seq<char>, Seq<char>)>, i: int)
    requires
        0 <= i < pairs.len(),
        forall|j: int| i < j < pairs.len() ==> (#[trigger] pairs[j]).0 != pairs[i].0,
    ensures
        lookup(pairs_to_map(pairs), pairs[i].0) == Some(pairs[i].1),
    decreases pairs.len(),
{
    if i < pairs.len() - 1 {
        assert(pairs.last().0 != pairs[i].0);
        assert(pairs.drop_last()[i] == pairs[i]);
        lemma_last_value_wins(pairs.drop_last(), i);
    }
}

/// The mapping has no value for a name that no pair has.
pub proof fn lemma_absent_name(pairs: Seq<(Seq<char>, Seq<char>)>, name: Seq<char>)
    requires
        forall|j: int| 0 <= j < pairs.len() ==> (#[trigger] pairs[j]).0 != name,
    ensures
        lookup(pairs_to_map(pairs), name) is None,
    decreases pairs.len(),
{
    if pairs.len() > 0 {
        assert(pairs.last().0 != name);
        assert forall|j: int| 0 <= j < pairs.drop_last().len() implies (
        #[trigger] pairs.drop_last()[j]).0 != name by {
            assert(pairs.drop_last()[j] == pairs[j]);
        }
        lemma_absent_name(pairs.drop_last(), name);
    }
}

/// The (name, value) pairs that `form_urlencoded::parse` reads from the bytes
/// of a query string, in the order in which they stand there.
pub uninterp spec fn urlencoded_pairs(raw: Seq<u8>) -> Seq<(Seq<char>, Seq<char>)>;

/// Reads the (name, value) pairs of a query string with
/// `url::form_urlencoded::parse`, which splits at `&` and at the first `=`
/// and decodes `+` and percent escapes. The pairs are a function of the bytes
/// alone, and an empty query string has none.
#[verifier::external_body]
fn parse_pairs(raw: &[u8]) -> (pairs: Vec<(String, String)>)
    ensures
        pairs.deep_view() == urlencoded_pairs(raw@),
        raw@.len() == 0 ==> pairs@.len() == 0,
{
    url::form_urlencoded::parse(raw).into_owned().collect()
}

/// The parameters of one request.
pub struct QueryParams {
    pairs: Vec<(String, String)>,
}

impl View for QueryParams {
    type V = Map<Seq<char>, Seq<char>>;

    closed spec fn view(&self) -> Map<Seq<char>, Seq<char>> {
        pairs_to_map(self.pairs.deep_view())
    }
}

impl QueryParams {
    /// No parameters.
    pub fn new() -> (params: QueryParams)
        ensures
            params@ == Map::<Seq<char>, Seq<char>>::empty(),
    {
        let params = QueryParams { pairs: Vec::new() };
        assert(params.pairs.deep_view() =~= Seq::empty());
        params
    }

    /// The parameters that the (name, value) pairs of `pairs` give when they
    /// are inserted in their order.
    pub fn from_pairs(pairs: Vec<(String, String)>) -> (params: QueryParams)
        ensures
            params@ == pairs_to_map(pairs.deep_view()),
    {
        QueryParams { pairs }
    }

    /// The parameters of a raw query string, the part of a request target
    /// behind its first `?`.
    pub fn parse(raw: &[u8]) -> (params: QueryParams)
        ensures
            params@ == pairs_to_map(urlencoded_pairs(raw@)),
            raw@.len() == 0 ==> params@ == Map::<Seq<char>, Seq<char>>::empty(),
    {
        let pairs: Vec<(String, String)> = parse_pairs(raw);
        assert(pairs@.len() == 0 ==> pairs.deep_view() =~= Seq::empty());
        QueryParams { pairs }
    }

    /// Gives `name` the value `value`, in place of the value it had.
    pub fn insert(&mut self, name: String, value: String)
        ensures
            final(self)@ == old(self)@.insert(name@, value@),
    {
        let ghost before = self.pairs.deep_view();
        self.pairs.push((name, value));
        assert(self.pairs.deep_view().drop_last() =~= before);
        assert(self.pairs.deep_view().last() == (name@, value@));
    }

    /// The value of `name`, if it has one.
    pub fn get(&self, name: &str) -> (value: Option<&str>)
        ensures
            value.deep_view() == lookup(self@, name@),
    {
        let mut i: usize = self.pairs.len();
        assert(self.pairs.deep_view().take(i as int) =~= self.pairs.deep_view());
        while i > 0
            invariant
                i <= self.pairs.len(),
                lookup(self@, name@) == lookup(
                    pairs_to_map(self.pairs.deep_view().take(i as int)),
                    name@,
                ),
            decreases i,
        {
            i = i - 1;
            let ghost prefix = self.pairs.deep_view().take(i + 1);
            assert(prefix.last() == self.pairs@[i as int].deep_view());
            assert(prefix.drop_last() =~= self.pairs.deep_view().take(i as int));
            if str_eq(self.pairs[i].0.as_str(), name) {
                return Some(self.pairs[i].1.as_str());
            }
        }
        assert(self.pairs.deep_view().take(0) =~= Seq::empty());
        None
    }
}

} // verus!
