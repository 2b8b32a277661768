//! The parameters of a callback: each name once, with the value that was
//! given for it last.

use vstd::prelude::*;
use crate::web::{url_parse, url_query_pairs, ParsedUrl};
use crate::{Error, ErrorView};

verus! {

/// A list of name and value pairs read as a mapping: where a name occurs more
/// than once, the pair that stands last decides.
pub open spec fn last_wins(pairs: Seq<(Seq<char>, Seq<char>)>) -> Map<Seq<char>, Seq<char>>
    decreases pairs.len(),
{
    if pairs.len() == 0 {
        Map::empty()
    } else {
        last_wins(pairs.drop_last()).insert(pairs.last().0, pairs.last().1)
    }
}

/// Whether no name stands twice in `pairs`.
pub open spec fn distinct_names(pairs: Seq<(Seq<char>, Seq<char>)>) -> bool {
    forall|i: int, j: int|
        0 <= i < j < pairs.len() ==> (#[trigger] pairs[i]).0 != (#[trigger] pairs[j]).0
}

/// Where no name stands twice in a list, none stands twice in the list without
/// its last pair.
proof fn lemma_distinct_front(pairs: Seq<(Seq<char>, Seq<char>)>)
    requires
        distinct_names(pairs),
        pairs.len() > 0,
    ensures
        distinct_names(pairs.drop_last()),
{
    let front = pairs.drop_last();
    assert forall|a: int, b: int| 0 <= a < b < front.len() implies (#[trigger] front[a]).0 != (
    #[trigger] front[b]).0 by {
        assert(pairs[a].0 != pairs[b].0);
    }
}

/// `last_wins` holds a name exactly if some pair bears it.
pub proof fn lemma_last_wins_names(pairs: Seq<(Seq<char>, Seq<char>)>, name: Seq<char>)
    ensures
        last_wins(pairs).contains_key(name) <==> exists|i: int|
            0 <= i < pairs.len() && (#[trigger] pairs[i]).0 == name,
    decreases pairs.len(),
{
    if pairs.len() > 0 {
        let front = pairs.drop_last();
        lemma_last_wins_names(front, name);
        if last_wins(pairs).contains_key(name) {
            if pairs.last().0 == name {
                assert(pairs[pairs.len() - 1].0 == name);
            } else {
                let i = choose|i: int| 0 <= i < front.len() && (#[trigger] front[i]).0 == name;
                assert(pairs[i].0 == name);
            }
        }
        if exists|i: int| 0 <= i < pairs.len() && (#[trigger] pairs[i]).0 == name {
            let i = choose|i: int| 0 <= i < pairs.len() && (#[trigger] pairs[i]).0 == name;
            if i < front.len() {
                assert(front[i].0 == name);
            }
        }
    }
}

/// Where no name stands twice, `last_wins` gives each name the value of its
/// one pair.
pub proof fn lemma_last_wins_value(pairs: Seq<(Seq<char>, Seq<char>)>, i: int)
    requires
        distinct_names(pairs),
        0 <= i < pairs.len(),
    ensures
        last_wins(pairs).contains_key(pairs[i].0),
        last_wins(pairs)[pairs[i].0] == pairs[i].1,
    decreases pairs.len(),
{
    let front = pairs.drop_last();
    if i < pairs.len() - 1 {
        lemma_distinct_front(pairs);
        lemma_last_wins_value(front, i);
        assert(front[i] == pairs[i]);
        assert(pairs[i].0 != pairs[pairs.len() - 1].0);
    }
}

/// Replacing the value of a name in place is an insertion into the mapping,
/// where no name stands twice.
proof fn lemma_last_wins_update(
    pairs: Seq<(Seq<char>, Seq<char>)>,
    i: int,
    value: Seq<char>,
)
    requires
        distinct_names(pairs),
        0 <= i < pairs.len(),
    ensures
        distinct_names(pairs.update(i, (pairs[i].0, value))),
        last_wins(pairs.update(i, (pairs[i].0, value))) == last_wins(pairs).insert(
            pairs[i].0,
            value,
        ),
    decreases pairs.len(),
{
    let name = pairs[i].0;
    let after = pairs.update(i, (name, value));
    assert(distinct_names(after)) by {
        assert forall|a: int, b: int| 0 <= a < b < after.len() implies (#[trigger] after[a]).0 != (
        #[trigger] after[b]).0 by {
            assert(pairs[a].0 != pairs[b].0);
        }
    }
    let front = pairs.drop_last();
    if i == pairs.len() - 1 {
        assert(after.drop_last() == front);
        assert(last_wins(front).insert(name, pairs[i].1).insert(name, value) == last_wins(
            front,
        ).insert(name, value));
    } else {
        lemma_distinct_front(pairs);
        lemma_last_wins_update(front, i, value);
        assert(front[i] == pairs[i]);
        assert(after.drop_last() == front.update(i, (name, value)));
        assert(after.last() == pairs.last());
        assert(pairs[i].0 != pairs[pairs.len() - 1].0);
        assert(last_wins(front).insert(name, value).insert(pairs.last().0, pairs.last().1)
            == last_wins(front).insert(pairs.last().0, pairs.last().1).insert(name, value));
    }
}

/// The parameters of a query: a mapping from names to values that holds each
/// name once.
pub struct Params {
    entries: Vec<(String, String)>,
}

impl View for Params {
    type V = Map<Seq<char>, Seq<char>>;

    closed spec fn view(&self) -> Map<Seq<char>, Seq<char>> {
        last_wins(self.entries.deep_view())
    }
}

impl Params {
    #[verifier::type_invariant]
    spec fn each_name_once(self) -> bool {
        distinct_names(self.entries.deep_view())
    }

    /// No parameters.
    pub fn new() -> (r: Params)
        ensures
            r@ == Map::<Seq<char>, Seq<char>>::empty(),
    {
        let entries: Vec<(String, String)> = Vec::new();
        assert(entries.deep_view() =~= Seq::<(Seq<char>, Seq<char>)>::empty());
        Params { entries }
    }

    /// Where `name` stands among the entries, if it does.
    fn position(&self, name: &String) -> (r: Option<usize>)
        ensures
            match r {
                Some(i) => i < self.entries.len() && self.entries.deep_view()[i as int].0
                    == name@,
                None => !self@.contains_key(name@),
            },
    {
        let mut i: usize = 0;
        while i < self.entries.len()
            invariant
                i <= self.entries.len(),
                forall|j: int| 0 <= j < i ==> (#[trigger] self.entries.deep_view()[j]).0 != name@,
            decreases self.entries.len() - i,
        {
            assert(self.entries.deep_view()[i as int] == self.entries[i as int].deep_view());
            if self.entries[i].0 == *name {
                return Some(i);
            }
            i += 1;
        }
        proof {
            lemma_last_wins_names(self.entries.deep_view(), name@);
        }
        None
    }

    /// These parameters with `value` for `name`, in place of the value that
    /// it had, if any.
    pub fn insert(self, name: String, value: String) -> (r: Params)
        ensures
            r@ == self@.insert(name@, value@),
    {
        proof {
            use_type_invariant(&self);
        }
        let ghost before = self.entries.deep_view();
        let found = self.position(&name);
        let mut entries = self.entries;
        match found {
            Some(i) => {
                proof {
                    lemma_last_wins_update(before, i as int, value@);
                }
                entries.set(i, (name, value));
                assert(entries.deep_view() =~= before.update(i as int, (name@, value@)));
            },
            None => {
                proof {
                    lemma_last_wins_names(before, name@);
                }
                entries.push((name, value));
                let ghost after = entries.deep_view();
                assert(after =~= before.push((name@, value@)));
                assert(after.drop_last() =~= before);
                assert(distinct_names(after)) by {
                    assert forall|a: int, b: int| 0 <= a < b < after.len() implies (
                    #[trigger] after[a]).0 != (#[trigger] after[b]).0 by {
                        assert(before[a].0 != name@);
                        if b < before.len() {
                            assert(before[a].0 != before[b].0);
                        }
                    }
                }
            },
        }
        Params { entries }
    }

    /// The value of `name`, if it has one.
    pub fn get(&self, name: &str) -> (r: Option<&String>)
        ensures
            match r {
                Some(value) => self@.contains_key(name@) && self@[name@] == value@,
                None => !self@.contains_key(name@),
            },
    {
        proof {
            use_type_invariant(self);
        }
        let key = name.to_owned();
        match self.position(&key) {
            Some(i) => {
                proof {
                    lemma_last_wins_value(self.entries.deep_view(), i as int);
                }
                assert(self.entries.deep_view()[i as int] == self.entries[i as int].deep_view());
                Some(&self.entries[i].1)
            },
            None => None,
        }
    }

    /// How many names have a value.
    pub fn len(&self) -> (n: usize)
        ensures
            n == self@.dom().len(),
            self@.dom().finite(),
    {
        proof {
            use_type_invariant(self);
            lemma_last_wins_len(self.entries.deep_view());
        }
        self.entries.len()
    }
}

/// Where no name stands twice, the mapping holds as many names as there are
/// pairs.
proof fn lemma_last_wins_len(pairs: Seq<(Seq<char>, Seq<char>)>)
    requires
        distinct_names(pairs),
    ensures
        last_wins(pairs).dom().finite(),
        last_wins(pairs).dom().len() == pairs.len(),
    decreases pairs.len(),
{
    if pairs.len() > 0 {
        let front = pairs.drop_last();
        lemma_distinct_front(pairs);
        lemma_last_wins_len(front);
        lemma_last_wins_names(front, pairs.last().0);
        if last_wins(front).contains_key(pairs.last().0) {
            let i = choose|i: int| 0 <= i < front.len() && (#[trigger] front[i]).0 == pairs.last().0;
            assert(pairs[i].0 != pairs[pairs.len() - 1].0);
        }
    }
}

/// The mapping that a list of pairs stands for, built pair by pair.
pub fn collect(pairs: &Vec<(String, String)>) -> (r: Params)
    ensures
        r@ == last_wins(pairs.deep_view()),
{
    let mut params = Params::new();
    let ghost all = pairs.deep_view();
    let mut i: usize = 0;
    while i < pairs.len()
        invariant
            i <= pairs.len(),
            all == pairs.deep_view(),
            params@ == last_wins(all.subrange(0, i as int)),
        decreases pairs.len() - i,
    {
        assert(all[i as int] == pairs[i as int].deep_view());
        assert(all.subrange(0, i + 1).drop_last() =~= all.subrange(0, i as int));
        params = params.insert(pairs[i].0.clone(), pairs[i].1.clone());
        i += 1;
    }
    assert(all.subrange(0, all.len() as int) =~= all);
    params
}

/// The parameters that the query of `url` carries, or that `url` is no URL.
pub open spec fn decoded(url: Seq<char>) -> Result<Map<Seq<char>, Seq<char>>, ErrorView> {
    match url_parse(url) {
        Ok(text) => Ok(last_wins(url_query_pairs(text))),
        Err(e) => Err(ErrorView::InvalidUrl(e)),
    }
}

/// Parameters or an error as contracts speak of it.
pub open spec fn params_view(r: Result<Params, Error>) -> Result<
    Map<Seq<char>, Seq<char>>,
    ErrorView,
> {
    match r {
        Ok(params) => Ok(params@),
        Err(error) => Err(error@),
    }
}

/// Reads the parameters of the query of `url`. Fails with `InvalidUrl` where
/// `url` is no URL.
pub fn decode_url(url: String) -> (r: Result<Params, Error>)
    ensures
        params_view(r) == decoded(url@),
{
    match ParsedUrl::parse(url.as_str()) {
        Ok(parsed) => Ok(collect(&parsed.query_pairs())),
        Err(e) => Err(Error::InvalidUrl(e)),
    }
}

} // verus!
