//! Query parameters of the read endpoints.
use vstd::prelude::*;
use vstd::string::StrSliceExecFns;
use crate::reconcile::keys_of;
use crate::web_error::Error;

verus! {

/// The pieces of `s` between commas, as `str::split(',')` yields them.
pub open spec fn split_commas(s: Seq<char>) -> Seq<Seq<char>>
    decreases s.len(),
{
    if s.len() == 0 {
        seq![Seq::empty()]
    } else {
        let parts = split_commas(s.drop_last());
        if s.last() == ',' {
            parts.push(Seq::empty())
        } else {
            parts.update(parts.len() - 1, parts.last().push(s.last()))
        }
    }
}

proof fn lemma_split_nonempty(s: Seq<char>)
    ensures
        split_commas(s).len() >= 1,
    decreases s.len(),
{
    if s.len() > 0 {
        lemma_split_nonempty(s.drop_last());
    }
}

/// The pieces of `s` between commas.
pub fn split_commas_exec(s: &str) -> (r: Vec<String>)
    ensures
        keys_of(r@) == split_commas(s@),
{
    let n = s.unicode_len();
    let mut parts: Vec<String> = Vec::new();
    let mut start: usize = 0;
    let mut i: usize = 0;
    assert(s@.subrange(0, 0) =~= Seq::<char>::empty());
    assert(keys_of(parts@).push(s@.subrange(0, 0)) =~= seq![Seq::<char>::empty()]);
    while i < n
        invariant
            n == s@.len(),
            start <= i <= n,
            keys_of(parts@).push(s@.subrange(start as int, i as int)) == split_commas(
                s@.subrange(0, i as int),
            ),
        decreases n - i,
    {
        let c = s.get_char(i);
        let ghost prev = split_commas(s@.subrange(0, i as int));
        assert(s@.subrange(0, i + 1).drop_last() =~= s@.subrange(0, i as int));
        proof {
            lemma_split_nonempty(s@.subrange(0, i as int));
        }
        if c == ',' {
            let piece = s.substring_char(start, i).to_owned();
            let ghost before = parts@;
            parts.push(piece);
            assert(keys_of(parts@) =~= keys_of(before).push(s@.subrange(start as int, i as int)));
            start = i + 1;
            assert(s@.subrange(start as int, i + 1) =~= Seq::<char>::empty());
        } else {
            assert(s@.subrange(start as int, i + 1) =~= s@.subrange(start as int, i as int).push(c));
            assert(keys_of(parts@).push(s@.subrange(start as int, i + 1)) =~= prev.update(
                prev.len() - 1,
                prev.last().push(c),
            ));
        }
        i = i + 1;
    }
    let piece = s.substring_char(start, n).to_owned();
    let ghost before = parts@;
    parts.push(piece);
    assert(keys_of(parts@) =~= keys_of(before).push(s@.subrange(start as int, n as int)));
    assert(s@.subrange(0, n as int) =~= s@);
    parts
}

/// Query of the transactions read endpoint: external ids separated by commas.
#[derive(Clone, Debug)]
pub struct GetTransactions {
    pub ids: Option<String>,
}

impl GetTransactions {
    /// The ids asked for; `UnsupportedMedia` when the query names none.
    pub fn transaction_ids(&self) -> (r: core::result::Result<Vec<String>, Error>)
        ensures
            self.ids matches Some(s) ==> (r matches Ok(v) && keys_of(v@) == split_commas(s@)),
            self.ids is None ==> r matches Err(Error::UnsupportedMedia),
    {
        match &self.ids {
            Some(s) => Ok(split_commas_exec(s.as_str())),
            None => Err(Error::UnsupportedMedia),
        }
    }
}

/// Query of the seller search fragment.
#[derive(Clone, Debug)]
pub struct Search {
    pub search: String,
}

} // verus!
