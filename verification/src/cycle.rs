//! The cycle-selection algorithm.
//!
//! One cycle step reads the stored value for a key, looks the value up
//! in an ordered candidate list by canonical serialization, steps to
//! the next or previous candidate — or resets to the first candidate
//! when the key is unset or its value matches none — and writes the
//! selection back. Repeated steps therefore walk the candidate list as
//! a cyclic state machine over its index.
//!
//! Matching by serialization realizes deep structural JSON equality on
//! [`canonical`] documents: two canonical documents that are
//! structurally equal — object member order irrelevant, array order
//! relevant — are one value with one serialization (see
//! `lemma_canonical_keys_distinct`), and the store only ever holds the
//! serialization of the document given to `set` or `cycle`. A
//! candidate outside canonical form (an object in another member
//! order) is matched by its own serialization, not up to reordering.

use vstd::prelude::*;

use crate::json::{canonical, ser, to_text, Json};
use crate::store::Store;
use crate::StoreError;

verus! {

/// The index of the first candidate whose canonical serialization is
/// `t`, or `-1` if none matches. On canonical candidates and a stored
/// canonical document this is lookup by structural equality.
pub open spec fn first_match(cands: Seq<Json>, t: Seq<char>) -> int
    recommends
        forall|i: int| 0 <= i < cands.len() ==> canonical(#[trigger] cands[i]),
    decreases cands.len(),
{
    if cands.len() == 0 {
        -1
    } else if ser(cands[0]) == t {
        0
    } else {
        let r = first_match(cands.drop_first(), t);
        if r == -1 {
            -1
        } else {
            r + 1
        }
    }
}

/// `first_match` returns `-1` exactly when nothing matches, and
/// otherwise the least matching index.
pub proof fn lemma_first_match(cands: Seq<Json>, t: Seq<char>)
    ensures
        first_match(cands, t) == -1 ==> forall|i: int|
            0 <= i < cands.len() ==> ser(#[trigger] cands[i]) != t,
        first_match(cands, t) != -1 ==> {
            let m = first_match(cands, t);
            &&& 0 <= m < cands.len()
            &&& ser(cands[m]) == t
            &&& forall|j: int| 0 <= j < m ==> ser(#[trigger] cands[j]) != t
        },
    decreases cands.len(),
{
    if cands.len() == 0 {
    } else if ser(cands[0]) == t {
    } else {
        lemma_first_match(cands.drop_first(), t);
        assert(forall|k: int|
            0 <= k < cands.drop_first().len() ==> #[trigger] cands.drop_first()[k] == cands[
                k + 1
            ]);
        let m = first_match(cands, t);
        if m == -1 {
            assert forall|j: int| 0 <= j < cands.len() implies ser(#[trigger] cands[j]) != t by {
                if j > 0 {
                    assert(cands.drop_first()[j - 1] == cands[j]);
                }
            }
        } else {
            assert forall|j: int| 0 <= j < m implies ser(#[trigger] cands[j]) != t by {
                if j > 0 {
                    assert(cands.drop_first()[j - 1] == cands[j]);
                }
            }
        }
    }
}

/// A least matching index is what `first_match` returns.
pub proof fn lemma_first_match_is(cands: Seq<Json>, t: Seq<char>, i: int)
    requires
        0 <= i < cands.len(),
        ser(cands[i]) == t,
        forall|j: int| 0 <= j < i ==> ser(#[trigger] cands[j]) != t,
    ensures
        first_match(cands, t) == i,
    decreases cands.len(),
{
    if i == 0 {
    } else {
        assert(ser(cands[0]) != t);
        assert(forall|k: int|
            0 <= k < cands.drop_first().len() ==> #[trigger] cands.drop_first()[k] == cands[
                k + 1
            ]);
        lemma_first_match_is(cands.drop_first(), t, i - 1);
    }
}

/// The index one cycle step selects, given the stored text for the
/// key (`None` while the key is unset) and the candidate list.
pub open spec fn cycle_index(cands: Seq<Json>, stored: Option<Seq<char>>, reverse: bool) -> int
    recommends
        cands.len() > 0,
        forall|i: int| 0 <= i < cands.len() ==> canonical(#[trigger] cands[i]),
{
    match stored {
        None => 0,
        Some(t) => {
            let m = first_match(cands, t);
            if m == -1 {
                0
            } else if reverse {
                (m + cands.len() - 1) % (cands.len() as int)
            } else {
                (m + 1) % (cands.len() as int)
            }
        },
    }
}

/// Law: while a key holds the candidate at index `i` of a list whose
/// members serialize pairwise differently, a forward step selects the
/// next index and a reverse step the previous one, both cyclically.
pub proof fn lemma_cycle_steps(cands: Seq<Json>, i: int)
    requires
        0 <= i < cands.len(),
        forall|j: int, k: int|
            0 <= j < k < cands.len() ==> ser(#[trigger] cands[j]) != ser(#[trigger] cands[k]),
    ensures
        cycle_index(cands, Some(ser(cands[i])), false) == (i + 1) % (cands.len() as int),
        cycle_index(cands, Some(ser(cands[i])), true) == (i + cands.len() - 1) % (
        cands.len() as int),
{
    lemma_first_match_is(cands, ser(cands[i]), i);
}

/// Law: a stored value that matches no candidate resets the cycle to
/// the first candidate, exactly as an unset key does.
pub proof fn lemma_cycle_reset(cands: Seq<Json>, t: Seq<char>, reverse: bool)
    requires
        cands.len() > 0,
        forall|j: int| 0 <= j < cands.len() ==> ser(#[trigger] cands[j]) != t,
    ensures
        cycle_index(cands, Some(t), reverse) == 0,
        cycle_index(cands, None, reverse) == 0,
{
    lemma_first_match(cands, t);
}

/// The first index whose candidate serializes to `t`, if any.
fn find_first(values: &Vec<Json>, t: &String) -> (r: Option<usize>)
    ensures
        match r {
            Some(i) => i < values@.len() && first_match(values@, t@) == i,
            None => first_match(values@, t@) == -1,
        },
{
    let n = values.len();
    let mut i: usize = 0;
    while i < n
        invariant
            n == values@.len(),
            i <= n,
            forall|j: int| 0 <= j < i ==> ser(#[trigger] values@[j]) != t@,
        decreases n - i,
    {
        let s = to_text(&values[i]);
        if s == *t {
            proof {
                lemma_first_match_is(values@, t@, i as int);
            }
            return Some(i);
        }
        i += 1;
    }
    proof {
        lemma_first_match(values@, t@);
    }
    None
}

impl Store {
    /// One step of the cycle operation on `key` over `values`.
    ///
    /// With no candidates this is a no-op returning `Ok(None)`.
    /// Otherwise it selects the index `cycle_index` names — the first
    /// candidate when the key is unset or its stored text matches no
    /// candidate, the cyclic successor (or predecessor, with
    /// `reverse`) of the matched candidate else — persists that
    /// candidate under `key`, and returns the index. For `canonical`
    /// candidates the match is by deep structural equality.
    pub fn cycle(&mut self, key: &str, values: &Vec<Json>, reverse: bool) -> (r: Result<
        Option<usize>,
        StoreError,
    >)
        ensures
            final(self).cache_map() == old(self).cache_map(),
            values@.len() == 0 ==> r == Ok::<Option<usize>, StoreError>(None),
            match r {
                Ok(None) => values@.len() == 0 && final(self).data_map() == old(self).data_map(),
                Ok(Some(idx)) => {
                    let stored = if old(self).data_map().contains_key(key@) {
                        Some(old(self).data_map()[key@])
                    } else {
                        None
                    };
                    &&& values@.len() > 0
                    &&& idx == cycle_index(values@, stored, reverse)
                    &&& final(self).data_map() == old(self).data_map().insert(
                        key@,
                        ser(values@[idx as int]),
                    )
                },
                Err(e) => e == StoreError::Query && final(self).data_map() == old(
                    self,
                ).data_map(),
            },
    {
        let n = values.len();
        if n == 0 {
            return Ok(None);
        }
        let stored = match self.get(key) {
            Ok(o) => o,
            Err(e) => {
                return Err(e);
            },
        };
        let idx: usize = match stored {
            None => 0,
            Some(t) => match find_first(values, &t) {
                None => 0,
                Some(i) => {
                    if reverse {
                        if i == 0 {
                            n - 1
                        } else {
                            i - 1
                        }
                    } else {
                        if i + 1 == n {
                            0
                        } else {
                            i + 1
                        }
                    }
                },
            },
        };
        proof {
            if old(self).data_map().contains_key(key@) {
                let t0 = old(self).data_map()[key@];
                let m = first_match(values@, t0);
                lemma_first_match(values@, t0);
                if m != -1 {
                    assert((m + 1) % (n as int) == (if m + 1 == n {
                        0int
                    } else {
                        m + 1
                    })) by (nonlinear_arith)
                        requires
                            0 <= m < n,
                    ;
                    assert((m + n - 1) % (n as int) == (if m == 0 {
                        n - 1
                    } else {
                        m - 1
                    })) by (nonlinear_arith)
                        requires
                            0 <= m < n,
                    ;
                }
            }
        }
        match self.set(key, &values[idx]) {
            Ok(()) => Ok(Some(idx)),
            Err(e) => Err(e),
        }
    }
}

} // verus!
