//! The ambiguity resolver, for sum types only: an origin type that occurs
//! in more than one provisional candidate is ambiguous — a value of that
//! type could be routed to more than one variant — and every candidate
//! carrying it is dropped silently. Candidates with a unique origin type
//! pass through unchanged, in declaration order.

use vstd::prelude::*;

use crate::model::CandidateModel;
use crate::model::ConversionCandidate;

verus! {

/// How many of the candidates convert from the given origin type.
pub open spec fn origin_count(cands: Seq<CandidateModel>, origin: Seq<char>) -> nat
    decreases cands.len(),
{
    if cands.len() == 0 {
        0
    } else {
        origin_count(cands.drop_last(), origin) + if cands.last().origin == origin {
            1nat
        } else {
            0nat
        }
    }
}

/// The origin type occurs in exactly one of the candidates.
pub open spec fn origin_unique(cands: Seq<CandidateModel>, origin: Seq<char>) -> bool {
    origin_count(cands, origin) == 1
}

/// The candidates among `cands` whose origin type is unique in `all`, in
/// order.
pub open spec fn keep_unique(all: Seq<CandidateModel>, cands: Seq<CandidateModel>) -> Seq<
    CandidateModel,
>
    decreases cands.len(),
{
    if cands.len() == 0 {
        Seq::empty()
    } else {
        let rest = keep_unique(all, cands.drop_last());
        if origin_unique(all, cands.last().origin) {
            rest.push(cands.last())
        } else {
            rest
        }
    }
}

/// What resolving a provisional candidate list yields: only the candidates
/// whose origin type no other candidate shares, in the original order.
pub open spec fn spec_resolve(cands: Seq<CandidateModel>) -> Seq<CandidateModel> {
    keep_unique(cands, cands)
}

/// Counts how many of the candidates convert from the given origin type.
fn count_origin(candidates: &Vec<ConversionCandidate>, origin: &String) -> (count: usize)
    ensures
        count == origin_count(candidates@.map_values(|c: ConversionCandidate| c@), origin@),
{
    let ghost cm = candidates@.map_values(|c: ConversionCandidate| c@);
    let n = candidates.len();
    let mut count: usize = 0;
    let mut j: usize = 0;
    proof {
        assert(cm.take(0) =~= Seq::<CandidateModel>::empty());
    }
    while j < n
        invariant
            j <= n,
            n == candidates.len(),
            cm == candidates@.map_values(|c: ConversionCandidate| c@),
            count == origin_count(cm.take(j as int), origin@),
            count <= j,
        decreases n - j,
    {
        proof {
            assert(cm.take(j + 1).drop_last() =~= cm.take(j as int));
        }
        if candidates[j].origin == *origin {
            count += 1;
        }
        j += 1;
    }
    proof {
        assert(cm.take(n as int) =~= cm);
    }
    count
}

/// Resolves ambiguity among the provisional candidates: drops every
/// candidate whose origin type occurs in more than one of them, and keeps
/// the rest in their original order.
pub fn resolve_ambiguity(candidates: &Vec<ConversionCandidate>) -> (r: Vec<ConversionCandidate>)
    ensures
        r@.map_values(|c: ConversionCandidate| c@) == spec_resolve(
            candidates@.map_values(|c: ConversionCandidate| c@),
        ),
{
    let ghost cm = candidates@.map_values(|c: ConversionCandidate| c@);
    let mut resolved: Vec<ConversionCandidate> = Vec::new();
    let n = candidates.len();
    let mut i: usize = 0;
    proof {
        assert(cm.take(0) =~= Seq::<CandidateModel>::empty());
        assert(resolved@.map_values(|c: ConversionCandidate| c@) =~= Seq::<
            CandidateModel,
        >::empty());
    }
    while i < n
        invariant
            i <= n,
            n == candidates.len(),
            cm == candidates@.map_values(|c: ConversionCandidate| c@),
            resolved@.map_values(|c: ConversionCandidate| c@) == keep_unique(
                cm,
                cm.take(i as int),
            ),
        decreases n - i,
    {
        proof {
            assert(cm.take(i + 1).drop_last() =~= cm.take(i as int));
        }
        let count = count_origin(candidates, &candidates[i].origin);
        if count == 1 {
            let cand = candidates[i].clone();
            let ghost prev = resolved@.map_values(|c: ConversionCandidate| c@);
            resolved.push(cand);
            proof {
                assert(resolved@.map_values(|c: ConversionCandidate| c@) =~= prev.push(cand@));
            }
        }
        i += 1;
    }
    proof {
        assert(cm.take(n as int) =~= cm);
    }
    resolved
}

} // verus!
