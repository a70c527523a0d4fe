//! The constructor synthesizer: turns each surviving candidate into one
//! self-contained conversion-constructor definition, order-preserving and
//! side-effect-free.

use vstd::prelude::*;

use crate::model::CandidateModel;
use crate::model::ConstructorDef;
use crate::model::ConversionCandidate;
use crate::model::CtorModel;

verus! {

/// The constructor definition one candidate yields for the given target
/// type.
pub open spec fn ctor_of(target_type: Seq<char>, cand: CandidateModel) -> CtorModel {
    CtorModel { target_type: target_type, origin: cand.origin, target: cand.target }
}

/// What synthesizing a candidate list yields: one constructor definition
/// per candidate, in the same order.
pub open spec fn spec_synthesize(target_type: Seq<char>, cands: Seq<CandidateModel>) -> Seq<
    CtorModel,
> {
    cands.map_values(|c: CandidateModel| ctor_of(target_type, c))
}

/// Synthesizes one constructor definition per candidate, in order. Each
/// definition is independent of the others: it names the target type, the
/// origin type, and the variant or product field to build.
pub fn synthesize(target_type: &String, candidates: &Vec<ConversionCandidate>) -> (r: Vec<
    ConstructorDef,
>)
    ensures
        r@.map_values(|d: ConstructorDef| d@) == spec_synthesize(
            target_type@,
            candidates@.map_values(|c: ConversionCandidate| c@),
        ),
{
    let ghost cm = candidates@.map_values(|c: ConversionCandidate| c@);
    let mut defs: Vec<ConstructorDef> = Vec::new();
    let n = candidates.len();
    let mut i: usize = 0;
    proof {
        assert(cm.take(0) =~= Seq::<CandidateModel>::empty());
        assert(defs@.map_values(|d: ConstructorDef| d@) =~= spec_synthesize(
            target_type@,
            cm.take(0),
        ));
    }
    while i < n
        invariant
            i <= n,
            n == candidates.len(),
            cm == candidates@.map_values(|c: ConversionCandidate| c@),
            defs@.map_values(|d: ConstructorDef| d@) == spec_synthesize(
                target_type@,
                cm.take(i as int),
            ),
        decreases n - i,
    {
        let def = ConstructorDef {
            target_type: target_type.clone(),
            origin: candidates[i].origin.clone(),
            target: candidates[i].target.clone(),
        };
        let ghost prev = defs@.map_values(|d: ConstructorDef| d@);
        defs.push(def);
        proof {
            assert(defs@.map_values(|d: ConstructorDef| d@) =~= prev.push(def@));
            assert(spec_synthesize(target_type@, cm.take(i + 1)) =~= prev.push(
                ctor_of(target_type@, cm[i as int]),
            ));
        }
        i += 1;
    }
    proof {
        assert(cm.take(n as int) =~= cm);
    }
    defs
}

} // verus!
