use vstd::prelude::*;

use crate::strand::Strand;
use crate::summary::ROISummary;

verus! {

/// An algorithm that calls the strand of a region record.
pub trait ROIStrandPredictor {
    spec fn spec_predict(&self, rec: &ROISummary) -> Strand;

    fn predict(&self, rec: &ROISummary) -> (r: Strand)
        ensures
            r == self.spec_predict(rec),
    ;
}

/// The strand of `rec` once the first `k` predictors have had their turn: a
/// resolved strand stays, an unknown one goes to the next predictor.
pub open spec fn spec_cascade<P: ROIStrandPredictor>(
    predictors: Seq<P>,
    rec: ROISummary,
    k: nat,
) -> Strand
    decreases k,
{
    if k == 0 {
        rec.strand
    } else {
        let s = spec_cascade(predictors, rec, (k - 1) as nat);
        if s is Unknown {
            predictors[k - 1].spec_predict(&rec)
        } else {
            s
        }
    }
}

/// The record with the strand that all predictors together give it.
pub open spec fn spec_stranded<P: ROIStrandPredictor>(
    predictors: Seq<P>,
    rec: ROISummary,
) -> ROISummary {
    ROISummary { strand: spec_cascade(predictors, rec, predictors.len()), ..rec }
}

/// A record whose strand is resolved keeps it through any number of predictors.
pub proof fn lemma_resolved_strand_kept<P: ROIStrandPredictor>(
    predictors: Seq<P>,
    rec: ROISummary,
    k: nat,
)
    requires
        !(rec.strand is Unknown),
    ensures
        spec_cascade(predictors, rec, k) == rec.strand,
    decreases k,
{
    if k > 0 {
        lemma_resolved_strand_kept(predictors, rec, (k - 1) as nat);
    }
}

/// An ordered cascade of strand predictors; earlier ones get the first claim on
/// records of unknown strand.
#[derive(Clone, Debug)]
pub struct ROIStrandingEngine<P> {
    pub predictors: Vec<P>,
}

impl<P: ROIStrandPredictor> ROIStrandingEngine<P> {
    pub fn new() -> (r: ROIStrandingEngine<P>)
        ensures
            r.predictors@ == Seq::<P>::empty(),
    {
        ROIStrandingEngine { predictors: Vec::new() }
    }

    /// Appends a predictor after those already added.
    pub fn add(&mut self, predictor: P)
        ensures
            final(self).predictors@ == old(self).predictors@.push(predictor),
    {
        self.predictors.push(predictor);
    }

    /// Resolves the records of unknown strand; every record comes out, in its place,
    /// and one whose strand was already resolved comes out as it went in.
    pub fn strand(&self, items: Vec<ROISummary>) -> (r: Vec<ROISummary>)
        ensures
            r@.len() == items@.len(),
            forall|i: int|
                0 <= i < r@.len() ==> r@[i] == spec_stranded(self.predictors@, items@[i]),
            forall|i: int|
                0 <= i < r@.len() && !(items@[i].strand is Unknown) ==> r@[i] == items@[i],
    {
        let mut items = items;
        let ghost orig = items@;
        let mut k: usize = 0;
        while k < self.predictors.len()
            invariant
                k <= self.predictors@.len(),
                items@.len() == orig.len(),
                forall|i: int|
                    0 <= i < items@.len() ==> items@[i] == (ROISummary {
                        strand: spec_cascade(self.predictors@, orig[i], k as nat),
                        ..orig[i]
                    }),
            decreases self.predictors@.len() - k,
        {
            let predictor = &self.predictors[k];
            let mut i: usize = 0;
            while i < items.len()
                invariant
                    k < self.predictors@.len(),
                    *predictor == self.predictors@[k as int],
                    items@.len() == orig.len(),
                    i <= items@.len(),
                    forall|j: int|
                        0 <= j < i ==> items@[j] == (ROISummary {
                            strand: spec_cascade(self.predictors@, orig[j], (k + 1) as nat),
                            ..orig[j]
                        }),
                    forall|j: int|
                        i <= j < items@.len() ==> items@[j] == (ROISummary {
                            strand: spec_cascade(self.predictors@, orig[j], k as nat),
                            ..orig[j]
                        }),
                decreases items@.len() - i,
            {
                if items[i].strand.is_unknown() {
                    let s = predictor.predict(&items[i]);
                    proof {
                        if !(orig[i as int].strand is Unknown) {
                            lemma_resolved_strand_kept(self.predictors@, orig[i as int], k as nat);
                        }
                        assert(items@[i as int] == orig[i as int]);
                    }
                    items[i].strand = s;
                }
                i += 1;
            }
            k += 1;
        }
        proof {
            assert forall|i: int|
                0 <= i < items@.len() && !(orig[i].strand is Unknown) implies items@[i] == orig[i] by {
                lemma_resolved_strand_kept(self.predictors@, orig[i], self.predictors@.len());
            }
        }
        items
    }
}

} // verus!
