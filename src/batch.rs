use vstd::prelude::*;

use crate::client::{valid_selector, LiveMEA};
use crate::error::MeaError;
use crate::sample::LiveData;

verus! {

/// The progress of recording a fixed number of samples, one acquisition
/// after another. The first failed acquisition ends the batch with its error
/// and none of the samples.
pub struct Batch {
    wanted: usize,
    samples: Vec<LiveData>,
    outcomes: Ghost<Seq<Result<LiveData, MeaError>>>,
}

impl Batch {
    /// How many samples the batch asks for.
    pub closed spec fn target(&self) -> nat {
        self.wanted as nat
    }

    /// The samples recorded so far, in order.
    pub closed spec fn collected(&self) -> Seq<LiveData> {
        self.samples@
    }

    /// The outcomes recorded so far, in order.
    pub closed spec fn history(&self) -> Seq<Result<LiveData, MeaError>> {
        self.outcomes@
    }

    /// No more samples than asked for, exactly those of the recorded outcomes,
    /// each of 32 channels of 4096 readings.
    pub open spec fn wf(&self) -> bool {
        &&& self.collected().len() <= self.target()
        &&& records(self.history()) == Ok::<Seq<LiveData>, MeaError>(self.collected())
        &&& forall|i: int| 0 <= i < self.collected().len() ==> (#[trigger] self.collected()[i]).wf()
    }

    /// Whether every sample asked for has been recorded.
    pub open spec fn complete(&self) -> bool {
        self.collected().len() == self.target()
    }

    /// Starts a batch of `n` samples from the device with selector `mea_id`;
    /// an out-of-range selector is rejected before anything is recorded.
    pub fn new(mea_id: u32, n: usize) -> (r: Result<Batch, MeaError>)
        ensures
            match r {
                Ok(b) => {
                    &&& valid_selector(mea_id)
                    &&& b.wf()
                    &&& b.target() == n
                    &&& b.collected() == Seq::<LiveData>::empty()
                    &&& b.history() == Seq::<Result<LiveData, MeaError>>::empty()
                },
                Err(e) => !valid_selector(mea_id) && e == (MeaError::InvalidSelector { mea_id }),
            },
    {
        match LiveMEA::validate_mea_id(mea_id) {
            Ok(()) => Ok(Batch { wanted: n, samples: Vec::new(), outcomes: Ghost(Seq::empty()) }),
            Err(e) => Err(e),
        }
    }

    /// Whether every sample asked for has been recorded.
    pub fn is_complete(&self) -> (r: bool)
        ensures
            r == self.complete(),
    {
        self.samples.len() == self.wanted
    }

    /// Takes the outcome of the next acquisition: a sample is appended, an
    /// error ends the batch and is handed back alone.
    pub fn record(self, outcome: Result<LiveData, MeaError>) -> (r: Result<Batch, MeaError>)
        requires
            self.wf(),
            !self.complete(),
            outcome is Ok ==> outcome->Ok_0.wf(),
        ensures
            match outcome {
                Ok(s) => {
                    &&& r is Ok
                    &&& r->Ok_0.wf()
                    &&& r->Ok_0.target() == self.target()
                    &&& r->Ok_0.collected() == self.collected().push(s)
                    &&& r->Ok_0.history() == self.history().push(outcome)
                },
                Err(e) => {
                    &&& r == Err::<Batch, MeaError>(e)
                    &&& records(self.history().push(outcome)) == Err::<Seq<LiveData>, MeaError>(e)
                },
            },
    {
        let ghost seen = self.outcomes@.push(outcome);
        assert(seen.drop_last() =~= self.outcomes@);
        match outcome {
            Ok(s) => {
                let mut samples = self.samples;
                samples.push(s);
                Ok(Batch { wanted: self.wanted, samples, outcomes: Ghost(seen) })
            },
            Err(e) => Err(e),
        }
    }

    /// The recorded samples, once the batch is complete: exactly as many as
    /// were asked for, each of 32 channels of 4096 readings.
    pub fn into_samples(self) -> (r: Vec<LiveData>)
        requires
            self.wf(),
            self.complete(),
        ensures
            r@ == self.collected(),
            r@.len() == self.target(),
            forall|i: int| 0 <= i < r@.len() ==> (#[trigger] r@[i]).wf(),
    {
        self.samples
    }
}

/// The result of recording `outcomes` in order into an empty batch: every
/// sample, or the error of the first failed acquisition.
pub open spec fn records(outcomes: Seq<Result<LiveData, MeaError>>) -> Result<Seq<LiveData>, MeaError>
    decreases outcomes.len(),
{
    if outcomes.len() == 0 {
        Ok(Seq::empty())
    } else {
        match records(outcomes.drop_last()) {
            Ok(s) => match outcomes.last() {
                Ok(d) => Ok(s.push(d)),
                Err(e) => Err(e),
            },
            Err(e) => Err(e),
        }
    }
}

/// Recording `n` acquisitions yields exactly their `n` samples, in order, when
/// all of them succeed; when one fails it yields the error of the first
/// failure and no sample.
pub proof fn lemma_records_all_or_first_error(outcomes: Seq<Result<LiveData, MeaError>>)
    ensures
        (forall|i: int| 0 <= i < outcomes.len() ==> (#[trigger] outcomes[i]) is Ok) ==> {
            &&& records(outcomes) is Ok
            &&& records(outcomes)->Ok_0.len() == outcomes.len()
            &&& forall|i: int|
                0 <= i < outcomes.len() ==> #[trigger] records(outcomes)->Ok_0[i] == outcomes[i]->Ok_0
        },
        forall|i: int|
            0 <= i < outcomes.len() && (#[trigger] outcomes[i]) is Err && (forall|j: int|
                0 <= j < i ==> outcomes[j] is Ok) ==> records(outcomes) == Err::<Seq<LiveData>, MeaError>(
                outcomes[i]->Err_0,
            ),
    decreases outcomes.len(),
{
    if outcomes.len() > 0 {
        let prefix = outcomes.drop_last();
        lemma_records_all_or_first_error(prefix);
        assert forall|i: int| 0 <= i < prefix.len() implies #[trigger] prefix[i] == outcomes[i] by {}
        let last = outcomes.len() - 1;
        assert forall|i: int|
            0 <= i < outcomes.len() && (#[trigger] outcomes[i]) is Err && (forall|j: int|
                0 <= j < i ==> outcomes[j] is Ok) implies records(outcomes) == Err::<
            Seq<LiveData>,
            MeaError,
        >(outcomes[i]->Err_0) by {
            if i < last {
                assert(prefix[i] is Err);
                assert(forall|j: int| 0 <= j < i ==> prefix[j] is Ok);
            } else {
                assert(forall|j: int| 0 <= j < prefix.len() ==> (#[trigger] prefix[j]) is Ok);
            }
        }
    }
}

} // verus!
