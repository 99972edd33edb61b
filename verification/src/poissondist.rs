use vstd::prelude::*;
use crate::errors::ConstructionError;
use crate::errors::SamplingError;
use crate::fixed::Fixed;
use crate::fixed::fixed_chars;

verus! {

use vstd::string::StringExecFns;

/// A Poisson distribution with a strictly positive rate `lambda`.
#[derive(Clone, Copy, PartialEq, Eq, Structural, Debug)]
pub struct PoissonDist {
    pub lambda: Fixed,
}

/// The record a Poisson distribution serializes to: exactly its
/// user-facing parameter.
#[derive(Clone, Copy, PartialEq, Eq, Structural, Debug)]
pub struct PoissonParams {
    pub lambda: Fixed,
}

impl PoissonDist {
    /// The construction invariant: the rate is positive.
    pub open spec fn wf(&self) -> bool {
        self.lambda@ > 0
    }

    /// What construction from the given parameter yields.
    pub open spec fn spec_new(lambda: Fixed) -> Result<PoissonDist, ConstructionError> {
        if lambda@ > 0 {
            Ok(PoissonDist { lambda })
        } else {
            Err(ConstructionError::InvalidParameter)
        }
    }

    /// Validates the parameter and constructs the distribution.
    /// Construction succeeds exactly when `lambda` is positive; a zero
    /// or negative rate is rejected as an invalid parameter.
    pub fn new(lambda: Fixed) -> (r: Result<PoissonDist, ConstructionError>)
        ensures
            r == Self::spec_new(lambda),
            r is Ok <==> lambda@ > 0,
            lambda@ <= 0 ==> r == Err::<PoissonDist, ConstructionError>(
                ConstructionError::InvalidParameter,
            ),
            r matches Ok(d) ==> d.wf() && d.lambda == lambda,
    {
        if lambda.hundredths <= 0 {
            Err(ConstructionError::InvalidParameter)
        } else {
            Ok(PoissonDist { lambda })
        }
    }

    /// The rate parameter.
    pub fn lambda(&self) -> (r: Fixed)
        ensures
            r == self.lambda,
    {
        self.lambda
    }

    /// Turns a drawn event count into the sampled value. A Poisson
    /// draw is a non-negative count of events, so whatever count the
    /// sampler hands back, the value reported for it is non-negative;
    /// a count too large for the fixed-point range is a sampling
    /// error.
    pub fn sample_from_count(&self, count: u64) -> (r: Result<Fixed, SamplingError>)
        ensures
            r matches Ok(x) ==> x@ == count * 100 && x@ >= 0,
            r is Ok <==> count * 100 <= i64::MAX,
    {
        let bound: u64 = (9223372036854775807u64) / 100;
        if count <= bound {
            Ok(Fixed { hundredths: (count * 100) as i64 })
        } else {
            proof {
                assert(count * 100 >= (bound + 1) * 100);
            }
            Err(SamplingError)
        }
    }

    /// The canonical rendering of the distribution.
    pub open spec fn format_chars(&self) -> Seq<char> {
        "Poisson(λ="@ + fixed_chars(self.lambda@) + ")"@
    }

    /// Renders the distribution with its parameter at two decimal
    /// places.
    pub fn format(&self) -> (s: String)
        ensures
            s@ == self.format_chars(),
    {
        let mut s = "Poisson(λ=".to_owned();
        s.append(self.lambda.format().as_str());
        s.append(")");
        assert(s@ =~= self.format_chars());
        s
    }

    /// The serialized record: the user-facing parameter and nothing
    /// else.
    pub fn serialize(&self) -> (r: PoissonParams)
        ensures
            r == (PoissonParams { lambda: self.lambda }),
    {
        PoissonParams { lambda: self.lambda }
    }

    /// Reconstructs a distribution from a serialized record, re-running
    /// the same validation as `new`: a record whose `lambda` is not
    /// positive is rejected rather than trusted.
    pub fn deserialize(p: PoissonParams) -> (r: Result<PoissonDist, ConstructionError>)
        ensures
            r == Self::spec_new(p.lambda),
    {
        Self::new(p.lambda)
    }
}

/// Serializing a well-formed Poisson distribution and reconstructing it
/// from the record yields the distribution itself.
pub proof fn lemma_poisson_round_trip(d: PoissonDist)
    requires
        d.wf(),
    ensures
        PoissonDist::spec_new(d.lambda) == Ok::<PoissonDist, ConstructionError>(d),
{
}

} // verus!
