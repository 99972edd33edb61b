use vstd::prelude::*;
use crate::errors::ConstructionError;
use crate::errors::SamplingError;
use crate::fixed::Fixed;
use crate::fixed::fixed_chars;
use crate::rng::next_u64;

verus! {

use vstd::string::StringExecFns;

/// A uniform distribution over the half-open interval `[min, max)`,
/// with `min` strictly below `max`.
#[derive(Clone, Copy, PartialEq, Eq, Structural, Debug)]
pub struct UniformDist {
    pub min: Fixed,
    pub max: Fixed,
}

/// The record a uniform distribution serializes to: exactly its two
/// user-facing parameters.
#[derive(Clone, Copy, PartialEq, Eq, Structural, Debug)]
pub struct UniformParams {
    pub min: Fixed,
    pub max: Fixed,
}

impl UniformDist {
    /// The construction invariant: the bounds are strictly ordered.
    pub open spec fn wf(&self) -> bool {
        self.min@ < self.max@
    }

    /// What construction from the given parameters yields.
    pub open spec fn spec_new(min: Fixed, max: Fixed) -> Result<UniformDist, ConstructionError> {
        if min@ < max@ {
            Ok(UniformDist { min, max })
        } else {
            Err(ConstructionError::InvalidParameter)
        }
    }

    /// Validates the parameters and constructs the distribution.
    /// Construction succeeds exactly when `min` is strictly below
    /// `max`; equal or reversed bounds are rejected as invalid
    /// parameters.
    pub fn new(min: Fixed, max: Fixed) -> (r: Result<UniformDist, ConstructionError>)
        ensures
            r == Self::spec_new(min, max),
            r is Ok <==> min@ < max@,
            min@ >= max@ ==> r == Err::<UniformDist, ConstructionError>(
                ConstructionError::InvalidParameter,
            ),
            r matches Ok(d) ==> d.wf() && d.min == min && d.max == max,
    {
        if min.hundredths >= max.hundredths {
            Err(ConstructionError::InvalidParameter)
        } else {
            Ok(UniformDist { min, max })
        }
    }

    /// The lower bound, inclusive.
    pub fn min(&self) -> (r: Fixed)
        ensures
            r == self.min,
    {
        self.min
    }

    /// The upper bound, exclusive.
    pub fn max(&self) -> (r: Fixed)
        ensures
            r == self.max,
    {
        self.max
    }

    /// Draws one value from `[min, max)`, advancing the caller's
    /// generator. Every draw lands inside the interval, and sampling
    /// a well-formed distribution never fails.
    pub fn sample(&self, rng: &mut rand::rngs::StdRng) -> (r: Result<Fixed, SamplingError>)
        requires
            self.wf(),
        ensures
            r is Ok,
            r matches Ok(x) ==> self.min@ <= x@ < self.max@,
    {
        let span: u64 = ((self.max.hundredths as i128) - (self.min.hundredths as i128)) as u64;
        let offset: u64 = next_u64(rng) % span;
        let drawn: i64 = ((self.min.hundredths as i128) + (offset as i128)) as i64;
        Ok(Fixed { hundredths: drawn })
    }

    /// The canonical rendering of the distribution.
    pub open spec fn format_chars(&self) -> Seq<char> {
        "Uniform(min="@ + fixed_chars(self.min@) + ", max="@ + fixed_chars(self.max@) + ")"@
    }

    /// Renders the distribution with both parameters at two decimal
    /// places.
    pub fn format(&self) -> (s: String)
        ensures
            s@ == self.format_chars(),
    {
        let mut s = "Uniform(min=".to_owned();
        s.append(self.min.format().as_str());
        s.append(", max=");
        s.append(self.max.format().as_str());
        s.append(")");
        assert(s@ =~= self.format_chars());
        s
    }

    /// The serialized record: the user-facing parameters and nothing
    /// else.
    pub fn serialize(&self) -> (r: UniformParams)
        ensures
            r == (UniformParams { min: self.min, max: self.max }),
    {
        UniformParams { min: self.min, max: self.max }
    }

    /// Reconstructs a distribution from a serialized record, re-running
    /// the same validation as `new`: a record whose bounds are not
    /// strictly ordered is rejected rather than trusted.
    pub fn deserialize(p: UniformParams) -> (r: Result<UniformDist, ConstructionError>)
        ensures
            r == Self::spec_new(p.min, p.max),
    {
        Self::new(p.min, p.max)
    }
}

/// Serializing a well-formed uniform distribution and reconstructing it
/// from the record yields the distribution itself.
pub proof fn lemma_uniform_round_trip(d: UniformDist)
    requires
        d.wf(),
    ensures
        UniformDist::spec_new(d.min, d.max) == Ok::<UniformDist, ConstructionError>(d),
{
}

} // verus!
