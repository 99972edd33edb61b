use vstd::prelude::*;
use crate::errors::ConstructionError;
use crate::fixed::Fixed;
use crate::fixed::fixed_chars;

verus! {

use vstd::string::StringExecFns;

/// A normal (Gaussian) distribution with a location `mean` and a
/// strictly positive scale `std_dev`.
#[derive(Clone, Copy, PartialEq, Eq, Structural, Debug)]
pub struct NormalDist {
    pub mean: Fixed,
    pub std_dev: Fixed,
}

/// The record a normal distribution serializes to: exactly its two
/// user-facing parameters.
#[derive(Clone, Copy, PartialEq, Eq, Structural, Debug)]
pub struct NormalParams {
    pub mean: Fixed,
    pub std_dev: Fixed,
}

impl NormalDist {
    /// The construction invariant: the standard deviation is positive.
    pub open spec fn wf(&self) -> bool {
        self.std_dev@ > 0
    }

    /// What construction from the given parameters yields.
    pub open spec fn spec_new(mean: Fixed, std_dev: Fixed) -> Result<NormalDist, ConstructionError> {
        if std_dev@ > 0 {
            Ok(NormalDist { mean, std_dev })
        } else {
            Err(ConstructionError::InvalidParameter)
        }
    }

    /// Validates the parameters and constructs the distribution.
    /// Construction succeeds exactly when `std_dev` is positive; a zero
    /// or negative `std_dev` is rejected as an invalid parameter.
    pub fn new(mean: Fixed, std_dev: Fixed) -> (r: Result<NormalDist, ConstructionError>)
        ensures
            r == Self::spec_new(mean, std_dev),
            r is Ok <==> std_dev@ > 0,
            std_dev@ <= 0 ==> r == Err::<NormalDist, ConstructionError>(
                ConstructionError::InvalidParameter,
            ),
            r matches Ok(d) ==> d.wf() && d.mean == mean && d.std_dev == std_dev,
    {
        if std_dev.hundredths <= 0 {
            Err(ConstructionError::InvalidParameter)
        } else {
            Ok(NormalDist { mean, std_dev })
        }
    }

    /// The location parameter.
    pub fn mean(&self) -> (r: Fixed)
        ensures
            r == self.mean,
    {
        self.mean
    }

    /// The scale parameter.
    pub fn std_dev(&self) -> (r: Fixed)
        ensures
            r == self.std_dev,
    {
        self.std_dev
    }

    /// The canonical rendering of the distribution.
    pub open spec fn format_chars(&self) -> Seq<char> {
        "Normal(μ="@ + fixed_chars(self.mean@) + ", σ="@ + fixed_chars(self.std_dev@) + ")"@
    }

    /// Renders the distribution with both parameters at two decimal
    /// places.
    pub fn format(&self) -> (s: String)
        ensures
            s@ == self.format_chars(),
    {
        let mut s = "Normal(μ=".to_owned();
        s.append(self.mean.format().as_str());
        s.append(", σ=");
        s.append(self.std_dev.format().as_str());
        s.append(")");
        assert(s@ =~= self.format_chars());
        s
    }

    /// The serialized record: the user-facing parameters and nothing
    /// else.
    pub fn serialize(&self) -> (r: NormalParams)
        ensures
            r == (NormalParams { mean: self.mean, std_dev: self.std_dev }),
    {
        NormalParams { mean: self.mean, std_dev: self.std_dev }
    }

    /// Reconstructs a distribution from a serialized record, re-running
    /// the same validation as `new`: a record whose `std_dev` is not
    /// positive is rejected rather than trusted.
    pub fn deserialize(p: NormalParams) -> (r: Result<NormalDist, ConstructionError>)
        ensures
            r == Self::spec_new(p.mean, p.std_dev),
    {
        Self::new(p.mean, p.std_dev)
    }
}

/// Serializing a well-formed normal distribution and reconstructing it
/// from the record yields the distribution itself.
pub proof fn lemma_normal_round_trip(d: NormalDist)
    requires
        d.wf(),
    ensures
        NormalDist::spec_new(d.mean, d.std_dev) == Ok::<NormalDist, ConstructionError>(d),
{
}

} // verus!
