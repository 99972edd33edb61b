use vstd::prelude::*;
use crate::errors::ConstructionError;
use crate::errors::SamplingError;
use crate::fixed::Fixed;
use crate::normaldist::NormalDist;
use crate::normaldist::NormalParams;
use crate::poissondist::PoissonDist;
use crate::poissondist::PoissonParams;
use crate::uniformdist::UniformDist;
use crate::uniformdist::UniformParams;

verus! {

/// The closed set of distribution families the library supports.
#[derive(Clone, Copy, PartialEq, Eq, Structural, Debug)]
pub enum DistType {
    Normal(NormalDist),
    Poisson(PoissonDist),
    Uniform(UniformDist),
}

/// The record a distribution serializes to: the family tag and exactly
/// its user-facing parameters.
#[derive(Clone, Copy, PartialEq, Eq, Structural, Debug)]
pub enum DistParams {
    Normal(NormalParams),
    Poisson(PoissonParams),
    Uniform(UniformParams),
}

/// Decides whether two strings hold the same characters.
fn str_eq(a: &str, b: &str) -> (r: bool)
    ensures
        r == (a@ == b@),
{
    let x: String = a.to_owned();
    let y: String = b.to_owned();
    x == y
}

/// What the factory yields for a family name and an ordered parameter
/// list: the name must match one of the supported families exactly,
/// the parameter count must match the family's arity, and the values
/// must satisfy the family's domain constraint, in that order.
pub open spec fn spec_create(name: Seq<char>, params: Seq<Fixed>) -> Result<
    DistType,
    ConstructionError,
> {
    if name == "normal"@ {
        if params.len() != 2 {
            Err(ConstructionError::WrongParameterCount { expected: 2, got: params.len() as usize })
        } else {
            match NormalDist::spec_new(params[0], params[1]) {
                Ok(d) => Ok(DistType::Normal(d)),
                Err(e) => Err(e),
            }
        }
    } else if name == "poisson"@ {
        if params.len() != 1 {
            Err(ConstructionError::WrongParameterCount { expected: 1, got: params.len() as usize })
        } else {
            match PoissonDist::spec_new(params[0]) {
                Ok(d) => Ok(DistType::Poisson(d)),
                Err(e) => Err(e),
            }
        }
    } else if name == "uniform"@ {
        if params.len() != 2 {
            Err(ConstructionError::WrongParameterCount { expected: 2, got: params.len() as usize })
        } else {
            match UniformDist::spec_new(params[0], params[1]) {
                Ok(d) => Ok(DistType::Uniform(d)),
                Err(e) => Err(e),
            }
        }
    } else {
        Err(ConstructionError::UnknownDistributionType)
    }
}

/// Validates a family name and parameter list and constructs the
/// matching distribution. The name is matched case-sensitively against
/// `"normal"`, `"poisson"` and `"uniform"`; the arity check comes
/// before value validation, and a domain violation found by the
/// variant's own constructor is propagated verbatim.
pub fn create_distribution(dist_type: &str, params: &[Fixed]) -> (r: Result<
    DistType,
    ConstructionError,
>)
    ensures
        r == spec_create(dist_type@, params@),
        r matches Ok(d) ==> d.wf(),
{
    if str_eq(dist_type, "normal") {
        if params.len() != 2 {
            Err(ConstructionError::WrongParameterCount { expected: 2, got: params.len() })
        } else {
            match NormalDist::new(params[0], params[1]) {
                Ok(d) => Ok(DistType::Normal(d)),
                Err(e) => Err(e),
            }
        }
    } else if str_eq(dist_type, "poisson") {
        if params.len() != 1 {
            Err(ConstructionError::WrongParameterCount { expected: 1, got: params.len() })
        } else {
            match PoissonDist::new(params[0]) {
                Ok(d) => Ok(DistType::Poisson(d)),
                Err(e) => Err(e),
            }
        }
    } else if str_eq(dist_type, "uniform") {
        if params.len() != 2 {
            Err(ConstructionError::WrongParameterCount { expected: 2, got: params.len() })
        } else {
            match UniformDist::new(params[0], params[1]) {
                Ok(d) => Ok(DistType::Uniform(d)),
                Err(e) => Err(e),
            }
        }
    } else {
        Err(ConstructionError::UnknownDistributionType)
    }
}

impl DistType {
    /// The construction invariant of whichever family the value holds.
    pub open spec fn wf(&self) -> bool {
        match *self {
            DistType::Normal(d) => d.wf(),
            DistType::Poisson(d) => d.wf(),
            DistType::Uniform(d) => d.wf(),
        }
    }

    /// The canonical rendering of whichever family the value holds.
    pub open spec fn format_chars(&self) -> Seq<char> {
        match *self {
            DistType::Normal(d) => d.format_chars(),
            DistType::Poisson(d) => d.format_chars(),
            DistType::Uniform(d) => d.format_chars(),
        }
    }

    /// Renders the distribution in its family's canonical form.
    pub fn format(&self) -> (s: String)
        ensures
            s@ == self.format_chars(),
    {
        match self {
            DistType::Normal(d) => d.format(),
            DistType::Poisson(d) => d.format(),
            DistType::Uniform(d) => d.format(),
        }
    }

    /// What the serialized record of a distribution is.
    pub open spec fn spec_serialize(&self) -> DistParams {
        match *self {
            DistType::Normal(d) => DistParams::Normal(
                NormalParams { mean: d.mean, std_dev: d.std_dev },
            ),
            DistType::Poisson(d) => DistParams::Poisson(PoissonParams { lambda: d.lambda }),
            DistType::Uniform(d) => DistParams::Uniform(UniformParams { min: d.min, max: d.max }),
        }
    }

    /// The serialized record: the family tag and the user-facing
    /// parameters, nothing else.
    pub fn serialize(&self) -> (r: DistParams)
        ensures
            r == self.spec_serialize(),
    {
        match self {
            DistType::Normal(d) => DistParams::Normal(d.serialize()),
            DistType::Poisson(d) => DistParams::Poisson(d.serialize()),
            DistType::Uniform(d) => DistParams::Uniform(d.serialize()),
        }
    }

    /// What reconstruction from a serialized record yields.
    pub open spec fn spec_deserialize(p: DistParams) -> Result<DistType, ConstructionError> {
        match p {
            DistParams::Normal(q) => match NormalDist::spec_new(q.mean, q.std_dev) {
                Ok(d) => Ok(DistType::Normal(d)),
                Err(e) => Err(e),
            },
            DistParams::Poisson(q) => match PoissonDist::spec_new(q.lambda) {
                Ok(d) => Ok(DistType::Poisson(d)),
                Err(e) => Err(e),
            },
            DistParams::Uniform(q) => match UniformDist::spec_new(q.min, q.max) {
                Ok(d) => Ok(DistType::Uniform(d)),
                Err(e) => Err(e),
            },
        }
    }

    /// Reconstructs a distribution from a serialized record, re-running
    /// the same validation as the constructors: a record whose values
    /// violate the family's domain constraint is rejected rather than
    /// trusted.
    pub fn deserialize(p: DistParams) -> (r: Result<DistType, ConstructionError>)
        ensures
            r == Self::spec_deserialize(p),
    {
        match p {
            DistParams::Normal(q) => match NormalDist::deserialize(q) {
                Ok(d) => Ok(DistType::Normal(d)),
                Err(e) => Err(e),
            },
            DistParams::Poisson(q) => match PoissonDist::deserialize(q) {
                Ok(d) => Ok(DistType::Poisson(d)),
                Err(e) => Err(e),
            },
            DistParams::Uniform(q) => match UniformDist::deserialize(q) {
                Ok(d) => Ok(DistType::Uniform(d)),
                Err(e) => Err(e),
            },
        }
    }

    /// Draws one value from the distribution where that needs nothing
    /// beyond the caller's generator: the uniform family. The normal
    /// and Poisson families need floating-point transforms, which live
    /// outside this library, so they answer with a sampling error here.
    pub fn sample_uniform(&self, rng: &mut rand::rngs::StdRng) -> (r: Result<Fixed, SamplingError>)
        requires
            self.wf(),
        ensures
            self matches DistType::Uniform(d) ==> r is Ok && (r matches Ok(x) ==> d.min@ <= x@
                < d.max@),
            !(*self is Uniform) ==> r == Err::<Fixed, SamplingError>(SamplingError),
    {
        match self {
            DistType::Uniform(d) => d.sample(rng),
            _ => Err(SamplingError),
        }
    }
}

/// Serializing any well-formed distribution and reconstructing it from
/// the record yields the distribution itself.
pub proof fn lemma_dist_round_trip(d: DistType)
    requires
        d.wf(),
    ensures
        DistType::spec_deserialize(d.spec_serialize()) == Ok::<DistType, ConstructionError>(d),
{
}

} // verus!
