mod dists;
mod errors;
mod fixed;
mod normaldist;
mod parse;
mod poissondist;
mod rng;
mod uniformdist;

pub use dists::DistParams;
pub use dists::DistType;
pub use dists::create_distribution;
pub use dists::lemma_dist_round_trip;
pub use dists::spec_create;
pub use errors::ConstructionError;
pub use errors::SamplingError;
pub use errors::construction_error_chars;
pub use fixed::Fixed;
pub use fixed::decimal_digits;
pub use fixed::digit_char;
pub use fixed::fixed_chars;
pub use normaldist::NormalDist;
pub use normaldist::NormalParams;
pub use normaldist::lemma_normal_round_trip;
pub use parse::all_digits;
pub use parse::digit_val;
pub use parse::digits_val;
pub use parse::first_dot;
pub use parse::fraction_val;
pub use parse::is_digit;
pub use parse::lemma_parse_of_format;
pub use parse::parse_value;
pub use parse::unsigned_value;
pub use poissondist::PoissonDist;
pub use poissondist::PoissonParams;
pub use poissondist::lemma_poisson_round_trip;
pub use uniformdist::UniformDist;
pub use uniformdist::UniformParams;
pub use uniformdist::lemma_uniform_round_trip;
