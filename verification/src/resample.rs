use vstd::prelude::*;

use crate::text::text_eq;

verus! {

/// Resampling algorithm.
#[derive(Debug, Clone, Copy, PartialEq, Eq, Structural)]
pub enum ResamplerType {
    /// High-quality asynchronous sinc interpolation (rate can change).
    Sinc,
    /// Fast synchronous FFT resampling (rate fixed once created).
    Cubic,
    /// No resampling: data passes straight through.
    NoResampling,
}

/// The algorithm a name selects: "sinc", "cubic" or "none"; any other name
/// falls back to sinc.
pub open spec fn resampler_type_of(name: Seq<char>) -> ResamplerType {
    if name == "cubic"@ {
        ResamplerType::Cubic
    } else if name == "none"@ {
        ResamplerType::NoResampling
    } else {
        ResamplerType::Sinc
    }
}

/// Whether a name is one of "sinc", "cubic" and "none".
pub open spec fn is_known_resampler_name(name: Seq<char>) -> bool {
    name == "sinc"@ || name == "cubic"@ || name == "none"@
}

impl ResamplerType {
    /// Selects the algorithm by name ("sinc", "cubic", "none"); unknown names
    /// fall back to sinc (the caller reports them).
    pub fn from_name(name: &str) -> (t: ResamplerType)
        ensures
            t == resampler_type_of(name@),
    {
        if text_eq(name, "cubic") {
            ResamplerType::Cubic
        } else if text_eq(name, "none") {
            ResamplerType::NoResampling
        } else {
            ResamplerType::Sinc
        }
    }

    /// Whether a name is a known algorithm name.
    pub fn is_known_name(name: &str) -> (r: bool)
        ensures
            r == is_known_resampler_name(name@),
    {
        text_eq(name, "sinc") || text_eq(name, "cubic") || text_eq(name, "none")
    }
}

} // verus!
