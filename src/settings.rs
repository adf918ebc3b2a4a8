use vstd::prelude::*;

verus! {

/// The samples taken for each pixel when none is configured.
pub const DEFAULT_SAMPLES_PER_PIXEL: u32 = 10;

/// The bounce budget of each camera ray when none is configured.
pub const DEFAULT_MAX_DEPTH: u32 = 10;

/// The camera's tunable sampling parameters, set before a render and fixed
/// while it runs.
///
/// Each pixel averages `samples_per_pixel` jittered samples: the number of
/// samples taken and the divisor of their sum are the same. Each sample
/// starts a light path with a budget of `max_depth` bounces.
#[derive(Clone, Copy, Debug, PartialEq, Eq, Structural)]
pub struct RenderSettings {
    pub samples_per_pixel: u32,
    pub max_depth: u32,
}

impl RenderSettings {
    /// Settings with the default sample count and bounce budget.
    pub fn new() -> (r: RenderSettings)
        ensures
            r.samples_per_pixel == DEFAULT_SAMPLES_PER_PIXEL,
            r.max_depth == DEFAULT_MAX_DEPTH,
    {
        RenderSettings { samples_per_pixel: DEFAULT_SAMPLES_PER_PIXEL, max_depth: DEFAULT_MAX_DEPTH }
    }

    /// Sets the number of samples averaged into each pixel.
    pub fn set_samples_per_pixel(&mut self, rate: u32)
        ensures
            final(self).samples_per_pixel == rate,
            final(self).max_depth == old(self).max_depth,
    {
        self.samples_per_pixel = rate;
    }

    /// Sets the bounce budget of each camera ray.
    pub fn set_max_depth(&mut self, depth: u32)
        ensures
            final(self).max_depth == depth,
            final(self).samples_per_pixel == old(self).samples_per_pixel,
    {
        self.max_depth = depth;
    }
}

} // verus!
