//! Render configuration: camera, march settings, scene bounds and the render
//! target, validated at construction.
//!
//! The camera and bounding-box coordinates are IEEE-754 single-precision bit
//! patterns: the verified core never computes with them, it validates the
//! discrete settings and lays the numeric fields out for the GPU uniform
//! block.

use vstd::prelude::*;

verus! {

/// Render-target code asking for composited color.
pub const RENDER_TARGET_COLOR: u32 = 0;

/// Render-target code asking for the raw density visualization.
pub const RENDER_TARGET_DENSITY: u32 = 1;

/// Orbit camera around a target point: spherical coordinates, a vertical
/// field of view and the target position, all carried as bit patterns.
#[derive(Clone, Copy, Debug, PartialEq)]
pub struct Camera {
    pub distance: u32,
    pub theta: u32,
    pub phi: u32,
    pub vfov: u32,
    pub target_pos: [u32; 3],
}

/// Axis-aligned box, each coordinate carried as a bit pattern.
#[derive(Clone, Copy, Debug, PartialEq)]
pub struct Aabb {
    pub lo: [u32; 3],
    pub hi: [u32; 3],
}

/// How many sample points the ray marcher places along a ray segment.
#[derive(Clone, Copy, Debug, PartialEq, Eq, Hash)]
pub struct RaymarchSettings {
    pub n_steps: u32,
}

/// A configuration field that the construction boundary refuses.
#[derive(Clone, Copy, Debug, PartialEq, Eq)]
pub enum ConfigError {
    /// Fewer than two sample points: the step placement divides by
    /// `n_steps - 1`.
    TooFewSteps,
    /// A render-target code that names no target.
    InvalidRenderTarget,
}

impl RaymarchSettings {
    /// Step placement divides by `n_steps - 1`, so two points is the floor.
    pub open spec fn valid(&self) -> bool {
        self.n_steps >= 2
    }

    /// Accepts a step count only when the marcher can place the samples.
    pub fn new(n_steps: u32) -> (r: Result<Self, ConfigError>)
        ensures
            match r {
                Ok(s) => n_steps >= 2 && s.n_steps == n_steps && s.valid(),
                Err(ConfigError::TooFewSteps) => n_steps < 2,
                Err(_) => false,
            },
    {
        if n_steps >= 2 {
            Ok(RaymarchSettings { n_steps })
        } else {
            Err(ConfigError::TooFewSteps)
        }
    }
}

impl Default for RaymarchSettings {
    /// The step count used when a configuration names none.
    fn default() -> (r: Self)
        ensures
            r.n_steps == 300,
            r.valid(),
    {
        RaymarchSettings { n_steps: 300 }
    }
}

/// Everything one render needs besides the field itself.
#[derive(Clone, Copy, Debug, PartialEq)]
pub struct RenderConfiguration {
    pub camera: Camera,
    pub rm_settings: RaymarchSettings,
    pub bounding_box: Aabb,
    pub render_target: u32,
}

impl RenderConfiguration {
    /// The settings every renderer relies on: a usable step count and a
    /// render-target code that names a target.
    pub open spec fn valid(&self) -> bool {
        &&& self.rm_settings.valid()
        &&& (self.render_target == RENDER_TARGET_COLOR || self.render_target
            == RENDER_TARGET_DENSITY)
    }

    /// Validates a configuration at the construction boundary, refusing the
    /// settings that would be fatal at render time.
    pub fn new(
        camera: Camera,
        rm_settings: RaymarchSettings,
        bounding_box: Aabb,
        render_target: u32,
    ) -> (r: Result<Self, ConfigError>)
        ensures
            match r {
                Ok(c) => {
                    &&& c.valid()
                    &&& c.camera == camera
                    &&& c.rm_settings == rm_settings
                    &&& c.bounding_box == bounding_box
                    &&& c.render_target == render_target
                },
                Err(ConfigError::TooFewSteps) => !rm_settings.valid(),
                Err(ConfigError::InvalidRenderTarget) => rm_settings.valid() && render_target
                    != RENDER_TARGET_COLOR && render_target != RENDER_TARGET_DENSITY,
            },
    {
        if rm_settings.n_steps < 2 {
            Err(ConfigError::TooFewSteps)
        } else if render_target != RENDER_TARGET_COLOR && render_target != RENDER_TARGET_DENSITY {
            Err(ConfigError::InvalidRenderTarget)
        } else {
            Ok(RenderConfiguration { camera, rm_settings, bounding_box, render_target })
        }
    }
}

} // verus!
