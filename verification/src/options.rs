//! Command-line selectors: the computation method, the render target and the
//! GPU context mode, with their canonical names and exact parsers.

use vstd::prelude::*;
use crate::config::RENDER_TARGET_COLOR;
use crate::config::RENDER_TARGET_DENSITY;

verus! {

/// Which renderer carries out the work.
#[derive(Clone, Copy, Debug, Default, PartialEq, Eq, PartialOrd, Ord, Hash)]
pub enum MethodType {
    SingleCpu,
    MultiCpu,
    #[default]
    Gpu,
}

/// A method name that names no method; carries the offending input.
#[derive(Clone, Debug, PartialEq, Eq)]
pub struct MethodTypeParseError(pub String);

impl MethodType {
    /// The canonical command-line name of this method.
    pub open spec fn spec_name(self) -> Seq<char> {
        match self {
            MethodType::SingleCpu => "singlecpu"@,
            MethodType::MultiCpu => "multicpu"@,
            MethodType::Gpu => "gpu"@,
        }
    }

    /// The canonical command-line name of this method.
    pub fn name(&self) -> (r: String)
        ensures
            r@ == self.spec_name(),
    {
        match self {
            MethodType::SingleCpu => "singlecpu".to_owned(),
            MethodType::MultiCpu => "multicpu".to_owned(),
            MethodType::Gpu => "gpu".to_owned(),
        }
    }

    /// Reads a method from its canonical name, and from nothing else; the
    /// error keeps the rejected input.
    pub fn parse(s: &str) -> (r: Result<MethodType, MethodTypeParseError>)
        ensures
            r is Ok <==> (s@ == "singlecpu"@ || s@ == "multicpu"@ || s@ == "gpu"@),
            match r {
                Ok(t) => t.spec_name() == s@,
                Err(e) => e.0@ == s@,
            },
    {
        let owned = s.to_owned();
        if owned == "singlecpu".to_owned() {
            Ok(MethodType::SingleCpu)
        } else if owned == "multicpu".to_owned() {
            Ok(MethodType::MultiCpu)
        } else if owned == "gpu".to_owned() {
            Ok(MethodType::Gpu)
        } else {
            Err(MethodTypeParseError(owned))
        }
    }
}

/// What the renderer writes into the image: composited color, or the raw
/// density visualization.
#[derive(Clone, Copy, Debug, Default, PartialEq, Eq, PartialOrd, Ord, Hash)]
pub enum RenderTarget {
    #[default]
    Color,
    Density,
}

/// A render-target name that names no target; carries the offending input.
#[derive(Clone, Debug, PartialEq, Eq)]
pub struct RenderTargetParseError(pub String);

impl RenderTarget {
    /// The canonical command-line name of this target.
    pub open spec fn spec_name(self) -> Seq<char> {
        match self {
            RenderTarget::Color => "color"@,
            RenderTarget::Density => "density"@,
        }
    }

    /// The numeric selector carried in the render configuration.
    pub open spec fn spec_code(self) -> u32 {
        match self {
            RenderTarget::Color => RENDER_TARGET_COLOR,
            RenderTarget::Density => RENDER_TARGET_DENSITY,
        }
    }

    /// The canonical command-line name of this target.
    pub fn name(&self) -> (r: String)
        ensures
            r@ == self.spec_name(),
    {
        match self {
            RenderTarget::Color => "color".to_owned(),
            RenderTarget::Density => "density".to_owned(),
        }
    }

    /// The numeric selector carried in the render configuration.
    pub fn code(&self) -> (r: u32)
        ensures
            r == self.spec_code(),
    {
        match self {
            RenderTarget::Color => RENDER_TARGET_COLOR,
            RenderTarget::Density => RENDER_TARGET_DENSITY,
        }
    }

    /// Reads a target from its canonical name, and from nothing else; the
    /// error keeps the rejected input.
    pub fn parse(s: &str) -> (r: Result<RenderTarget, RenderTargetParseError>)
        ensures
            r is Ok <==> (s@ == "color"@ || s@ == "density"@),
            match r {
                Ok(t) => t.spec_name() == s@,
                Err(e) => e.0@ == s@,
            },
    {
        let owned = s.to_owned();
        if owned == "color".to_owned() {
            Ok(RenderTarget::Color)
        } else if owned == "density".to_owned() {
            Ok(RenderTarget::Density)
        } else {
            Err(RenderTargetParseError(owned))
        }
    }
}

/// How chatty the GPU context is set up to be.
#[derive(Clone, Copy, Debug, Default, PartialEq, Eq, PartialOrd, Ord, Hash)]
pub enum GpuContextMode {
    #[default]
    Debug,
    ReleaseValidation,
    ReleaseSilent,
}

/// A context-mode name that names no mode; carries the offending input.
#[derive(Clone, Debug, PartialEq, Eq)]
pub enum ParseGpuContextModeError {
    InvalidArg(String),
}

impl GpuContextMode {
    /// The canonical command-line name of this mode.
    pub open spec fn spec_name(self) -> Seq<char> {
        match self {
            GpuContextMode::Debug => "debug"@,
            GpuContextMode::ReleaseValidation => "validation"@,
            GpuContextMode::ReleaseSilent => "silent"@,
        }
    }

    /// The canonical command-line name of this mode.
    pub fn name(&self) -> (r: String)
        ensures
            r@ == self.spec_name(),
    {
        match self {
            GpuContextMode::Debug => "debug".to_owned(),
            GpuContextMode::ReleaseValidation => "validation".to_owned(),
            GpuContextMode::ReleaseSilent => "silent".to_owned(),
        }
    }

    /// Reads a mode from its canonical name, and from nothing else; the
    /// error keeps the rejected input.
    pub fn parse(s: &str) -> (r: Result<GpuContextMode, ParseGpuContextModeError>)
        ensures
            r is Ok <==> (s@ == "debug"@ || s@ == "validation"@ || s@ == "silent"@),
            match r {
                Ok(t) => t.spec_name() == s@,
                Err(ParseGpuContextModeError::InvalidArg(inp)) => inp@ == s@,
            },
    {
        let owned = s.to_owned();
        if owned == "debug".to_owned() {
            Ok(GpuContextMode::Debug)
        } else if owned == "validation".to_owned() {
            Ok(GpuContextMode::ReleaseValidation)
        } else if owned == "silent".to_owned() {
            Ok(GpuContextMode::ReleaseSilent)
        } else {
            Err(ParseGpuContextModeError::InvalidArg(owned))
        }
    }
}

} // verus!
