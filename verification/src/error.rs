//! The errors that building the pipeline's resources can end in.
use luminance::framebuffer::FramebufferError;
use luminance::shader::program::ProgramError;
use vstd::prelude::*;
use vstd::std_specs::convert::FromSpecImpl;

verus! {

/// `luminance::framebuffer::FramebufferError`: why a framebuffer could not be
/// built. The value is carried through and never inspected.
#[verifier::external_type_specification]
#[verifier::external_body]
pub struct ExFramebufferError(luminance::framebuffer::FramebufferError);

/// `luminance::shader::program::ProgramError`: why a shader program could not
/// be built. The value is carried through and never inspected.
#[verifier::external_type_specification]
#[verifier::external_body]
pub struct ExProgramError(luminance::shader::program::ProgramError);

/// A resource that the pipeline cannot render without failed to build.
#[derive(Debug)]
pub enum LuminanceError {
    /// A render target could not be allocated.
    FramebufferError(FramebufferError),
    /// A shader program could not be compiled or linked.
    ProgramError(ProgramError),
}

impl LuminanceError {
    /// Whether a render target is what failed.
    pub fn is_framebuffer_error(&self) -> (b: bool)
        ensures
            b == (self is FramebufferError),
    {
        match self {
            LuminanceError::FramebufferError(_) => true,
            LuminanceError::ProgramError(_) => false,
        }
    }

    /// Whether the shader program is what failed.
    pub fn is_program_error(&self) -> (b: bool)
        ensures
            b == (self is ProgramError),
    {
        match self {
            LuminanceError::FramebufferError(_) => false,
            LuminanceError::ProgramError(_) => true,
        }
    }
}

impl From<FramebufferError> for LuminanceError {
    fn from(o: FramebufferError) -> (e: Self) {
        LuminanceError::FramebufferError(o)
    }
}

impl FromSpecImpl<FramebufferError> for LuminanceError {
    open spec fn obeys_from_spec() -> bool {
        true
    }

    open spec fn from_spec(o: FramebufferError) -> Self {
        LuminanceError::FramebufferError(o)
    }
}

impl From<ProgramError> for LuminanceError {
    fn from(o: ProgramError) -> (e: Self) {
        LuminanceError::ProgramError(o)
    }
}

impl FromSpecImpl<ProgramError> for LuminanceError {
    open spec fn obeys_from_spec() -> bool {
        true
    }

    open spec fn from_spec(o: ProgramError) -> Self {
        LuminanceError::ProgramError(o)
    }
}

} // verus!
