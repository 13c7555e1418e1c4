//! The targets that the scene is rendered through: the back buffer that is
//! presented, and the intermediate buffer that the scene is drawn into.
use crate::error::LuminanceError;
use crate::target::RenderTarget;
use luminance::framebuffer::FramebufferError;
use vstd::prelude::*;

verus! {

/// The back buffer and the intermediate buffer of one presentation size.
///
/// `B` is the device's back buffer, `I` what the device allocates for the
/// intermediate buffer: the main colour, the bright colour and the depth.
#[derive(Debug)]
pub struct RenderBuffers<B, I> {
    back_buffer: RenderTarget<B>,
    intermediate_buffer: RenderTarget<I>,
}

/// What a pair of render buffers holds.
pub struct RenderBuffersView<B, I> {
    pub back_buffer: RenderTarget<B>,
    pub intermediate_buffer: RenderTarget<I>,
}

/// What building the render buffers gives, from what the device answered: both
/// targets at `d`, or the failure of the intermediate buffer.
pub open spec fn assembled<B, I>(
    back_buffer: B,
    intermediate: Result<I, FramebufferError>,
    d: [u32; 2],
) -> Result<RenderBuffersView<B, I>, LuminanceError> {
    match intermediate {
        Ok(allocated) => Ok(
            RenderBuffersView {
                back_buffer: RenderTarget { attachment: back_buffer, size: d },
                intermediate_buffer: RenderTarget { attachment: allocated, size: d },
            },
        ),
        Err(e) => Err(LuminanceError::FramebufferError(e)),
    }
}

impl<B, I> RenderBuffers<B, I> {
    /// What the pair holds.
    pub closed spec fn view(&self) -> RenderBuffersView<B, I> {
        RenderBuffersView {
            back_buffer: self.back_buffer,
            intermediate_buffer: self.intermediate_buffer,
        }
    }

    /// Both targets were made for one size.
    pub open spec fn wf(&self) -> bool {
        self@.back_buffer.size == self@.intermediate_buffer.size
    }

    /// The views of a built pair, or the error.
    pub open spec fn viewed(built: Result<Self, LuminanceError>) -> Result<
        RenderBuffersView<B, I>,
        LuminanceError,
    > {
        match built {
            Ok(buffers) => Ok(buffers@),
            Err(e) => Err(e),
        }
    }

    /// Pairs the back buffer with the intermediate buffer that the device was
    /// asked for, both at the dimensions `d`.
    pub fn new(back_buffer: B, intermediate: Result<I, FramebufferError>, d: [u32; 2]) -> (built:
        Result<Self, LuminanceError>)
        ensures
            Self::viewed(built) == assembled(back_buffer, intermediate, d),
            built is Ok ==> built->Ok_0.wf(),
    {
        match intermediate {
            Ok(allocated) => Ok(
                RenderBuffers {
                    back_buffer: RenderTarget::new(back_buffer, d),
                    intermediate_buffer: RenderTarget::new(allocated, d),
                },
            ),
            Err(e) => Err(LuminanceError::from(e)),
        }
    }

    /// The target that is presented.
    pub fn back_buffer(&self) -> (target: &RenderTarget<B>)
        ensures
            *target == self@.back_buffer,
    {
        &self.back_buffer
    }

    /// The target that the scene is drawn into.
    pub fn intermediate_buffer(&self) -> (target: &RenderTarget<I>)
        ensures
            *target == self@.intermediate_buffer,
    {
        &self.intermediate_buffer
    }

    /// The presentation size that the pair was made for.
    pub fn size(&self) -> (size: [u32; 2])
        ensures
            size == self@.intermediate_buffer.size,
    {
        self.intermediate_buffer.size()
    }
}

} // verus!
