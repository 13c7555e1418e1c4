//! Render targets: what a component draws into.
use vstd::prelude::*;

verus! {

/// A render target: the attachments that a device allocated, together with the
/// one pixel size that all of them were allocated at.
#[derive(Debug, PartialEq, Eq)]
pub struct RenderTarget<A> {
    /// The attachments, as the device handed them out.
    pub attachment: A,
    /// Width and height, in pixels.
    pub size: [u32; 2],
}

impl<A> RenderTarget<A> {
    /// Pairs what the device allocated with the size that it was asked for.
    pub fn new(attachment: A, size: [u32; 2]) -> (target: Self)
        ensures
            target.attachment == attachment,
            target.size == size,
    {
        RenderTarget { attachment, size }
    }

    /// What the device allocated.
    pub fn attachment(&self) -> (attachment: &A)
        ensures
            *attachment == self.attachment,
    {
        &self.attachment
    }

    /// The size that the target was allocated at.
    pub fn size(&self) -> (size: [u32; 2])
        ensures
            size == self.size,
    {
        self.size
    }

    /// Whether the target was allocated at `size`.
    pub fn has_size(&self, size: [u32; 2]) -> (same: bool)
        ensures
            same == (self.size@ == size@),
    {
        let same = self.size[0] == size[0] && self.size[1] == size[1];
        proof {
            if same {
                assert(self.size@ =~= size@);
            }
        }
        same
    }
}

} // verus!
