//! The errors that the renderer reports instead of giving up.

use vstd::prelude::*;

verus! {

/// What went wrong. Every kind but `DeviceAllocation` is structural: asking
/// again with the same arguments fails again.
#[derive(Clone, Copy, Debug, PartialEq, Eq, Structural)]
pub enum RenderErrorKind {
    /// A uniform buffer was asked for with an alignment of zero.
    ZeroAlignment,
    /// A uniform buffer was asked for over a type that occupies no bytes.
    ZeroSizedBlock,
    /// The padded size of a uniform block does not fit a dynamic offset.
    BlockTooLarge,
    /// One more block would lie beyond the largest dynamic offset.
    BufferFull,
    /// A block handle does not belong to the current contents of the buffer.
    StaleBlock,
    /// A counter that tells generations of a resource apart has run out.
    GenerationExhausted,
    /// A texture or attachment was asked for with a width or height of zero.
    EmptyExtent,
    /// One row of a texture does not fit the row pitch of an upload.
    RowTooWide,
    /// The pixel data are shorter than the texture they are meant to fill.
    DataTooShort,
    /// The designated world model is missing or is not static geometry.
    InvalidWorldModel,
    /// There are fewer lightstyle values than the frame uniforms hold.
    MissingLightstyles,
    /// Entities and their uniform values were not handed over in equal number.
    EntityCountMismatch,
    /// A pass was asked for before the uniforms of its frame were written,
    /// or with other entities than the uniforms were written for.
    UniformsNotUpdated,
    /// The viewport of a pass differs from the size of the depth attachment.
    ViewportMismatch,
    /// The device could not provide memory for a resource.
    DeviceAllocation,
}

/// An error of the renderer.
#[derive(Clone, Copy, Debug, PartialEq, Eq, Structural)]
pub struct RenderError {
    pub kind: RenderErrorKind,
}

impl RenderError {
    pub fn new(kind: RenderErrorKind) -> (error: RenderError)
        ensures
            error.kind == kind,
    {
        RenderError { kind }
    }

    pub fn kind(&self) -> (kind: RenderErrorKind)
        ensures
            kind == self.kind,
    {
        self.kind
    }

    /// Whether the same request may succeed when it is made again.
    pub open spec fn spec_is_transient(&self) -> bool {
        self.kind == RenderErrorKind::DeviceAllocation
    }

    #[verifier::when_used_as_spec(spec_is_transient)]
    pub fn is_transient(&self) -> (transient: bool)
        ensures
            transient == self.spec_is_transient(),
    {
        match self.kind {
            RenderErrorKind::DeviceAllocation => true,
            _ => false,
        }
    }
}

} // verus!
