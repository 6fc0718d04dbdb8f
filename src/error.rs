use vstd::prelude::*;

verus! {

/// A violated precondition of a resource or recording operation.
///
/// Each of these is a defect in the calling program, not a transient
/// condition: callers are expected to stop with the message.
#[derive(Copy, Clone, PartialEq, Eq, Debug, Structural)]
pub enum Error {
    /// A texture or framebuffer was asked for with a zero width or height.
    EmptyTexture,
    /// A texture whose byte size does not fit in 32 bits.
    TextureTooLarge,
    /// A texel buffer whose length is not four bytes per texel of the region.
    TexelLength,
    /// A source row of more bytes than fit in 32 bits.
    RowTooLong,
    /// A transfer whose destination footprint exceeds the texture.
    TransferTooLarge,
    /// Blit rectangles of different sizes.
    BlitSizeMismatch,
    /// A binding group whose resource count differs from its layout's slot count.
    BindingCount,
    /// A uniform update or copy whose element size differs from the buffer's.
    ElementSize,
    /// A uniform update or copy with more elements than the buffer holds.
    ElementCount,
    /// A draw range that is reversed or reaches past the bound buffer.
    DrawRange,
    /// An indexed draw with no index buffer bound.
    NoIndexBuffer,
    /// A pass opened while another pass of the same frame is open.
    PassAlreadyOpen,
    /// A frame submitted while one of its passes is open.
    PassStillOpen,
    /// A recording call on a pass that was ended.
    PassClosed,
    /// A pass ended on a frame that did not open it.
    ForeignPass,
    /// A recording call on a frame that was submitted.
    FrameSubmitted,
    /// More bytes were delivered to a readback than it expects.
    ReadbackOverflow,
}

impl Error {
    /// The one-line description of each violated precondition.
    pub open spec fn spec_message(self) -> &'static str {
        match self {
            Error::EmptyTexture => "fatal: texture width and height must be greater than zero",
            Error::TextureTooLarge => "fatal: texture byte size must fit in 32 bits",
            Error::TexelLength => "fatal: incorrect length for texel buffer",
            Error::RowTooLong => "fatal: texel row byte size must fit in 32 bits",
            Error::TransferTooLarge => "fatal: transfer size must be <= texture size",
            Error::BlitSizeMismatch => "source and destination rectangles must be of the same size",
            Error::BindingCount => "layout slot count does not match bindings",
            Error::ElementSize => "fatal: uniform element size does not match the buffer",
            Error::ElementCount => "fatal: more uniform elements than the buffer holds",
            Error::DrawRange => "fatal: draw range outside of the bound buffer",
            Error::NoIndexBuffer => "fatal: indexed draw without an index buffer",
            Error::PassAlreadyOpen => "fatal: a pass of this frame is still open",
            Error::PassStillOpen => "fatal: frame submitted with an open pass",
            Error::PassClosed => "fatal: recording on a closed pass",
            Error::ForeignPass => "fatal: pass ended on a frame that did not open it",
            Error::FrameSubmitted => "fatal: recording on a submitted frame",
            Error::ReadbackOverflow => "fatal: readback received more bytes than expected",
        }
    }

    /// A one-line description of the violated precondition.
    pub fn message(&self) -> (s: &'static str)
        ensures
            s == self.spec_message(),
    {
        match self {
            Error::EmptyTexture => "fatal: texture width and height must be greater than zero",
            Error::TextureTooLarge => "fatal: texture byte size must fit in 32 bits",
            Error::TexelLength => "fatal: incorrect length for texel buffer",
            Error::RowTooLong => "fatal: texel row byte size must fit in 32 bits",
            Error::TransferTooLarge => "fatal: transfer size must be <= texture size",
            Error::BlitSizeMismatch => "source and destination rectangles must be of the same size",
            Error::BindingCount => "layout slot count does not match bindings",
            Error::ElementSize => "fatal: uniform element size does not match the buffer",
            Error::ElementCount => "fatal: more uniform elements than the buffer holds",
            Error::DrawRange => "fatal: draw range outside of the bound buffer",
            Error::NoIndexBuffer => "fatal: indexed draw without an index buffer",
            Error::PassAlreadyOpen => "fatal: a pass of this frame is still open",
            Error::PassStillOpen => "fatal: frame submitted with an open pass",
            Error::PassClosed => "fatal: recording on a closed pass",
            Error::ForeignPass => "fatal: pass ended on a frame that did not open it",
            Error::FrameSubmitted => "fatal: recording on a submitted frame",
            Error::ReadbackOverflow => "fatal: readback received more bytes than expected",
        }
    }
}

} // verus!
