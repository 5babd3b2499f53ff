use vstd::prelude::*;

use crate::context::{Context, ContextState, Framebuffer, Renderbuffer, RenderbufferStorage};
use crate::types::{Error, Format};

verus! {

/// The GL storage code of each pixel format.
pub open spec fn spec_internal_format_from(pixel_format: Format) -> u32 {
    match pixel_format {
        Format::R8 => 0x8229,
        Format::RGB8 => 0x8051,
        Format::RGBA8 => 0x8058,
    }
}

/// The GL storage code of a pixel format.
pub fn internal_format_from(pixel_format: Format) -> (r: u32)
    ensures
        r == spec_internal_format_from(pixel_format),
{
    match pixel_format {
        Format::R8 => 0x8229,
        Format::RGB8 => 0x8051,
        Format::RGBA8 => 0x8058,
    }
}

/// Creates the two buffers of an off-screen target: a frame buffer backed
/// by a render buffer with storage at the given extent.
pub fn new_headless_target(
    context: &mut Context,
    pixel_format: Format,
    width: usize,
    height: usize,
) -> (r: Result<(Framebuffer, Renderbuffer), Error>)
    ensures
        match r {
            Ok((fb, rb)) => {
                &&& final(context)@ == (ContextState {
                    framebuffers: old(context)@.framebuffers.push(true),
                    renderbuffers: old(context)@.renderbuffers.push(
                        Some(
                            RenderbufferStorage {
                                pixel_format: spec_internal_format_from(pixel_format),
                                width,
                                height,
                            },
                        ),
                    ),
                    ..old(context)@
                })
                &&& final(context)@.framebuffer_live(fb)
                &&& !old(context)@.framebuffer_live(fb)
                &&& final(context)@.renderbuffer_live(rb)
                &&& !old(context)@.renderbuffer_live(rb)
                &&& final(context)@.renderbuffer_storage(rb) == (RenderbufferStorage {
                    pixel_format: spec_internal_format_from(pixel_format),
                    width,
                    height,
                })
            },
            Err(e) => {
                &&& (e matches Error::HeadlessTargetError { message } && message@
                    == "Failed to create headless target"@)
                &&& final(context)@ == old(context)@
            },
        },
        r is Err <==> (old(context)@.renderbuffers.len() >= 0xFFFF_FFFF || old(
            context,
        )@.framebuffers.len() >= 0xFFFF_FFFF),
{
    match context.create_headless_buffers(internal_format_from(pixel_format), width, height) {
        Some((fb, rb)) => Ok((fb, rb)),
        None => Err(
            Error::HeadlessTargetError { message: "Failed to create headless target".to_owned() },
        ),
    }
}

/// An off-screen render target: a frame buffer backed by a render buffer,
/// for rendering without a window.
pub struct HeadlessTarget {
    pub width: usize,
    pub height: usize,
    pub framebuffer_id: Framebuffer,
    pub renderbuffer_id: Renderbuffer,
}

impl HeadlessTarget {
    /// The render buffer backing this target.
    pub open spec fn spec_renderbuffer(self) -> Renderbuffer {
        self.renderbuffer_id
    }

    /// True while both buffers of the target are allocated in the context.
    pub open spec fn wf(self, ctx: ContextState) -> bool {
        ctx.framebuffer_live(self.framebuffer_id) && ctx.renderbuffer_live(
            self.spec_renderbuffer(),
        )
    }

    /// Constructs a new headless render target that enables rendering into
    /// an off-screen render buffer.
    pub fn new(context: &mut Context, pixel_format: Format, width: usize, height: usize) -> (r:
        Result<HeadlessTarget, Error>)
        ensures
            match r {
                Ok(t) => {
                    &&& final(context)@ == (ContextState {
                        framebuffers: old(context)@.framebuffers.push(true),
                        renderbuffers: old(context)@.renderbuffers.push(
                            Some(
                                RenderbufferStorage {
                                    pixel_format: spec_internal_format_from(pixel_format),
                                    width,
                                    height,
                                },
                            ),
                        ),
                        ..old(context)@
                    })
                    &&& t.wf(final(context)@)
                    &&& t.width == width
                    &&& t.height == height
                    &&& !old(context)@.framebuffer_live(t.framebuffer_id)
                    &&& !old(context)@.renderbuffer_live(t.spec_renderbuffer())
                    &&& final(context)@.renderbuffer_storage(t.spec_renderbuffer())
                        == (RenderbufferStorage {
                        pixel_format: spec_internal_format_from(pixel_format),
                        width,
                        height,
                    })
                },
                Err(e) => {
                    &&& (e matches Error::HeadlessTargetError { message } && message@
                        == "Failed to create headless target"@)
                    &&& final(context)@ == old(context)@
                },
            },
            r is Err <==> (old(context)@.renderbuffers.len() >= 0xFFFF_FFFF || old(
                context,
            )@.framebuffers.len() >= 0xFFFF_FFFF),
    {
        let (frame_buf, render_buf) = match new_headless_target(
            context,
            pixel_format,
            width,
            height,
        ) {
            Ok(buffers) => buffers,
            Err(e) => {
                return Err(e);
            },
        };
        Ok(
            HeadlessTarget {
                width,
                height,
                framebuffer_id: frame_buf,
                renderbuffer_id: render_buf,
            },
        )
    }

    /// Reallocates the render buffer's storage at a new extent; the
    /// target then reports exactly that extent, never the stale one.
    pub fn resize_buffer(
        &mut self,
        context: &mut Context,
        pixel_format: Format,
        width: usize,
        height: usize,
    ) -> (r: Result<(), Error>)
        requires
            old(self).wf(old(context)@),
        ensures
            r is Ok,
            final(self).width == width,
            final(self).height == height,
            final(self).framebuffer_id == old(self).framebuffer_id,
            final(self).spec_renderbuffer() == old(self).spec_renderbuffer(),
            final(context)@ == (ContextState {
                renderbuffers: old(context)@.renderbuffers.update(
                    old(self).spec_renderbuffer() as int,
                    Some(
                        RenderbufferStorage {
                            pixel_format: spec_internal_format_from(pixel_format),
                            width,
                            height,
                        },
                    ),
                ),
                ..old(context)@
            }),
            final(self).wf(final(context)@),
            final(context)@.renderbuffer_storage(final(self).spec_renderbuffer())
                == (RenderbufferStorage {
                pixel_format: spec_internal_format_from(pixel_format),
                width,
                height,
            }),
    {
        let result = context.resize_renderbuffer_storage(
            self.renderbuffer_id,
            internal_format_from(pixel_format),
            width,
            height,
        );
        self.width = width;
        self.height = height;
        result
    }

    /// Releases the target's two buffers.
    pub fn delete(self, context: &mut Context)
        requires
            self.wf(old(context)@),
        ensures
            final(context)@ == (ContextState {
                framebuffers: old(context)@.framebuffers.update(self.framebuffer_id as int, false),
                renderbuffers: old(context)@.renderbuffers.update(
                    self.spec_renderbuffer() as int,
                    None,
                ),
                ..old(context)@
            }),
            !final(context)@.framebuffer_live(self.framebuffer_id),
            !final(context)@.renderbuffer_live(self.spec_renderbuffer()),
    {
        context.delete_headless_target(self.framebuffer_id, self.renderbuffer_id);
    }
}

} // verus!
