//! Textures that keep their identity from frame to frame.
use vstd::prelude::*;
use crate::float::{F32, F64};
use crate::geometry::{Rect, Transform};
use crate::render_helpers::shader_element::Kind;
use crate::render_helpers::SizeF;
use crate::state::RectF;

verus! {

/// A texture, and how it is meant to be shown.
#[derive(Debug, PartialEq, Eq)]
pub struct TextureBuffer {
    /// What the elements that show the texture are known by.
    pub id: u64,
    /// Changes with what is drawn.
    pub commit_counter: usize,
    /// The renderer that the texture belongs to.
    pub renderer_context_id: u64,
    /// The texture, by the handle that the renderer keeps it under.
    pub texture: u64,
    pub scale: SizeF,
    pub transform: Transform,
    pub opaque_regions: Vec<Rect>,
    /// The size of the texture, scaled and turned.
    pub logical_size: SizeF,
}

impl Clone for TextureBuffer {
    fn clone(&self) -> (b: TextureBuffer)
        ensures
            b.agrees(*self),
    {
        let opaque_regions = self.opaque_regions.clone();
        assert(opaque_regions@ =~= self.opaque_regions@);
        TextureBuffer {
            id: self.id,
            commit_counter: self.commit_counter,
            renderer_context_id: self.renderer_context_id,
            texture: self.texture,
            scale: self.scale,
            transform: self.transform,
            opaque_regions,
            logical_size: self.logical_size,
        }
    }
}

impl TextureBuffer {
    /// Whether two buffers are the same.
    pub open spec fn agrees(self, other: TextureBuffer) -> bool {
        &&& self.opaque_regions@ == other.opaque_regions@
        &&& self == (TextureBuffer { opaque_regions: self.opaque_regions, ..other })
    }

    /// A buffer for a texture. It is known by `id` from then on.
    pub fn from_texture(
        id: u64,
        renderer_context_id: u64,
        texture: u64,
        scale: SizeF,
        transform: Transform,
        opaque_regions: Vec<Rect>,
        logical_size: SizeF,
    ) -> (b: TextureBuffer)
        ensures
            b == (TextureBuffer {
                id,
                commit_counter: 0,
                renderer_context_id,
                texture,
                scale,
                transform,
                opaque_regions,
                logical_size,
            }),
    {
        TextureBuffer {
            id,
            commit_counter: 0,
            renderer_context_id,
            texture,
            scale,
            transform,
            opaque_regions,
            logical_size,
        }
    }

    pub fn texture(&self) -> (t: u64)
        ensures
            t == self.texture,
    {
        self.texture
    }

    pub fn texture_scale(&self) -> (s: SizeF)
        ensures
            s == self.scale,
    {
        self.scale
    }

    pub fn texture_transform(&self) -> (t: Transform)
        ensures
            t == self.transform,
    {
        self.transform
    }
}

/// A part of a texture that is drawn at some size.
#[derive(Debug, PartialEq, Eq)]
pub struct TextureRenderElement {
    pub buffer: TextureBuffer,
    pub x: F64,
    pub y: F64,
    pub alpha: F32,
    /// The part of the texture; all of it where there is none.
    pub src: Option<RectF>,
    /// The size to draw at.
    pub size: Option<SizeF>,
    pub kind: Kind,
}

impl TextureRenderElement {
    pub fn from_texture_buffer(
        buffer: TextureBuffer,
        x: F64,
        y: F64,
        alpha: F32,
        src: Option<RectF>,
        size: Option<SizeF>,
        kind: Kind,
    ) -> (e: TextureRenderElement)
        ensures
            e == (TextureRenderElement { buffer, x, y, alpha, src, size, kind }),
    {
        TextureRenderElement { buffer, x, y, alpha, src, size, kind }
    }

    /// What the element is known by from frame to frame: its buffer's identity.
    pub fn id(&self) -> (id: u64)
        ensures
            id == self.buffer.id,
    {
        self.buffer.id
    }

    /// The state of what the element shows.
    pub fn current_commit(&self) -> (commit: usize)
        ensures
            commit == self.buffer.commit_counter,
    {
        self.buffer.commit_counter
    }

    pub fn buffer(&self) -> (b: &TextureBuffer)
        ensures
            *b == self.buffer,
    {
        &self.buffer
    }

    pub open spec fn drawn_size(self) -> SizeF {
        match self.size {
            Some(size) => size,
            None => match self.src {
                Some(src) => SizeF { w: src.w, h: src.h },
                None => self.buffer.logical_size,
            },
        }
    }

    /// The size that the part is drawn at: the one asked for, else its own.
    pub fn logical_size(&self) -> (s: SizeF)
        ensures
            s == self.drawn_size(),
    {
        match self.size {
            Some(size) => size,
            None => match self.src {
                Some(src) => SizeF { w: src.w, h: src.h },
                None => self.buffer.logical_size,
            },
        }
    }

    /// The part that is drawn.
    pub fn logical_src(&self) -> (r: RectF)
        ensures
            r == (match self.src {
                Some(src) => src,
                None => RectF {
                    x: F64 { bits: 0 },
                    y: F64 { bits: 0 },
                    w: self.drawn_size().w,
                    h: self.drawn_size().h,
                },
            }),
    {
        match self.src {
            Some(src) => src,
            None => {
                let size = self.logical_size();
                RectF { x: F64 { bits: 0 }, y: F64 { bits: 0 }, w: size.w, h: size.h }
            },
        }
    }

    /// Whether a renderer draws the element: only the one that the texture
    /// belongs to does.
    pub fn is_drawn_by(&self, renderer: u64) -> (r: bool)
        ensures
            r == (self.buffer.renderer_context_id == renderer),
    {
        renderer == self.buffer.renderer_context_id
    }
}

/// A copy of a buffer is the buffer again: an element of the one is known by the
/// same identity, and is in the same state, as an element of the other, wherever
/// the two are and whatever part of the texture they show.
pub proof fn copies_keep_identity(
    buffer: TextureBuffer,
    copy: TextureBuffer,
    shown: TextureRenderElement,
    shown_again: TextureRenderElement,
)
    requires
        copy.agrees(buffer),
        shown.buffer == buffer,
        shown_again.buffer == copy,
    ensures
        shown_again.buffer.id == shown.buffer.id,
        shown_again.buffer.commit_counter == shown.buffer.commit_counter,
{
}

/// An element is drawn at the size that it was given, else at that of the part it
/// shows, else at that of its texture.
pub proof fn elements_are_drawn_at_their_size(e: TextureRenderElement)
    ensures
        e.size matches Some(s) ==> e.drawn_size() == s,
        e.size is None && e.src is Some ==> e.drawn_size().w == e.src->0.w && e.drawn_size().h
            == e.src->0.h,
        e.size is None && e.src is None ==> e.drawn_size() == e.buffer.logical_size,
{
}

} // verus!
