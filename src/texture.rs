//! Textures and the framebuffers that render into them.
use vstd::prelude::*;
use vstd::std_specs::cmp::PartialEqSpec;

use crate::gl::{
    handles_after, unbound, with_handle, GLenum, GLint, GLuint, Gl, GlState, CLAMP_TO_EDGE,
    COLOR_ATTACHMENT0, FRAMEBUFFER, FRAMEBUFFER_COMPLETE, NEAREST, RGBA, TEXTURE_2D,
    TEXTURE_MAG_FILTER, TEXTURE_MIN_FILTER, TEXTURE_WRAP_S, TEXTURE_WRAP_T, TRIANGLES,
    UNSIGNED_BYTE,
};
use crate::shader::GlShader;

verus! {

/// A 2D RGBA texture owned by this value.
///
/// Two textures are equal when they name the same driver object; their
/// recorded dimensions take no part in the comparison.
///
/// Rendering into a texture goes through [`FrameBuffer::bind`]; call
/// [`FrameBuffer::unbind`] when done, or later drawing keeps targeting the
/// texture instead of the window.
pub struct Texture {
    /// Driver name of the texture.
    pub texture_id: GLuint,
    /// Width in pixels.
    pub width: usize,
    /// Height in pixels.
    pub height: usize,
}

/// Context state after a texture of `width` by `height` pixels was created
/// and got the name `h`: RGBA storage without contents, nearest filtering,
/// clamp-to-edge wrapping on both axes.
pub open spec fn after_texture_new(s: GlState, h: GLuint, width: usize, height: usize) -> GlState {
    GlState {
        textures: with_handle(s.textures, h),
        free_handles: handles_after(s.free_handles, h),
        texture_binding: h,
        texture_images: s.texture_images.insert(
            h,
            (0, RGBA as GLint, width, height, 0, RGBA, UNSIGNED_BYTE),
        ),
        texture_params: s.texture_params.insert((h, TEXTURE_MAG_FILTER), NEAREST).insert(
            (h, TEXTURE_MIN_FILTER),
            NEAREST,
        ).insert((h, TEXTURE_WRAP_S), CLAMP_TO_EDGE).insert((h, TEXTURE_WRAP_T), CLAMP_TO_EDGE),
        ..s
    }
}

/// Context state after the texture named `h` was deleted.
pub open spec fn after_texture_delete(s: GlState, h: GLuint) -> GlState {
    GlState {
        textures: s.textures.remove(h),
        texture_binding: unbound(s.texture_binding, h),
        ..s
    }
}

impl Texture {
    /// Creates a texture of `width` by `height` RGBA pixels with no initial
    /// contents, nearest filtering and clamp-to-edge wrapping on both axes.
    pub fn new<G: Gl>(gl_context: &mut G, width: usize, height: usize) -> (r: Texture)
        ensures
            r.width == width,
            r.height == height,
            old(gl_context).state().free_handles > 0 ==> r.texture_id != 0,
            r.texture_id != 0 ==> !old(gl_context).state().textures.contains(r.texture_id),
            final(gl_context).state() == after_texture_new(
                old(gl_context).state(),
                r.texture_id,
                width,
                height,
            ),
    {
        let texture_id = gl_context.gen_texture();
        gl_context.bind_texture(TEXTURE_2D, texture_id);
        gl_context.tex_image_2d(
            TEXTURE_2D,
            0,
            RGBA as i32,
            width,
            height,
            0,
            RGBA,
            UNSIGNED_BYTE,
        );
        gl_context.tex_parameter_i(TEXTURE_2D, TEXTURE_MAG_FILTER, NEAREST);
        gl_context.tex_parameter_i(TEXTURE_2D, TEXTURE_MIN_FILTER, NEAREST);
        gl_context.tex_parameter_i(TEXTURE_2D, TEXTURE_WRAP_S, CLAMP_TO_EDGE);
        gl_context.tex_parameter_i(TEXTURE_2D, TEXTURE_WRAP_T, CLAMP_TO_EDGE);
        Texture { texture_id, width, height }
    }

    /// A framebuffer that renders into this texture as its color
    /// attachment 0. The window is the render target again afterwards.
    ///
    /// When the driver does not report the framebuffer complete, the
    /// framebuffer is deleted and the status is returned.
    pub fn get_framebuffer<'a, G: Gl>(&'a self, gl_context: &mut G) -> (r: Result<
        FrameBuffer<'a>,
        FrameBufferIncompleteError,
    >)
        ensures
            r is Ok <==> old(gl_context).state().framebuffer_status == FRAMEBUFFER_COMPLETE,
            match r {
                Ok(fb) => {
                    &&& fb.target() == *self
                    &&& old(gl_context).state().free_handles > 0 ==> fb.handle() != 0
                    &&& fb.handle() != 0 ==> !old(gl_context).state().framebuffers.contains(fb.handle())
                    &&& final(gl_context).state() == after_framebuffer_new(
                        old(gl_context).state(),
                        fb.handle(),
                        self.texture_id,
                    )
                },
                Err(e) => {
                    &&& e.status == old(gl_context).state().framebuffer_status
                    &&& final(gl_context).state().textures == old(gl_context).state().textures
                    &&& final(gl_context).state().objects() == old(gl_context).state().objects()
                    &&& final(gl_context).state().framebuffer_binding == 0
                },
            },
            final(gl_context).state().texture_binding == old(gl_context).state().texture_binding,
            final(gl_context).state().viewport == old(gl_context).state().viewport,
    {
        proof { gl_context.lemma_state_wf(); }
        let fb = FrameBuffer::new(self, gl_context);
        gl_context.bind_framebuffer(FRAMEBUFFER, fb.id);
        gl_context.framebuffer_texture_2d(FRAMEBUFFER, COLOR_ATTACHMENT0, TEXTURE_2D, self.texture_id, 0);
        let attachments: [GLenum; 1] = [COLOR_ATTACHMENT0];
        gl_context.draw_buffers(&attachments);
        assert(attachments@ =~= seq![COLOR_ATTACHMENT0]);
        let status = gl_context.check_frame_buffer_status(FRAMEBUFFER);
        gl_context.bind_framebuffer(FRAMEBUFFER, 0);
        if status != FRAMEBUFFER_COMPLETE {
            fb.delete(gl_context);
            proof {
                assert(gl_context.state().framebuffers =~= old(gl_context).state().framebuffers);
            }
            return Err(FrameBufferIncompleteError { status });
        }
        Ok(fb)
    }

    /// Releases the driver texture.
    pub fn delete<G: Gl>(self, gl_context: &mut G)
        ensures
            final(gl_context).state() == after_texture_delete(
                old(gl_context).state(),
                self.texture_id,
            ),
    {
        gl_context.delete_texture(self.texture_id);
    }
}

impl PartialEq for Texture {
    /// Compares the driver names only, not the contents or dimensions.
    fn eq(&self, other: &Texture) -> (r: bool)
        ensures
            r == (self.texture_id == other.texture_id),
    {
        self.texture_id == other.texture_id
    }
}

impl vstd::std_specs::cmp::PartialEqSpecImpl for Texture {
    open spec fn obeys_eq_spec() -> bool {
        true
    }

    open spec fn eq_spec(&self, other: &Texture) -> bool {
        self.texture_id == other.texture_id
    }
}

impl Eq for Texture {}

/// Relies on `<u32 as Hash>::hash`, which feeds the integer to the hasher;
/// nothing is claimed of the hasher's state afterwards.
pub assume_specification<H: core::hash::Hasher>[ <u32 as core::hash::Hash>::hash ](
    v: &u32,
    state: &mut H,
);

impl core::hash::Hash for Texture {
    /// Hashes the driver name only, in agreement with equality.
    fn hash<H: core::hash::Hasher>(&self, state: &mut H) {
        self.texture_id.hash(state);
    }
}

/// The texture's framebuffer did not become complete; carries the status
/// the driver reported.
#[derive(Debug, Clone, Copy, PartialEq, Eq, Hash)]
pub struct FrameBufferIncompleteError {
    pub status: GLenum,
}

/// Vertex data in a driver buffer, drawn as a list of triangles.
#[derive(Debug, Clone, Copy, PartialEq, Eq, Hash)]
pub struct VertexBuffer {
    /// Driver name of the buffer.
    pub vertex_buffer_id: GLuint,
    /// Number of vertices in the buffer.
    pub vertex_count: usize,
}

/// A framebuffer that renders into one texture as its color attachment 0.
///
/// It borrows the texture, so it cannot outlive it. It is obtained only
/// through [`Texture::get_framebuffer`].
pub struct FrameBuffer<'a> {
    id: GLuint,
    texture: &'a Texture,
}

/// Context state after a framebuffer named `h` got `texture` as its color
/// attachment 0, drawing to that attachment, and the window was made the
/// render target again.
pub open spec fn after_framebuffer_new(s: GlState, h: GLuint, texture: GLuint) -> GlState {
    GlState {
        framebuffers: with_handle(s.framebuffers, h),
        free_handles: handles_after(s.free_handles, h),
        framebuffer_binding: 0,
        attachments: s.attachments.insert((h, COLOR_ATTACHMENT0), texture),
        draw_buffers: s.draw_buffers.insert(h, seq![COLOR_ATTACHMENT0]),
        ..s
    }
}

impl<'a> FrameBuffer<'a> {
    /// Driver name of the framebuffer.
    pub closed spec fn handle(&self) -> GLuint {
        self.id
    }

    /// The texture this framebuffer renders into.
    pub closed spec fn target(&self) -> Texture {
        *self.texture
    }

    /// The texture this framebuffer renders into.
    pub fn texture(&self) -> (r: &'a Texture)
        ensures
            *r == self.target(),
    {
        self.texture
    }

    /// Driver name of the framebuffer.
    pub fn id(&self) -> (r: GLuint)
        ensures
            r == self.handle(),
    {
        self.id
    }

    fn new<G: Gl>(texture: &'a Texture, gl_context: &mut G) -> (r: FrameBuffer<'a>)
        ensures
            r.target() == *texture,
            old(gl_context).state().free_handles > 0 ==> r.handle() != 0,
            r.handle() != 0 ==> !old(gl_context).state().framebuffers.contains(r.handle()),
            final(gl_context).state() == (GlState {
                framebuffers: with_handle(old(gl_context).state().framebuffers, r.handle()),
                free_handles: handles_after(old(gl_context).state().free_handles, r.handle()),
                ..old(gl_context).state()
            }),
    {
        let id = gl_context.gen_framebuffer();
        FrameBuffer { id, texture }
    }

    /// Makes the texture the render target, with a viewport that covers it.
    ///
    /// Drawing goes to the texture until [`FrameBuffer::unbind`] is called.
    pub fn bind<G: Gl>(&self, gl_context: &mut G)
        ensures
            final(gl_context).state() == (GlState {
                texture_binding: self.target().texture_id,
                framebuffer_binding: self.handle(),
                viewport: (0, 0, self.target().width, self.target().height),
                ..old(gl_context).state()
            }),
    {
        gl_context.bind_texture(TEXTURE_2D, self.texture.texture_id);
        gl_context.bind_framebuffer(FRAMEBUFFER, self.id);
        gl_context.viewport(0, 0, self.texture.width, self.texture.height);
    }

    /// Draws `vertices` as triangles with `shader` into the current target.
    pub fn draw<G: Gl>(&self, gl_context: &mut G, shader: &GlShader, vertices: &VertexBuffer)
        ensures
            final(gl_context).state() == (GlState {
                current_program: shader.shader_program,
                array_buffer_binding: vertices.vertex_buffer_id,
                draws: old(gl_context).state().draws.push(
                    (
                        TRIANGLES,
                        shader.shader_program,
                        vertices.vertex_buffer_id,
                        old(gl_context).state().framebuffer_binding,
                        0,
                        vertices.vertex_count,
                    ),
                ),
                ..old(gl_context).state()
            }),
    {
        gl_context.use_program(shader.shader_program);
        gl_context.bind_array_buffer(vertices.vertex_buffer_id);
        gl_context.draw_arrays(TRIANGLES, 0, vertices.vertex_count);
    }

    /// Makes the window the render target again.
    pub fn unbind<G: Gl>(&self, gl_context: &mut G)
        ensures
            final(gl_context).state() == (GlState {
                texture_binding: 0,
                framebuffer_binding: 0,
                ..old(gl_context).state()
            }),
    {
        gl_context.bind_texture(TEXTURE_2D, 0);
        gl_context.bind_framebuffer(FRAMEBUFFER, 0);
    }

    /// Releases the driver framebuffer; the texture is left as it is.
    pub fn delete<G: Gl>(self, gl_context: &mut G)
        ensures
            final(gl_context).state() == (GlState {
                framebuffers: old(gl_context).state().framebuffers.remove(self.handle()),
                framebuffer_binding: unbound(
                    old(gl_context).state().framebuffer_binding,
                    self.handle(),
                ),
                ..old(gl_context).state()
            }),
    {
        gl_context.delete_framebuffer(self.id);
    }
}

/// Creating a texture and deleting it right away leaves the context's
/// object tables as they were, whatever name the driver handed out.
pub proof fn lemma_texture_round_trip(s: GlState, h: GLuint, width: usize, height: usize)
    requires
        s.wf(),
        h != 0 ==> !s.textures.contains(h),
    ensures
        after_texture_delete(after_texture_new(s, h, width, height), h).objects() == s.objects(),
{
    assert(after_texture_delete(after_texture_new(s, h, width, height), h).textures =~= s.textures);
}

/// Texture equality compares driver names only: two textures with the same
/// name are equal whatever their recorded dimensions.
pub proof fn lemma_texture_eq_by_name(a: Texture, b: Texture)
    ensures
        a.eq_spec(&b) <==> a.texture_id == b.texture_id,
{
}

} // verus!
