//! The driver interface and its abstract model.
use vstd::prelude::*;

verus! {

/// Driver name of a GPU object; `0` names no object.
pub type GLuint = u32;

/// Driver enumeration value.
pub type GLenum = u32;

/// Driver signed integer parameter.
pub type GLint = i32;

pub const TEXTURE_2D: GLenum = 0x0DE1;
pub const RGBA: GLenum = 0x1908;
pub const UNSIGNED_BYTE: GLenum = 0x1401;
pub const TEXTURE_MAG_FILTER: GLenum = 0x2800;
pub const TEXTURE_MIN_FILTER: GLenum = 0x2801;
pub const TEXTURE_WRAP_S: GLenum = 0x2802;
pub const TEXTURE_WRAP_T: GLenum = 0x2803;
pub const NEAREST: GLint = 0x2600;
pub const CLAMP_TO_EDGE: GLint = 0x812F;
pub const FRAMEBUFFER: GLenum = 0x8D40;
pub const FRAMEBUFFER_COMPLETE: GLenum = 0x8CD5;
pub const COLOR_ATTACHMENT0: GLenum = 0x8CE0;
pub const VERTEX_SHADER: GLenum = 0x8B31;
pub const FRAGMENT_SHADER: GLenum = 0x8B30;
pub const ARRAY_BUFFER: GLenum = 0x8892;
pub const TRIANGLES: GLenum = 0x0004;

/// What a shader object holds: its stage and its current source text.
pub type ShaderModel = (GLenum, Seq<char>);

/// Arguments of a `tex_image_2d` call: level, internal format, width,
/// height, border, pixel format and pixel type.
pub type TexImage = (GLint, GLint, usize, usize, GLint, GLenum, GLenum);

/// One draw call: primitive mode, program in use, bound vertex buffer,
/// render target, first vertex and vertex count.
pub type DrawCall = (GLenum, GLuint, GLuint, GLuint, GLint, usize);

/// Abstract state of a graphics context, as far as this crate observes it.
pub struct GlState {
    /// Live texture objects.
    pub textures: Set<GLuint>,
    /// Live framebuffer objects.
    pub framebuffers: Set<GLuint>,
    /// Live shader objects, each with its stage and source.
    pub shaders: Map<GLuint, ShaderModel>,
    /// Live program objects, each with the shaders attached so far, in order.
    pub programs: Map<GLuint, Seq<GLuint>>,
    /// Storage last specified for each texture.
    pub texture_images: Map<GLuint, TexImage>,
    /// Parameters set on each texture, keyed by texture and parameter name.
    pub texture_params: Map<(GLuint, GLenum), GLint>,
    /// Texture attached to each framebuffer, keyed by framebuffer and attachment point.
    pub attachments: Map<(GLuint, GLenum), GLuint>,
    /// Draw buffers selected for each framebuffer.
    pub draw_buffers: Map<GLuint, Seq<GLenum>>,
    /// Shader objects that were compiled.
    pub compiled: Set<GLuint>,
    /// Program objects that were linked.
    pub linked: Set<GLuint>,
    /// Draw calls issued so far, in order.
    pub draws: Seq<DrawCall>,
    /// Texture bound to `TEXTURE_2D`.
    pub texture_binding: GLuint,
    /// Framebuffer bound as the render target (`0`: the window).
    pub framebuffer_binding: GLuint,
    /// Buffer bound to `ARRAY_BUFFER`.
    pub array_buffer_binding: GLuint,
    /// Program in use.
    pub current_program: GLuint,
    /// Viewport as `(x, y, width, height)`.
    pub viewport: (GLint, GLint, usize, usize),
    /// Completeness status the driver reports for a framebuffer with a
    /// texture attached as color attachment 0.
    pub framebuffer_status: GLenum,
    /// Names the driver can still hand out.
    pub free_handles: nat,
    /// Status the compiler reports for a stage and a source; `0` reports failure.
    pub compile_status: spec_fn(GLenum, Seq<char>) -> usize,
    /// Status the linker reports for the attached shaders; `0` reports failure.
    pub link_status: spec_fn(Seq<ShaderModel>) -> usize,
    /// Log the compiler writes for a stage and a source.
    pub compile_log: spec_fn(GLenum, Seq<char>) -> Seq<char>,
    /// Log the linker writes for the attached shaders.
    pub link_log: spec_fn(Seq<ShaderModel>) -> Seq<char>,
}

/// `s` with the name `h` added, unless `h` is `0` (a failed allocation).
pub open spec fn with_handle(s: Set<GLuint>, h: GLuint) -> Set<GLuint> {
    if h == 0 { s } else { s.insert(h) }
}

/// Free names left after an allocation that returned `h`.
pub open spec fn handles_after(free: nat, h: GLuint) -> nat {
    if h == 0 || free == 0 { free } else { (free - 1) as nat }
}

/// A binding that refers to `h` falls back to `0` when `h` is deleted.
pub open spec fn unbound(binding: GLuint, h: GLuint) -> GLuint {
    if binding == h { 0 } else { binding }
}

impl GlState {
    /// The name `0` never denotes a live object.
    pub open spec fn wf(self) -> bool {
        &&& !self.textures.contains(0)
        &&& !self.framebuffers.contains(0)
        &&& !self.shaders.dom().contains(0)
        &&& !self.programs.dom().contains(0)
    }

    /// The four object tables, which a leak would change.
    pub open spec fn objects(self) -> (Set<GLuint>, Set<GLuint>, Set<GLuint>, Set<GLuint>) {
        (self.textures, self.framebuffers, self.shaders.dom(), self.programs.dom())
    }

    /// The shaders attached to `program`, with their stage and source.
    pub open spec fn attached_shaders(self, program: GLuint) -> Seq<ShaderModel> {
        self.programs[program].map_values(|h: GLuint| self.shaders[h])
    }
}

/// A graphics context: the driver calls this crate issues.
///
/// Each method is specified by its effect on [`GlState`]. Allocations may
/// fail by returning `0`, which leaves the state unchanged; they succeed
/// while the driver has free names.
pub trait Gl {
    /// The current abstract state of the context.
    spec fn state(&self) -> GlState;

    /// No live object is named `0`.
    proof fn lemma_state_wf(&self)
        ensures
            self.state().wf(),
    ;

    fn gen_texture(&mut self) -> (r: GLuint)
        ensures
            old(self).state().free_handles > 0 ==> r != 0,
            r != 0 ==> !old(self).state().textures.contains(r),
            final(self).state() == (GlState {
                textures: with_handle(old(self).state().textures, r),
                free_handles: handles_after(old(self).state().free_handles, r),
                ..old(self).state()
            }),
    ;

    fn bind_texture(&mut self, target: GLenum, texture: GLuint)
        ensures
            final(self).state() == (GlState { texture_binding: texture, ..old(self).state() }),
    ;

    /// Specifies the storage of the texture bound to `TEXTURE_2D`.
    fn tex_image_2d(
        &mut self,
        target: GLenum,
        level: GLint,
        internal_format: GLint,
        width: usize,
        height: usize,
        border: GLint,
        format: GLenum,
        ty: GLenum,
    )
        ensures
            final(self).state() == (GlState {
                texture_images: old(self).state().texture_images.insert(
                    old(self).state().texture_binding,
                    (level, internal_format, width, height, border, format, ty),
                ),
                ..old(self).state()
            }),
    ;

    /// Sets a parameter of the texture bound to `TEXTURE_2D`.
    fn tex_parameter_i(&mut self, target: GLenum, pname: GLenum, param: GLint)
        ensures
            final(self).state() == (GlState {
                texture_params: old(self).state().texture_params.insert(
                    (old(self).state().texture_binding, pname),
                    param,
                ),
                ..old(self).state()
            }),
    ;

    fn delete_texture(&mut self, texture: GLuint)
        ensures
            final(self).state() == (GlState {
                textures: old(self).state().textures.remove(texture),
                texture_binding: unbound(old(self).state().texture_binding, texture),
                ..old(self).state()
            }),
    ;
    fn gen_framebuffer(&mut self) -> (r: GLuint)
        ensures
            old(self).state().free_handles > 0 ==> r != 0,
            r != 0 ==> !old(self).state().framebuffers.contains(r),
            final(self).state() == (GlState {
                framebuffers: with_handle(old(self).state().framebuffers, r),
                free_handles: handles_after(old(self).state().free_handles, r),
                ..old(self).state()
            }),
    ;

    fn bind_framebuffer(&mut self, target: GLenum, framebuffer: GLuint)
        ensures
            final(self).state() == (GlState {
                framebuffer_binding: framebuffer,
                ..old(self).state()
            }),
    ;

    /// Attaches `texture` to the bound framebuffer at `attachment`.
    fn framebuffer_texture_2d(
        &mut self,
        target: GLenum,
        attachment: GLenum,
        textarget: GLenum,
        texture: GLuint,
        level: GLint,
    )
        ensures
            final(self).state() == (GlState {
                attachments: old(self).state().attachments.insert(
                    (old(self).state().framebuffer_binding, attachment),
                    texture,
                ),
                ..old(self).state()
            }),
    ;

    /// Selects the draw buffers of the bound framebuffer.
    fn draw_buffers(&mut self, bufs: &[GLenum])
        ensures
            final(self).state() == (GlState {
                draw_buffers: old(self).state().draw_buffers.insert(
                    old(self).state().framebuffer_binding,
                    bufs@,
                ),
                ..old(self).state()
            }),
    ;

    /// Completeness status of the framebuffer bound to `target`.
    fn check_frame_buffer_status(&self, target: GLenum) -> (r: GLenum)
        ensures
            r == self.state().framebuffer_status,
    ;

    fn viewport(&mut self, x: GLint, y: GLint, width: usize, height: usize)
        ensures
            final(self).state() == (GlState { viewport: (x, y, width, height), ..old(self).state() }),
    ;

    fn delete_framebuffer(&mut self, framebuffer: GLuint)
        ensures
            final(self).state() == (GlState {
                framebuffers: old(self).state().framebuffers.remove(framebuffer),
                framebuffer_binding: unbound(old(self).state().framebuffer_binding, framebuffer),
                ..old(self).state()
            }),
    ;

    fn create_shader(&mut self, kind: GLenum) -> (r: GLuint)
        ensures
            old(self).state().free_handles > 0 ==> r != 0,
            r != 0 ==> !old(self).state().shaders.dom().contains(r),
            final(self).state() == (GlState {
                shaders: if r == 0 {
                    old(self).state().shaders
                } else {
                    old(self).state().shaders.insert(r, (kind, Seq::empty()))
                },
                free_handles: handles_after(old(self).state().free_handles, r),
                ..old(self).state()
            }),
    ;

    fn shader_source(&mut self, shader: GLuint, source: &str)
        ensures
            final(self).state() == (GlState {
                shaders: if old(self).state().shaders.dom().contains(shader) {
                    old(self).state().shaders.insert(
                        shader,
                        (old(self).state().shaders[shader].0, source@),
                    )
                } else {
                    old(self).state().shaders
                },
                ..old(self).state()
            }),
    ;

    fn compile_shader(&mut self, shader: GLuint)
        ensures
            final(self).state() == (GlState {
                compiled: if old(self).state().shaders.dom().contains(shader) {
                    old(self).state().compiled.insert(shader)
                } else {
                    old(self).state().compiled
                },
                ..old(self).state()
            }),
    ;

    /// Compile status of `shader`; a name that is no compiled shader
    /// reports `0`.
    fn get_shader_compile_status(&self, shader: GLuint) -> (r: usize)
        ensures
            r == if self.state().shaders.dom().contains(shader) && self.state().compiled.contains(
                shader,
            ) {
                (self.state().compile_status)(
                    self.state().shaders[shader].0,
                    self.state().shaders[shader].1,
                )
            } else {
                0
            },
    ;

    /// Compile log of `shader`; empty for a name that is no shader.
    fn get_shader_info_log(&self, shader: GLuint) -> (r: String)
        ensures
            r@ == if self.state().shaders.dom().contains(shader) {
                (self.state().compile_log)(
                    self.state().shaders[shader].0,
                    self.state().shaders[shader].1,
                )
            } else {
                Seq::empty()
            },
    ;

    fn delete_shader(&mut self, shader: GLuint)
        ensures
            final(self).state() == (GlState {
                shaders: old(self).state().shaders.remove(shader),
                ..old(self).state()
            }),
    ;

    fn create_program(&mut self) -> (r: GLuint)
        ensures
            old(self).state().free_handles > 0 ==> r != 0,
            r != 0 ==> !old(self).state().programs.dom().contains(r),
            final(self).state() == (GlState {
                programs: if r == 0 {
                    old(self).state().programs
                } else {
                    old(self).state().programs.insert(r, Seq::empty())
                },
                free_handles: handles_after(old(self).state().free_handles, r),
                ..old(self).state()
            }),
    ;

    fn attach_shader(&mut self, program: GLuint, shader: GLuint)
        ensures
            final(self).state() == (GlState {
                programs: if old(self).state().programs.dom().contains(program)
                    && old(self).state().shaders.dom().contains(shader) {
                    old(self).state().programs.insert(
                        program,
                        old(self).state().programs[program].push(shader),
                    )
                } else {
                    old(self).state().programs
                },
                ..old(self).state()
            }),
    ;

    fn link_program(&mut self, program: GLuint)
        ensures
            final(self).state() == (GlState {
                linked: if old(self).state().programs.dom().contains(program) {
                    old(self).state().linked.insert(program)
                } else {
                    old(self).state().linked
                },
                ..old(self).state()
            }),
    ;

    /// Link status of `program`; a name that is no linked program reports `0`.
    fn get_program_link_status(&self, program: GLuint) -> (r: usize)
        ensures
            r == if self.state().programs.dom().contains(program) && self.state().linked.contains(
                program,
            ) {
                (self.state().link_status)(self.state().attached_shaders(program))
            } else {
                0
            },
    ;

    /// Link log of `program`; empty for a name that is no program.
    fn get_program_info_log(&self, program: GLuint) -> (r: String)
        ensures
            r@ == if self.state().programs.dom().contains(program) {
                (self.state().link_log)(self.state().attached_shaders(program))
            } else {
                Seq::empty()
            },
    ;

    fn delete_program(&mut self, program: GLuint)
        ensures
            final(self).state() == (GlState {
                programs: old(self).state().programs.remove(program),
                ..old(self).state()
            }),
    ;

    fn use_program(&mut self, program: GLuint)
        ensures
            final(self).state() == (GlState { current_program: program, ..old(self).state() }),
    ;

    /// Binds `buffer` to `ARRAY_BUFFER`.
    fn bind_array_buffer(&mut self, buffer: GLuint)
        ensures
            final(self).state() == (GlState { array_buffer_binding: buffer, ..old(self).state() }),
    ;

    /// Draws `count` vertices from `first` with the program in use into the
    /// render target.
    fn draw_arrays(&mut self, mode: GLenum, first: GLint, count: usize)
        ensures
            final(self).state() == (GlState {
                draws: old(self).state().draws.push(
                    (
                        mode,
                        old(self).state().current_program,
                        old(self).state().array_buffer_binding,
                        old(self).state().framebuffer_binding,
                        first,
                        count,
                    ),
                ),
                ..old(self).state()
            }),
    ;
}

} // verus!
