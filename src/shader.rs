//! Shader programs linked from a vertex and a fragment stage.
use vstd::prelude::*;

use crate::gl::{with_handle, GLuint, Gl, GlState, FRAGMENT_SHADER, VERTEX_SHADER};

verus! {

/// A linked shader program owned by this value.
#[derive(Debug, Clone, Copy, Hash, PartialEq, Eq, PartialOrd, Ord)]
pub struct GlShader {
    /// Driver name of the linked program.
    pub shader_program: GLuint,
}

/// The vertex stage did not compile.
#[derive(Debug, Clone, Hash, PartialEq, Eq, PartialOrd, Ord)]
pub struct VertexShaderCompileError {
    /// Status code the driver reported.
    pub error_id: usize,
    /// The driver's compile log.
    pub info_log: String,
}

/// The fragment stage did not compile.
#[derive(Debug, Clone, Hash, PartialEq, Eq, PartialOrd, Ord)]
pub struct FragmentShaderCompileError {
    /// Status code the driver reported.
    pub error_id: usize,
    /// The driver's compile log.
    pub info_log: String,
}

/// A stage that did not compile.
#[derive(Debug, Clone, Hash, PartialEq, Eq, PartialOrd, Ord)]
pub enum GlShaderCompileError {
    Vertex(VertexShaderCompileError),
    Fragment(FragmentShaderCompileError),
}

/// The program did not link.
#[derive(Debug, Clone, Hash, PartialEq, Eq, PartialOrd, Ord)]
pub struct GlShaderLinkError {
    /// Status code the driver reported.
    pub error_id: usize,
    /// The driver's link log.
    pub info_log: String,
}

/// Why a shader program could not be built.
#[derive(Debug, Clone, Hash, PartialEq, Eq, PartialOrd, Ord)]
pub enum GlShaderCreateError {
    Compile(GlShaderCompileError),
    Link(GlShaderLinkError),
}

/// Reading of a status code: `0` reports failure, and is then the error's
/// identifier; any other value reports success.
pub open spec fn status_error(code: usize) -> Option<usize> {
    if code == 0 {
        Some(code)
    } else {
        None
    }
}

/// Status the context's compiler gives a stage of kind `kind` with `source`.
pub open spec fn compile_status_of(s: GlState, kind: u32, source: Seq<char>) -> usize {
    (s.compile_status)(kind, source)
}

/// Status the context's linker gives a vertex and a fragment stage.
pub open spec fn link_status_of(s: GlState, vertex: Seq<char>, fragment: Seq<char>) -> usize {
    (s.link_status)(seq![(VERTEX_SHADER, vertex), (FRAGMENT_SHADER, fragment)])
}

/// `a` and `b` agree on everything that is not about shaders or programs.
pub open spec fn same_outside_shaders(a: GlState, b: GlState) -> bool {
    &&& a.textures == b.textures
    &&& a.framebuffers == b.framebuffers
    &&& a.texture_images == b.texture_images
    &&& a.texture_params == b.texture_params
    &&& a.attachments == b.attachments
    &&& a.draw_buffers == b.draw_buffers
    &&& a.draws == b.draws
    &&& a.framebuffer_status == b.framebuffer_status
    &&& a.compile_log == b.compile_log
    &&& a.link_log == b.link_log
    &&& a.texture_binding == b.texture_binding
    &&& a.framebuffer_binding == b.framebuffer_binding
    &&& a.array_buffer_binding == b.array_buffer_binding
    &&& a.current_program == b.current_program
    &&& a.viewport == b.viewport
    &&& a.compile_status == b.compile_status
    &&& a.link_status == b.link_status
}

/// The error, if any, that the compile status of `shader` reports.
fn get_gl_shader_error<G: Gl>(context: &G, shader_object: GLuint) -> (r: Option<usize>)
    ensures
        r == status_error(
            if context.state().shaders.dom().contains(shader_object)
                && context.state().compiled.contains(shader_object) {
                compile_status_of(
                    context.state(),
                    context.state().shaders[shader_object].0,
                    context.state().shaders[shader_object].1,
                )
            } else {
                0
            },
        ),
{
    let err_code = context.get_shader_compile_status(shader_object);
    if err_code == 0 {
        Some(err_code)
    } else {
        None
    }
}

/// The error, if any, that the link status of `program` reports.
fn get_gl_program_error<G: Gl>(context: &G, program: GLuint) -> (r: Option<usize>)
    ensures
        r == status_error(
            if context.state().programs.dom().contains(program)
                && context.state().linked.contains(program) {
                (context.state().link_status)(context.state().attached_shaders(program))
            } else {
                0
            },
        ),
{
    let err_code = context.get_program_link_status(program);
    if err_code == 0 {
        Some(err_code)
    } else {
        None
    }
}

impl GlShader {
    /// Compiles a vertex and a fragment stage and links them into a program.
    ///
    /// Every path deletes both intermediate shader objects; on failure the
    /// program object is deleted too, so an error leaves no object behind.
    /// While the driver has names for the three objects, the result is the
    /// first failing step's error, with the driver's log, or the program when
    /// none fails; a failed stage ends the work, so no later object is created.
    /// A status of `0` reports failure, so an object the driver could not
    /// allocate fails its stage, and a returned program is always a live one.
    pub fn new<G: Gl>(
        context: &mut G,
        vertex_shader_source: &str,
        fragment_shader_source: &str,
    ) -> (r: Result<GlShader, GlShaderCreateError>)
        ensures
            same_outside_shaders(final(context).state(), old(context).state()),
            final(context).state().shaders.dom() == old(context).state().shaders.dom(),
            match r {
                Ok(p) => {
                    &&& p.shader_program != 0
                    &&& final(context).state().programs.dom().contains(p.shader_program)
                    &&& final(context).state().programs.dom() == with_handle(
                        old(context).state().programs.dom(),
                        p.shader_program,
                    )
                    &&& p.shader_program != 0 ==> !old(
                        context,
                    ).state().programs.dom().contains(p.shader_program)
                },
                Err(_) => final(context).state().programs.dom() == old(
                    context,
                ).state().programs.dom(),
            },
            old(context).state().free_handles >= 3 ==> {
                let vs = compile_status_of(old(context).state(), VERTEX_SHADER, vertex_shader_source@);
                let fs = compile_status_of(old(context).state(), FRAGMENT_SHADER, fragment_shader_source@);
                let ls = link_status_of(old(context).state(), vertex_shader_source@, fragment_shader_source@);
                let s = old(context).state();
                let free = final(context).state().free_handles;
                match r {
                    Ok(p) => {
                        &&& vs != 0 && fs != 0 && ls != 0
                        &&& p.shader_program != 0
                        &&& free == s.free_handles - 3
                    },
                    Err(GlShaderCreateError::Compile(GlShaderCompileError::Vertex(e))) => {
                        &&& vs == 0 && e.error_id == vs
                        &&& e.info_log@ == (s.compile_log)(VERTEX_SHADER, vertex_shader_source@)
                        &&& free == s.free_handles - 1
                    },
                    Err(GlShaderCreateError::Compile(GlShaderCompileError::Fragment(e))) => {
                        &&& vs != 0 && fs == 0 && e.error_id == fs
                        &&& e.info_log@ == (s.compile_log)(FRAGMENT_SHADER, fragment_shader_source@)
                        &&& free == s.free_handles - 2
                    },
                    Err(GlShaderCreateError::Link(e)) => {
                        &&& vs != 0 && fs != 0 && ls == 0 && e.error_id == ls
                        &&& e.info_log@ == (s.link_log)(
                            seq![
                                (VERTEX_SHADER, vertex_shader_source@),
                                (FRAGMENT_SHADER, fragment_shader_source@),
                            ],
                        )
                        &&& free == s.free_handles - 3
                    },
                }
            },
    {
        let ghost s0 = context.state();
        proof { context.lemma_state_wf(); }

        // Compile the vertex stage.
        let vertex_shader_object = context.create_shader(VERTEX_SHADER);
        context.shader_source(vertex_shader_object, vertex_shader_source);
        context.compile_shader(vertex_shader_object);
        if let Some(error_id) = get_gl_shader_error(context, vertex_shader_object) {
            let info_log = context.get_shader_info_log(vertex_shader_object);
            context.delete_shader(vertex_shader_object);
            proof { assert(context.state().shaders.dom() =~= s0.shaders.dom()); }
            return Err(
                GlShaderCreateError::Compile(
                    GlShaderCompileError::Vertex(VertexShaderCompileError { error_id, info_log }),
                ),
            );
        }
        proof { context.lemma_state_wf(); }

        // Compile the fragment stage.
        let fragment_shader_object = context.create_shader(FRAGMENT_SHADER);
        context.shader_source(fragment_shader_object, fragment_shader_source);
        context.compile_shader(fragment_shader_object);
        if let Some(error_id) = get_gl_shader_error(context, fragment_shader_object) {
            let info_log = context.get_shader_info_log(fragment_shader_object);
            context.delete_shader(vertex_shader_object);
            context.delete_shader(fragment_shader_object);
            proof { assert(context.state().shaders.dom() =~= s0.shaders.dom()); }
            return Err(
                GlShaderCreateError::Compile(
                    GlShaderCompileError::Fragment(FragmentShaderCompileError { error_id, info_log }),
                ),
            );
        }
        proof { context.lemma_state_wf(); }

        // Link the program.
        let program = context.create_program();
        context.attach_shader(program, vertex_shader_object);
        context.attach_shader(program, fragment_shader_object);
        context.link_program(program);
        proof {
            if s0.free_handles >= 3 {
                let st = context.state();
                assert(st.attached_shaders(program) =~= seq![
                    (VERTEX_SHADER, vertex_shader_source@),
                    (FRAGMENT_SHADER, fragment_shader_source@),
                ]);
            }
        }
        if let Some(error_id) = get_gl_program_error(context, program) {
            let info_log = context.get_program_info_log(program);
            context.delete_shader(vertex_shader_object);
            context.delete_shader(fragment_shader_object);
            context.delete_program(program);
            proof {
                assert(context.state().shaders.dom() =~= s0.shaders.dom());
                assert(context.state().programs.dom() =~= s0.programs.dom());
            }
            return Err(GlShaderCreateError::Link(GlShaderLinkError { error_id, info_log }));
        }
        proof { context.lemma_state_wf(); }
        context.delete_shader(vertex_shader_object);
        context.delete_shader(fragment_shader_object);
        proof {
            assert(context.state().shaders.dom() =~= s0.shaders.dom());
            assert(context.state().programs.dom() =~= with_handle(s0.programs.dom(), program));
        }
        Ok(GlShader { shader_program: program })
    }

    /// Releases the driver program.
    pub fn delete<G: Gl>(self, context: &mut G)
        ensures
            final(context).state() == (GlState {
                programs: old(context).state().programs.remove(self.shader_program),
                ..old(context).state()
            }),
    {
        context.delete_program(self.shader_program);
    }
}

} // verus!
