//! A software context that tracks driver objects and answers status
//! queries with configured codes: it renders nothing, and lets the
//! lifecycle of this crate's types be observed object by object.
use vstd::prelude::*;

use crate::gl::{
    with_handle, DrawCall, GLenum, GLint, GLuint, Gl, GlState, ShaderModel, TexImage,
    FRAMEBUFFER_COMPLETE, VERTEX_SHADER,
};

verus! {

/// Kind of a recorded object.
#[derive(Debug, Clone, Copy, PartialEq, Eq, Structural)]
pub enum ObjectKind {
    Texture,
    FrameBuffer,
    Shader,
    Program,
}

/// One name handed out by the context.
pub struct MockObject {
    kind: ObjectKind,
    live: bool,
    stage: GLenum,
    source: String,
    attached: Vec<GLuint>,
    compiled: bool,
    linked: bool,
}

/// A context that records every object it hands out. The object named `h`
/// is the `h`-th one created; names are never reused.
pub struct MockGl {
    objects: Vec<MockObject>,
    texture_binding: GLuint,
    framebuffer_binding: GLuint,
    array_buffer_binding: GLuint,
    current_program: GLuint,
    viewport: (GLint, GLint, usize, usize),
    vertex_status: usize,
    fragment_status: usize,
    link_status: usize,
    framebuffer_status: GLenum,
    shader_log: String,
    program_log: String,
    texture_images: Ghost<Map<GLuint, TexImage>>,
    texture_params: Ghost<Map<(GLuint, GLenum), GLint>>,
    attachments: Ghost<Map<(GLuint, GLenum), GLuint>>,
    draw_buffers: Ghost<Map<GLuint, Seq<GLenum>>>,
    draws: Ghost<Seq<DrawCall>>,
}

/// A log that reads `log` whatever was compiled.
pub open spec fn fixed_compile_log(log: Seq<char>) -> spec_fn(GLenum, Seq<char>) -> Seq<char> {
    |kind: GLenum, source: Seq<char>| log
}

/// A log that reads `log` whatever was linked.
pub open spec fn fixed_link_log(log: Seq<char>) -> spec_fn(Seq<ShaderModel>) -> Seq<char> {
    |shaders: Seq<ShaderModel>| log
}

/// A compiler that reports `vertex` for every vertex stage and `fragment`
/// for every other stage (`0`: failure).
pub open spec fn stage_compiler(vertex: usize, fragment: usize) -> spec_fn(GLenum, Seq<char>) -> usize {
    |kind: GLenum, source: Seq<char>| if kind == VERTEX_SHADER { vertex } else { fragment }
}

/// A linker that reports `status` whatever is attached (`0`: failure).
pub open spec fn fixed_linker(status: usize) -> spec_fn(Seq<ShaderModel>) -> usize {
    |shaders: Seq<ShaderModel>| status
}

impl MockGl {
    /// The object named `h` exists, is not deleted and has kind `kind`.
    pub closed spec fn is_live(&self, h: GLuint, kind: ObjectKind) -> bool {
        &&& 1 <= h <= self.objects@.len()
        &&& self.objects@[h - 1].live
        &&& self.objects@[h - 1].kind == kind
    }

    pub closed spec fn names(&self, kind: ObjectKind) -> Set<GLuint> {
        Set::new(|h: GLuint| self.is_live(h, kind))
    }

    /// Names of objects of kind `kind` whose `compiled` (for shaders) or
    /// `linked` (for programs) flag is set.
    pub closed spec fn flagged(&self, kind: ObjectKind) -> Set<GLuint> {
        Set::new(
            |h: GLuint|
                1 <= h <= self.objects@.len() && self.objects@[h - 1].kind == kind && if kind
                    == ObjectKind::Shader {
                    self.objects@[h - 1].compiled
                } else {
                    self.objects@[h - 1].linked
                },
        )
    }

    /// `self` and `other` differ at most in their recorded objects.
    pub closed spec fn same_except_objects(&self, other: MockGl) -> bool {
        &&& self.texture_binding == other.texture_binding
        &&& self.framebuffer_binding == other.framebuffer_binding
        &&& self.array_buffer_binding == other.array_buffer_binding
        &&& self.current_program == other.current_program
        &&& self.viewport == other.viewport
        &&& self.vertex_status == other.vertex_status
        &&& self.fragment_status == other.fragment_status
        &&& self.link_status == other.link_status
        &&& self.framebuffer_status == other.framebuffer_status
        &&& self.shader_log == other.shader_log
        &&& self.program_log == other.program_log
        &&& self.texture_images == other.texture_images
        &&& self.texture_params == other.texture_params
        &&& self.attachments == other.attachments
        &&& self.draw_buffers == other.draw_buffers
        &&& self.draws == other.draws
    }

    /// Number of objects created and not deleted.
    pub closed spec fn live_total(&self) -> nat {
        live_count(self.objects@)
    }

    pub closed spec fn created(&self) -> nat {
        self.objects@.len()
    }

    /// A context whose compiler reports `vertex_status` for vertex stages and
    /// `fragment_status` for fragment stages, whose linker reports
    /// `link_status` (for all three, `0` reports failure), and whose
    /// framebuffers report `framebuffer_status`.
    pub fn new(
        vertex_status: usize,
        fragment_status: usize,
        link_status: usize,
        framebuffer_status: GLenum,
    ) -> (r: MockGl)
        ensures
            r.state().textures.is_empty(),
            r.state().framebuffers.is_empty(),
            r.state().shaders.is_empty(),
            r.state().programs.is_empty(),
            r.state().free_handles == u32::MAX as nat,
            r.state().compile_status == stage_compiler(vertex_status, fragment_status),
            r.state().link_status == fixed_linker(link_status),
            r.state().framebuffer_status == framebuffer_status,
            r.state().draws.len() == 0,
    {
        let r = MockGl {
            objects: Vec::new(),
            texture_binding: 0,
            framebuffer_binding: 0,
            array_buffer_binding: 0,
            current_program: 0,
            viewport: (0, 0, 0, 0),
            vertex_status,
            fragment_status,
            link_status,
            framebuffer_status,
            shader_log: "shader did not compile".to_owned(),
            program_log: "program did not link".to_owned(),
            texture_images: Ghost(Map::empty()),
            texture_params: Ghost(Map::empty()),
            attachments: Ghost(Map::empty()),
            draw_buffers: Ghost(Map::empty()),
            draws: Ghost(Seq::empty()),
        };
        assert(r.state().textures =~= Set::empty());
        assert(r.state().framebuffers =~= Set::empty());
        assert(r.state().shaders =~= Map::empty());
        assert(r.state().programs =~= Map::empty());
        r
    }

    /// A context on which every compile, link and framebuffer succeeds, with
    /// status `1`.
    pub fn succeeding() -> (r: MockGl)
        ensures
            r.state().textures.is_empty(),
            r.state().framebuffers.is_empty(),
            r.state().shaders.is_empty(),
            r.state().programs.is_empty(),
            r.state().free_handles == u32::MAX as nat,
            r.state().compile_status == stage_compiler(1, 1),
            r.state().link_status == fixed_linker(1),
            r.state().framebuffer_status == FRAMEBUFFER_COMPLETE,
            r.state().draws.len() == 0,
    {
        MockGl::new(1, 1, 1, FRAMEBUFFER_COMPLETE)
    }

    /// Number of objects created so far, deleted or not.
    pub fn created_objects(&self) -> (r: usize)
        ensures
            r == self.created(),
    {
        self.objects.len()
    }

    /// Whether `h` names a live texture.
    pub fn is_texture(&self, h: GLuint) -> (r: bool)
        ensures
            r == self.state().textures.contains(h),
    {
        self.check_live(h, ObjectKind::Texture)
    }

    /// Whether `h` names a live framebuffer.
    pub fn is_framebuffer(&self, h: GLuint) -> (r: bool)
        ensures
            r == self.state().framebuffers.contains(h),
    {
        self.check_live(h, ObjectKind::FrameBuffer)
    }

    /// Whether `h` names a live shader object.
    pub fn is_shader(&self, h: GLuint) -> (r: bool)
        ensures
            r == self.state().shaders.dom().contains(h),
    {
        self.check_live(h, ObjectKind::Shader)
    }

    /// Whether `h` names a live program.
    pub fn is_program(&self, h: GLuint) -> (r: bool)
        ensures
            r == self.state().programs.dom().contains(h),
    {
        self.check_live(h, ObjectKind::Program)
    }

    fn check_live(&self, h: GLuint, kind: ObjectKind) -> (r: bool)
        ensures
            r == self.is_live(h, kind),
    {
        h >= 1 && (h as usize) <= self.objects.len() && self.objects[(h - 1) as usize].live
            && self.objects[(h - 1) as usize].kind == kind
    }

    /// Texture bound to `TEXTURE_2D`.
    pub fn texture_binding(&self) -> (r: GLuint)
        ensures
            r == self.state().texture_binding,
    {
        self.texture_binding
    }

    /// Framebuffer bound as the render target.
    pub fn framebuffer_binding(&self) -> (r: GLuint)
        ensures
            r == self.state().framebuffer_binding,
    {
        self.framebuffer_binding
    }

    /// Current viewport as `(x, y, width, height)`.
    pub fn current_viewport(&self) -> (r: (GLint, GLint, usize, usize))
        ensures
            r == self.state().viewport,
    {
        self.viewport
    }

    /// Program in use.
    pub fn program_in_use(&self) -> (r: GLuint)
        ensures
            r == self.state().current_program,
    {
        self.current_program
    }

    /// Hands out the next name for a new object, or `0` when names run out.
    fn allocate(&mut self, kind: ObjectKind, stage: GLenum) -> (r: GLuint)
        ensures
            old(self).created() < u32::MAX ==> r == old(self).created() + 1,
            old(self).created() >= u32::MAX ==> r == 0 && *final(self) == *old(self),
            r != 0 ==> {
                &&& final(self).objects@.len() == old(self).objects@.len() + 1
                &&& final(self).objects@.drop_last() == old(self).objects@
                &&& final(self).objects@.last().kind == kind
                &&& final(self).objects@.last().live
                &&& final(self).objects@.last().stage == stage
                &&& final(self).objects@.last().source@ == Seq::<char>::empty()
                &&& final(self).objects@.last().attached@ == Seq::<GLuint>::empty()
                &&& !final(self).objects@.last().compiled
                &&& !final(self).objects@.last().linked
            },
            final(self).same_except_objects(*old(self)),
    {
        if self.objects.len() < u32::MAX as usize {
            let h = (self.objects.len() + 1) as u32;
            self.objects.push(
                MockObject {
                    kind,
                    live: true,
                    stage,
                    source: String::new(),
                    attached: Vec::new(),
                    compiled: false,
                    linked: false,
                },
            );
            assert(self.objects@.drop_last() =~= old(self).objects@);
            h
        } else {
            0
        }
    }
    /// Marks the object named `h` deleted when it is a live object of kind `kind`.
    fn kill(&mut self, h: GLuint, kind: ObjectKind)
        ensures
            old(self).is_live(h, kind) ==> final(self).objects@ == old(self).objects@.update(
                h - 1,
                MockObject { live: false, ..old(self).objects@[h - 1] },
            ),
            !old(self).is_live(h, kind) ==> final(self).objects@ == old(self).objects@,
            final(self).same_except_objects(*old(self)),
    {
        if h >= 1 && (h as usize) <= self.objects.len() {
            let i = (h - 1) as usize;
            if self.objects[i].live && self.objects[i].kind == kind {
                let mut o = self.objects.remove(i);
                o.live = false;
                self.objects.insert(i, o);
                assert(self.objects@ =~= old(self).objects@.update(
                    h - 1,
                    MockObject { live: false, ..old(self).objects@[h - 1] },
                ));
            }
        }
    }

    /// Number of objects created and not deleted.
    pub fn live_objects(&self) -> (r: usize)
        ensures
            r == self.live_total(),
    {
        let mut n: usize = 0;
        let mut i: usize = 0;
        while i < self.objects.len()
            invariant
                i <= self.objects@.len(),
                n == live_count(self.objects@.take(i as int)),
                n <= i,
            decreases self.objects@.len() - i,
        {
            assert(self.objects@.take(i as int + 1).drop_last() =~= self.objects@.take(i as int));
            if self.objects[i].live {
                n = n + 1;
            }
            i = i + 1;
        }
        assert(self.objects@.take(i as int) =~= self.objects@);
        n
    }
}

/// Number of live entries in `objects`.
pub closed spec fn live_count(objects: Seq<MockObject>) -> nat
    decreases objects.len(),
{
    if objects.len() == 0 {
        0
    } else {
        live_count(objects.drop_last()) + if objects.last().live { 1nat } else { 0nat }
    }
}

/// Two contexts with the same recorded objects have the same object tables.
proof fn lemma_same_tables(a: MockGl, b: MockGl)
    requires
        a.objects@ == b.objects@,
    ensures
        a.state().textures == b.state().textures,
        a.state().framebuffers == b.state().framebuffers,
        a.state().shaders == b.state().shaders,
        a.state().programs == b.state().programs,
        a.state().compiled == b.state().compiled,
        a.state().linked == b.state().linked,
{
    assert(a.state().textures =~= b.state().textures);
    assert(a.state().framebuffers =~= b.state().framebuffers);
    assert(a.state().shaders =~= b.state().shaders);
    assert(a.state().programs =~= b.state().programs);
    assert(a.state().compiled =~= b.state().compiled);
    assert(a.state().linked =~= b.state().linked);
}

impl MockGl {
    /// Replaces the record of the object at index `i` by `o`.
    fn replace(&mut self, i: usize, o: MockObject)
        requires
            i < old(self).objects@.len(),
        ensures
            final(self).objects@ == old(self).objects@.update(i as int, o),
            final(self).same_except_objects(*old(self)),
    {
        let _ = self.objects.remove(i);
        self.objects.insert(i, o);
        assert(self.objects@ =~= old(self).objects@.update(i as int, o));
    }

    /// Index of `h` when it names a live object of kind `kind`.
    fn live_index(&self, h: GLuint, kind: ObjectKind) -> (r: Option<usize>)
        ensures
            r is Some <==> self.is_live(h, kind),
            r is Some ==> r->0 == h - 1,
    {
        if h >= 1 && (h as usize) <= self.objects.len() {
            let i = (h - 1) as usize;
            if self.objects[i].live && self.objects[i].kind == kind {
                return Some(i);
            }
        }
        None
    }
}

impl Gl for MockGl {
    closed spec fn state(&self) -> GlState {
        GlState {
            textures: self.names(ObjectKind::Texture),
            framebuffers: self.names(ObjectKind::FrameBuffer),
            shaders: Map::new(
                |h: GLuint| self.is_live(h, ObjectKind::Shader),
                |h: GLuint| (self.objects@[h - 1].stage, self.objects@[h - 1].source@),
            ),
            programs: Map::new(
                |h: GLuint| self.is_live(h, ObjectKind::Program),
                |h: GLuint| self.objects@[h - 1].attached@,
            ),
            texture_images: self.texture_images@,
            texture_params: self.texture_params@,
            attachments: self.attachments@,
            draw_buffers: self.draw_buffers@,
            compiled: self.flagged(ObjectKind::Shader),
            linked: self.flagged(ObjectKind::Program),
            draws: self.draws@,
            texture_binding: self.texture_binding,
            framebuffer_binding: self.framebuffer_binding,
            array_buffer_binding: self.array_buffer_binding,
            current_program: self.current_program,
            viewport: self.viewport,
            framebuffer_status: self.framebuffer_status,
            free_handles: if self.objects@.len() < u32::MAX {
                (u32::MAX - self.objects@.len()) as nat
            } else {
                0
            },
            compile_status: stage_compiler(self.vertex_status, self.fragment_status),
            link_status: fixed_linker(self.link_status),
            compile_log: fixed_compile_log(self.shader_log@),
            link_log: fixed_link_log(self.program_log@),
        }
    }

    proof fn lemma_state_wf(&self) {
        assert(!self.state().shaders.dom().contains(0));
        assert(!self.state().programs.dom().contains(0));
    }

    fn gen_texture(&mut self) -> (r: GLuint) {
        let r = self.allocate(ObjectKind::Texture, 0);
        proof {
            assert(self.state().framebuffers =~= old(self).state().framebuffers);
            assert(self.state().shaders =~= old(self).state().shaders);
            assert(self.state().programs =~= old(self).state().programs);
            assert(self.state().compiled =~= old(self).state().compiled);
            assert(self.state().linked =~= old(self).state().linked);
        }
        assert(self.state().textures =~= with_handle(old(self).state().textures, r));
        r
    }

    fn bind_texture(&mut self, target: GLenum, texture: GLuint) {
        self.texture_binding = texture;
        proof { lemma_same_tables(*self, *old(self)); }
    }

    fn tex_image_2d(
        &mut self,
        target: GLenum,
        level: GLint,
        internal_format: GLint,
        width: usize,
        height: usize,
        border: GLint,
        format: GLenum,
        ty: GLenum,
    ) {
        self.texture_images = Ghost(
            self.texture_images@.insert(
                self.texture_binding,
                (level, internal_format, width, height, border, format, ty),
            ),
        );
        proof { lemma_same_tables(*self, *old(self)); }
    }

    fn tex_parameter_i(&mut self, target: GLenum, pname: GLenum, param: GLint) {
        self.texture_params = Ghost(self.texture_params@.insert((self.texture_binding, pname), param));
        proof { lemma_same_tables(*self, *old(self)); }
    }

    fn delete_texture(&mut self, texture: GLuint) {
        self.kill(texture, ObjectKind::Texture);
        if self.texture_binding == texture {
            self.texture_binding = 0;
        }
        proof {
            assert(self.state().framebuffers =~= old(self).state().framebuffers);
            assert(self.state().shaders =~= old(self).state().shaders);
            assert(self.state().programs =~= old(self).state().programs);
            assert(self.state().compiled =~= old(self).state().compiled);
            assert(self.state().linked =~= old(self).state().linked);
        }
        assert(self.state().textures =~= old(self).state().textures.remove(texture));
    }

    fn gen_framebuffer(&mut self) -> (r: GLuint) {
        let r = self.allocate(ObjectKind::FrameBuffer, 0);
        proof {
            assert(self.state().textures =~= old(self).state().textures);
            assert(self.state().shaders =~= old(self).state().shaders);
            assert(self.state().programs =~= old(self).state().programs);
            assert(self.state().compiled =~= old(self).state().compiled);
            assert(self.state().linked =~= old(self).state().linked);
        }
        assert(self.state().framebuffers =~= with_handle(old(self).state().framebuffers, r));
        r
    }

    fn bind_framebuffer(&mut self, target: GLenum, framebuffer: GLuint) {
        self.framebuffer_binding = framebuffer;
        proof { lemma_same_tables(*self, *old(self)); }
    }

    fn framebuffer_texture_2d(
        &mut self,
        target: GLenum,
        attachment: GLenum,
        textarget: GLenum,
        texture: GLuint,
        level: GLint,
    ) {
        self.attachments = Ghost(
            self.attachments@.insert((self.framebuffer_binding, attachment), texture),
        );
        proof { lemma_same_tables(*self, *old(self)); }
    }

    fn draw_buffers(&mut self, bufs: &[GLenum]) {
        self.draw_buffers = Ghost(self.draw_buffers@.insert(self.framebuffer_binding, bufs@));
        proof { lemma_same_tables(*self, *old(self)); }
    }

    fn check_frame_buffer_status(&self, target: GLenum) -> (r: GLenum) {
        self.framebuffer_status
    }

    fn viewport(&mut self, x: GLint, y: GLint, width: usize, height: usize) {
        self.viewport = (x, y, width, height);
        proof { lemma_same_tables(*self, *old(self)); }
    }

    fn delete_framebuffer(&mut self, framebuffer: GLuint) {
        self.kill(framebuffer, ObjectKind::FrameBuffer);
        if self.framebuffer_binding == framebuffer {
            self.framebuffer_binding = 0;
        }
        proof {
            assert(self.state().textures =~= old(self).state().textures);
            assert(self.state().shaders =~= old(self).state().shaders);
            assert(self.state().programs =~= old(self).state().programs);
            assert(self.state().compiled =~= old(self).state().compiled);
            assert(self.state().linked =~= old(self).state().linked);
        }
        assert(self.state().framebuffers =~= old(self).state().framebuffers.remove(framebuffer));
    }

    fn create_shader(&mut self, kind: GLenum) -> (r: GLuint) {
        let r = self.allocate(ObjectKind::Shader, kind);
        proof {
            assert(self.state().textures =~= old(self).state().textures);
            assert(self.state().framebuffers =~= old(self).state().framebuffers);
            assert(self.state().programs =~= old(self).state().programs);
            assert(self.state().compiled =~= old(self).state().compiled);
            assert(self.state().linked =~= old(self).state().linked);
        }
        proof {
            if r == 0 {
                assert(self.state().shaders =~= old(self).state().shaders);
            } else {
                assert(self.state().shaders =~= old(self).state().shaders.insert(
                    r,
                    (kind, Seq::empty()),
                ));
            }
        }
        r
    }

    fn shader_source(&mut self, shader: GLuint, source: &str) {
        if let Some(i) = self.live_index(shader, ObjectKind::Shader) {
            let o = self.objects.remove(i);
            let o = MockObject { source: source.to_owned(), ..o };
            self.objects.insert(i, o);
            assert(self.objects@ =~= old(self).objects@.update(i as int, o));
        }
        proof {
            assert(self.state().textures =~= old(self).state().textures);
            assert(self.state().framebuffers =~= old(self).state().framebuffers);
            assert(self.state().programs =~= old(self).state().programs);
            assert(self.state().compiled =~= old(self).state().compiled);
            assert(self.state().linked =~= old(self).state().linked);
            if old(self).state().shaders.dom().contains(shader) {
                assert(self.state().shaders =~= old(self).state().shaders.insert(
                    shader,
                    (old(self).state().shaders[shader].0, source@),
                ));
            } else {
                assert(self.state().shaders =~= old(self).state().shaders);
            }
        }
    }

    fn compile_shader(&mut self, shader: GLuint) {
        if let Some(i) = self.live_index(shader, ObjectKind::Shader) {
            let o = self.objects.remove(i);
            let o = MockObject { compiled: true, ..o };
            self.objects.insert(i, o);
            assert(self.objects@ =~= old(self).objects@.update(i as int, o));
        }
        proof {
            assert(self.state().textures =~= old(self).state().textures);
            assert(self.state().framebuffers =~= old(self).state().framebuffers);
            assert(self.state().shaders =~= old(self).state().shaders);
            assert(self.state().programs =~= old(self).state().programs);
            assert(self.state().linked =~= old(self).state().linked);
            if old(self).state().shaders.dom().contains(shader) {
                assert(self.state().compiled =~= old(self).state().compiled.insert(shader));
            } else {
                assert(self.state().compiled =~= old(self).state().compiled);
            }
        }
    }

    fn get_shader_compile_status(&self, shader: GLuint) -> (r: usize) {
        if let Some(i) = self.live_index(shader, ObjectKind::Shader) {
            if self.objects[i].compiled {
                if self.objects[i].stage == VERTEX_SHADER {
                    return self.vertex_status;
                } else {
                    return self.fragment_status;
                }
            }
        }
        0
    }

    fn get_shader_info_log(&self, shader: GLuint) -> (r: String) {
        if let Some(i) = self.live_index(shader, ObjectKind::Shader) {
            self.shader_log.clone()
        } else {
            String::new()
        }
    }

    fn delete_shader(&mut self, shader: GLuint) {
        self.kill(shader, ObjectKind::Shader);
        proof {
            assert(self.state().textures =~= old(self).state().textures);
            assert(self.state().framebuffers =~= old(self).state().framebuffers);
            assert(self.state().programs =~= old(self).state().programs);
            assert(self.state().compiled =~= old(self).state().compiled);
            assert(self.state().linked =~= old(self).state().linked);
        }
        assert(self.state().shaders =~= old(self).state().shaders.remove(shader));
    }

    fn create_program(&mut self) -> (r: GLuint) {
        let r = self.allocate(ObjectKind::Program, 0);
        proof {
            assert(self.state().textures =~= old(self).state().textures);
            assert(self.state().framebuffers =~= old(self).state().framebuffers);
            assert(self.state().shaders =~= old(self).state().shaders);
            assert(self.state().compiled =~= old(self).state().compiled);
            assert(self.state().linked =~= old(self).state().linked);
        }
        proof {
            if r == 0 {
                assert(self.state().programs =~= old(self).state().programs);
            } else {
                assert(self.state().programs =~= old(self).state().programs.insert(r, Seq::empty()));
            }
        }
        r
    }

    fn attach_shader(&mut self, program: GLuint, shader: GLuint) {
        if let Some(i) = self.live_index(program, ObjectKind::Program) {
            if let Some(_) = self.live_index(shader, ObjectKind::Shader) {
                let mut o = self.objects.remove(i);
                o.attached.push(shader);
                self.objects.insert(i, o);
                assert(self.objects@ =~= old(self).objects@.update(i as int, o));
            }
        }
        proof {
            assert(self.state().textures =~= old(self).state().textures);
            assert(self.state().framebuffers =~= old(self).state().framebuffers);
            assert(self.state().shaders =~= old(self).state().shaders);
            assert(self.state().compiled =~= old(self).state().compiled);
            assert(self.state().linked =~= old(self).state().linked);
            if old(self).state().programs.dom().contains(program) && old(
                self,
            ).state().shaders.dom().contains(shader) {
                assert(self.state().programs =~= old(self).state().programs.insert(
                    program,
                    old(self).state().programs[program].push(shader),
                ));
            } else {
                assert(self.state().programs =~= old(self).state().programs);
            }
        }
    }

    fn link_program(&mut self, program: GLuint) {
        if let Some(i) = self.live_index(program, ObjectKind::Program) {
            let o = self.objects.remove(i);
            let o = MockObject { linked: true, ..o };
            self.objects.insert(i, o);
            assert(self.objects@ =~= old(self).objects@.update(i as int, o));
        }
        proof {
            assert(self.state().textures =~= old(self).state().textures);
            assert(self.state().framebuffers =~= old(self).state().framebuffers);
            assert(self.state().shaders =~= old(self).state().shaders);
            assert(self.state().programs =~= old(self).state().programs);
            assert(self.state().compiled =~= old(self).state().compiled);
            if old(self).state().programs.dom().contains(program) {
                assert(self.state().linked =~= old(self).state().linked.insert(program));
            } else {
                assert(self.state().linked =~= old(self).state().linked);
            }
        }
    }

    fn get_program_link_status(&self, program: GLuint) -> (r: usize) {
        if let Some(i) = self.live_index(program, ObjectKind::Program) {
            if self.objects[i].linked {
                return self.link_status;
            }
        }
        0
    }

    fn get_program_info_log(&self, program: GLuint) -> (r: String) {
        if let Some(i) = self.live_index(program, ObjectKind::Program) {
            self.program_log.clone()
        } else {
            String::new()
        }
    }

    fn delete_program(&mut self, program: GLuint) {
        self.kill(program, ObjectKind::Program);
        proof {
            assert(self.state().textures =~= old(self).state().textures);
            assert(self.state().framebuffers =~= old(self).state().framebuffers);
            assert(self.state().shaders =~= old(self).state().shaders);
            assert(self.state().compiled =~= old(self).state().compiled);
            assert(self.state().linked =~= old(self).state().linked);
        }
        assert(self.state().programs =~= old(self).state().programs.remove(program));
    }

    fn use_program(&mut self, program: GLuint) {
        self.current_program = program;
        proof { lemma_same_tables(*self, *old(self)); }
    }

    fn bind_array_buffer(&mut self, buffer: GLuint) {
        self.array_buffer_binding = buffer;
        proof { lemma_same_tables(*self, *old(self)); }
    }

    fn draw_arrays(&mut self, mode: GLenum, first: GLint, count: usize) {
        self.draws = Ghost(
            self.draws@.push(
                (
                    mode,
                    self.current_program,
                    self.array_buffer_binding,
                    self.framebuffer_binding,
                    first,
                    count,
                ),
            ),
        );
        proof { lemma_same_tables(*self, *old(self)); }
    }
}

} // verus!
