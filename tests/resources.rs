use std::collections::hash_map::DefaultHasher;
use std::hash::{Hash, Hasher};

use azul::gl::FRAMEBUFFER_COMPLETE;
use azul::{
    GlShader, GlShaderCompileError, GlShaderCreateError, MockGl, Texture, VertexBuffer,
};

const FRAMEBUFFER_INCOMPLETE_ATTACHMENT: u32 = 0x8CD6;

#[test]
fn texture_create_then_delete_leaves_no_objects() {
    let mut gl = MockGl::succeeding();
    let t = Texture::new(&mut gl, 640, 480);
    assert_eq!(gl.live_objects(), 1);
    assert!(gl.is_texture(t.texture_id));
    assert_eq!(gl.texture_binding(), t.texture_id);
    assert_eq!((t.width, t.height), (640, 480));
    let id = t.texture_id;
    t.delete(&mut gl);
    assert_eq!(gl.live_objects(), 0);
    assert!(!gl.is_texture(id));
    assert_eq!(gl.texture_binding(), 0);
}

#[test]
fn texture_round_trip_for_several_sizes() {
    for (w, h) in [(1usize, 1usize), (0, 0), (4096, 2), (usize::MAX, 3)] {
        let mut gl = MockGl::succeeding();
        let t = Texture::new(&mut gl, w, h);
        assert_ne!(t.texture_id, 0);
        t.delete(&mut gl);
        assert_eq!(gl.live_objects(), 0);
    }
}

#[test]
fn textures_get_distinct_names() {
    let mut gl = MockGl::succeeding();
    let a = Texture::new(&mut gl, 8, 8);
    let b = Texture::new(&mut gl, 8, 8);
    assert_ne!(a.texture_id, b.texture_id);
    assert!(a != b);
    a.delete(&mut gl);
    assert_eq!(gl.live_objects(), 1);
    assert!(gl.is_texture(b.texture_id));
    b.delete(&mut gl);
    assert_eq!(gl.live_objects(), 0);
}

#[test]
fn texture_equality_ignores_dimensions() {
    let a = Texture { texture_id: 7, width: 10, height: 20 };
    let b = Texture { texture_id: 7, width: 300, height: 1 };
    let c = Texture { texture_id: 8, width: 10, height: 20 };
    assert!(a == b);
    assert!(a != c);
}

#[test]
fn framebuffer_renders_into_its_texture() {
    let mut gl = MockGl::succeeding();
    let t = Texture::new(&mut gl, 32, 16);
    let fb = t.get_framebuffer(&mut gl).unwrap();
    assert_eq!(fb.texture().texture_id, t.texture_id);
    assert_eq!(gl.live_objects(), 2);
    assert_eq!(gl.framebuffer_binding(), 0);
    fb.bind(&mut gl);
    assert_eq!(gl.framebuffer_binding(), fb.id());
    assert!(gl.is_framebuffer(gl.framebuffer_binding()));
    assert_eq!(gl.texture_binding(), t.texture_id);
    assert_eq!(gl.current_viewport(), (0, 0, 32, 16));
    fb.unbind(&mut gl);
    assert_eq!(gl.framebuffer_binding(), 0);
    assert_eq!(gl.texture_binding(), 0);
    fb.delete(&mut gl);
    assert_eq!(gl.live_objects(), 1);
    assert!(gl.is_texture(t.texture_id));
    t.delete(&mut gl);
    assert_eq!(gl.live_objects(), 0);
}

#[test]
fn incomplete_framebuffer_is_an_error_and_is_released() {
    let mut gl = MockGl::new(1, 1, 1, FRAMEBUFFER_INCOMPLETE_ATTACHMENT);
    let t = Texture::new(&mut gl, 32, 16);
    let err = t.get_framebuffer(&mut gl).err().unwrap();
    assert_eq!(err.status, FRAMEBUFFER_INCOMPLETE_ATTACHMENT);
    assert_eq!(gl.live_objects(), 1);
    assert_eq!(gl.framebuffer_binding(), 0);
    t.delete(&mut gl);
    assert_eq!(gl.live_objects(), 0);
}

#[test]
fn shader_links_with_one_program_and_no_shaders_left() {
    let mut gl = MockGl::succeeding();
    let shader = GlShader::new(&mut gl, "void main() {}", "void main() {}").unwrap();
    assert_eq!(gl.created_objects(), 3);
    assert_eq!(gl.live_objects(), 1);
    assert!(gl.is_program(shader.shader_program));
    shader.delete(&mut gl);
    assert_eq!(gl.live_objects(), 0);
}

#[test]
fn vertex_compile_failure_frees_shader_and_skips_program() {
    let mut gl = MockGl::new(0, 1, 1, FRAMEBUFFER_COMPLETE);
    let r = GlShader::new(&mut gl, "not glsl", "void main() {}");
    match r {
        Err(GlShaderCreateError::Compile(GlShaderCompileError::Vertex(e))) => {
            assert_eq!(e.error_id, 0);
            assert_eq!(e.info_log, "shader did not compile");
        }
        other => panic!("unexpected result {:?}", other),
    }
    assert_eq!(gl.live_objects(), 0);
    assert_eq!(gl.created_objects(), 1);
}

#[test]
fn fragment_compile_failure_frees_both_shaders() {
    let mut gl = MockGl::new(1, 0, 1, FRAMEBUFFER_COMPLETE);
    let r = GlShader::new(&mut gl, "void main() {}", "not glsl");
    match r {
        Err(GlShaderCreateError::Compile(GlShaderCompileError::Fragment(e))) => {
            assert_eq!(e.error_id, 0);
            assert_eq!(e.info_log, "shader did not compile");
        }
        other => panic!("unexpected result {:?}", other),
    }
    assert_eq!(gl.live_objects(), 0);
    assert_eq!(gl.created_objects(), 2);
}

#[test]
fn link_failure_frees_everything() {
    let mut gl = MockGl::new(1, 1, 0, FRAMEBUFFER_COMPLETE);
    let r = GlShader::new(&mut gl, "void main() {}", "void main() {}");
    match r {
        Err(GlShaderCreateError::Link(e)) => {
            assert_eq!(e.error_id, 0);
            assert_eq!(e.info_log, "program did not link");
        }
        other => panic!("unexpected result {:?}", other),
    }
    assert_eq!(gl.live_objects(), 0);
    assert_eq!(gl.created_objects(), 3);
}

#[test]
fn shader_failure_leaves_other_objects_alone() {
    let mut gl = MockGl::new(1, 0, 1, FRAMEBUFFER_COMPLETE);
    let t = Texture::new(&mut gl, 2, 2);
    assert!(GlShader::new(&mut gl, "a", "b").is_err());
    assert_eq!(gl.live_objects(), 1);
    assert!(gl.is_texture(t.texture_id));
    assert!(!gl.is_shader(2));
    assert!(!gl.is_shader(3));
}

#[test]
fn draw_uses_the_shader_program() {
    let mut gl = MockGl::succeeding();
    let t = Texture::new(&mut gl, 4, 4);
    let shader = GlShader::new(&mut gl, "v", "f").unwrap();
    let fb = t.get_framebuffer(&mut gl).unwrap();
    fb.bind(&mut gl);
    let vertices = VertexBuffer { vertex_buffer_id: 11, vertex_count: 6 };
    fb.draw(&mut gl, &shader, &vertices);
    assert_eq!(gl.program_in_use(), shader.shader_program);
    fb.unbind(&mut gl);
    fb.delete(&mut gl);
    shader.delete(&mut gl);
    t.delete(&mut gl);
    assert_eq!(gl.live_objects(), 0);
}

#[test]
fn equal_textures_hash_alike() {
    let digest = |t: &Texture| {
        let mut h = DefaultHasher::new();
        t.hash(&mut h);
        h.finish()
    };
    let a = Texture { texture_id: 5, width: 1, height: 1 };
    let b = Texture { texture_id: 5, width: 64, height: 32 };
    assert_eq!(digest(&a), digest(&b));
}

#[test]
fn driver_reporting_success_with_other_codes_still_links() {
    let mut gl = MockGl::new(7, 2, 5, FRAMEBUFFER_COMPLETE);
    let shader = GlShader::new(&mut gl, "v", "f").unwrap();
    assert!(gl.is_program(shader.shader_program));
    assert_eq!(gl.live_objects(), 1);
}
