//! The state cache's skip-vs-apply decisions, observed through the call log.

use glstate::{
    Blending, Buffer, BufferTarget, Context, CullFace, Depth, DeviceInfo, DrawMode, NativeCall,
    Program, Texture, VertexArray, GL_ARRAY_BUFFER, GL_BACK, GL_BLEND, GL_COLOR_BUFFER_BIT,
    GL_CULL_FACE, GL_DEPTH_BUFFER_BIT, GL_DEPTH_TEST, GL_FUNC_ADD, GL_LESS, GL_ONE,
    GL_SRC_ALPHA, GL_STENCIL_BUFFER_BIT, GL_TEXTURE0, GL_TEXTURE_2D, GL_TRIANGLES,
};

fn device_info() -> DeviceInfo {
    DeviceInfo {
        version: String::from("4.6 (Core Profile) Mesa 23.1"),
        queried_major: 4,
        queried_minor: 6,
        vs_high_float_precision: 23,
        vs_mediump_float_precision: 10,
        fs_high_float_precision: 23,
        fs_mediump_float_precision: 10,
        extension_list: vec![
            String::from("GL_ARB_debug_output"),
            String::from("GL_EXT_texture_filter_anisotropic"),
        ],
        extension_blob: String::new(),
        max_textures: 16,
        max_vertex_textures: 16,
        max_texture_size: 4096,
        max_cube_texture_size: 4096,
        max_render_buffer_size: 4096,
        vs_max_uniforms: 256,
        fs_max_uniforms: 224,
        max_varyings: 15,
        max_attributes: 8,
    }
}

fn ready_context() -> Context {
    let mut context = Context::new();
    context.init(&device_info());
    context.take_calls();
    context
}

#[test]
fn fresh_context_defaults() {
    let context = Context::new();
    assert_eq!(context.viewport_width(), 1);
    assert_eq!(context.viewport_height(), 1);
    assert_eq!(context.current_buffer(), 0);
    assert_eq!(context.current_program(), 0);
    assert_eq!(context.current_texture_index(), -1);
    assert_eq!(context.blending(), Blending::Default);
    assert_eq!(context.cull_face(), CullFace::Back);
    assert_eq!(context.depth_func(), Depth::LessThan);
    assert!(context.blending_disabled());
    assert!(context.calls().is_empty());
}

#[test]
fn viewport_is_cached() {
    let mut context = Context::new();
    assert!(context.set_viewport(0, 0, 800, 600));
    assert!(!context.set_viewport(0, 0, 800, 600));
    assert_eq!(
        context.take_calls(),
        vec![NativeCall::Viewport { x: 0, y: 0, width: 800, height: 600 }]
    );
    // On a fresh context the tracked default is already 0,0,1x1, so
    // requesting it is a no-op.
    let mut fresh = Context::new();
    assert!(!fresh.set_viewport(0, 0, 1, 1));
    assert!(fresh.calls().is_empty());
}

#[test]
fn scalar_state_is_cached() {
    let mut context = Context::new();
    assert!(!context.set_depth_write(true));
    assert!(context.set_depth_write(false));
    assert!(!context.set_depth_write(false));
    assert!(context.set_clear_stencil(3));
    assert!(!context.set_clear_stencil(3));
    let one = 1.0f32.to_bits();
    assert!(!context.set_line_width(one));
    assert!(context.set_line_width(2.0f32.to_bits()));
    assert_eq!(
        context.take_calls(),
        vec![
            NativeCall::DepthMask { flag: false },
            NativeCall::ClearStencil { stencil: 3 },
            NativeCall::LineWidth { width_bits: 2.0f32.to_bits() },
        ]
    );
}

#[test]
fn clear_color_compares_bit_patterns() {
    let mut context = Context::new();
    let red = [1.0f32.to_bits(), 0, 0, 1.0f32.to_bits()];
    assert!(context.set_clear_color(&red));
    assert!(!context.set_clear_color(&red));
    assert_eq!(
        context.take_calls(),
        vec![NativeCall::ClearColor {
            red_bits: 1.0f32.to_bits(),
            green_bits: 0,
            blue_bits: 0,
            alpha_bits: 1.0f32.to_bits(),
        }]
    );
}

#[test]
fn blending_enables_lazily() {
    let mut context = Context::new();
    assert!(context.set_blending(Blending::Additive));
    assert_eq!(
        context.take_calls(),
        vec![
            NativeCall::Enable { capability: GL_BLEND },
            NativeCall::BlendEquation { mode: GL_FUNC_ADD },
            NativeCall::BlendFunc { sfactor: GL_SRC_ALPHA, dfactor: GL_ONE },
        ]
    );
    // Already enabled: switching modes re-issues only the mode calls.
    assert!(context.set_blending(Blending::Multiply));
    let calls = context.take_calls();
    assert_eq!(calls.len(), 2);
    assert!(!context.set_blending(Blending::Multiply));
    assert!(context.set_blending(Blending::Off));
    assert_eq!(context.take_calls(), vec![NativeCall::Disable { capability: GL_BLEND }]);
    assert!(context.blending_disabled());
}

#[test]
fn default_render_state_is_a_cache_hit_on_a_fresh_context() {
    // The fresh mirror already holds the defaults, so requesting them
    // issues nothing; only init/reset applies them to the backend.
    let mut context = Context::new();
    assert!(!context.set_blending(Blending::Default));
    assert!(!context.set_cull_face(CullFace::Back));
    assert!(!context.set_depth_func(Depth::LessThan));
    assert!(context.calls().is_empty());
}

#[test]
fn clear_combines_requested_planes() {
    let mut context = Context::new();
    context.clear(true, true, true);
    context.clear(false, true, false);
    assert_eq!(
        context.take_calls(),
        vec![
            NativeCall::Clear {
                mask: GL_COLOR_BUFFER_BIT | GL_DEPTH_BUFFER_BIT | GL_STENCIL_BUFFER_BIT
            },
            NativeCall::Clear { mask: GL_DEPTH_BUFFER_BIT },
        ]
    );
}

#[test]
fn redundant_buffer_bind_issues_one_native_call() {
    let mut context = ready_context();
    let buffer = Buffer::new(7);
    assert!(context.set_buffer(&buffer, false));
    assert!(!context.set_buffer(&buffer, false));
    assert_eq!(
        context.take_calls(),
        vec![NativeCall::BindBuffer { target: GL_ARRAY_BUFFER, id: 7 }]
    );
}

#[test]
fn force_always_issues_the_native_call() {
    let mut context = ready_context();
    let buffer = Buffer::new(7);
    assert!(context.set_buffer(&buffer, false));
    assert!(context.set_buffer(&buffer, true));
    let vertex_array = VertexArray::new(4);
    assert!(context.set_vertex_array(&vertex_array, false));
    assert!(context.set_vertex_array(&vertex_array, true));
    let calls = context.take_calls();
    assert_eq!(calls.len(), 4);
}

#[test]
fn array_and_element_buffer_slots_are_independent() {
    let mut context = ready_context();
    let vertices = Buffer::new(7);
    let mut indices = Buffer::new(8);
    indices.kind = BufferTarget::ElementArray;
    assert!(context.set_buffer(&vertices, false));
    assert!(context.set_buffer(&indices, false));
    // Neither bind evicted the other's slot.
    assert!(!context.set_buffer(&vertices, false));
    assert!(!context.set_buffer(&indices, false));
}

#[test]
fn buffer_switch_disables_enabled_attributes() {
    let mut context = ready_context();
    let first = Buffer::new(1);
    let second = Buffer::new(2);
    assert!(context.set_buffer(&first, false));
    assert!(context.enable_attribute(0, false));
    assert!(context.enable_attribute(1, false));
    context.take_calls();

    assert!(context.set_buffer(&second, false));
    assert_eq!(
        context.take_calls(),
        vec![
            NativeCall::DisableVertexAttribArray { index: 0 },
            NativeCall::DisableVertexAttribArray { index: 1 },
            NativeCall::BindBuffer { target: GL_ARRAY_BUFFER, id: 2 },
        ]
    );
    assert!(context.enabled_attributes().iter().all(|enabled| !enabled));
}

#[test]
fn attribute_enable_tracking() {
    let mut context = ready_context();
    assert!(context.enable_attribute(2, false));
    assert!(!context.enable_attribute(2, false));
    assert!(context.enable_attribute(2, true));
    assert!(context.disable_attribute(2));
    assert!(!context.disable_attribute(2));
    assert_eq!(
        context.take_calls(),
        vec![
            NativeCall::EnableVertexAttribArray { index: 2 },
            NativeCall::EnableVertexAttribArray { index: 2 },
            NativeCall::DisableVertexAttribArray { index: 2 },
        ]
    );
}

#[test]
fn attrib_pointer_follows_enable() {
    let mut context = ready_context();
    assert!(context.set_attrib_pointer(0, 3, glstate::GL_FLOAT, 24, 0, false));
    // Slot already enabled: neither call is re-issued.
    assert!(!context.set_attrib_pointer(0, 3, glstate::GL_FLOAT, 24, 0, false));
    assert_eq!(
        context.take_calls(),
        vec![
            NativeCall::EnableVertexAttribArray { index: 0 },
            NativeCall::VertexAttribPointer {
                location: 0,
                item_size: 3,
                kind: glstate::GL_FLOAT,
                stride: 24,
                offset: 0,
            },
        ]
    );
}

#[test]
fn framebuffer_switch_soft_resets_viewport_tracking() {
    let mut context = ready_context();
    assert!(context.set_viewport(0, 0, 640, 480));
    let framebuffer = glstate::Framebuffer::new(3);
    assert!(context.set_framebuffer(&framebuffer, false));
    assert!(!context.set_framebuffer(&framebuffer, false));
    // The switch reset the viewport tracking to its default.
    assert_eq!(context.viewport_width(), 1);
    assert_eq!(context.viewport_height(), 1);
    assert!(context.set_viewport(0, 0, 640, 480));
    assert!(context.remove_framebuffer(false));
    assert!(!context.remove_framebuffer(false));
}

#[test]
fn renderbuffer_and_vertex_array_binds_are_cached() {
    let mut context = ready_context();
    let renderbuffer = glstate::Renderbuffer::new(5);
    assert!(context.set_renderbuffer(&renderbuffer, false));
    assert!(!context.set_renderbuffer(&renderbuffer, false));
    assert!(context.remove_renderbuffer(false));
    assert!(!context.remove_renderbuffer(false));
    let vertex_array = VertexArray::new(6);
    assert!(context.set_vertex_array(&vertex_array, false));
    assert!(!context.set_vertex_array(&vertex_array, false));
    assert!(context.remove_vertex_array(false));
    assert!(!context.remove_vertex_array(false));
}

#[test]
fn texture_unit_reuse_skips_sampler_redeclaration() {
    let mut context = ready_context();
    let mut program = Program::new();
    program
        .set_program_id(5, &Vec::new(), &Vec::new())
        .expect("reflection of an empty program cannot fail");
    assert!(context.set_program(&program, false));
    assert_eq!(context.take_calls(), vec![NativeCall::UseProgram { id: 5 }]);

    let texture = Texture::new(9);
    assert!(context.set_texture(3, &texture, false));
    // Unit zero is already active, so only the declaration and the bind.
    assert_eq!(
        context.take_calls(),
        vec![
            NativeCall::Uniform1i { location: 3, value: 0 },
            NativeCall::BindTexture { target: GL_TEXTURE_2D, id: 9 },
        ]
    );

    context.draw_arrays(DrawMode::Triangles, 0, 3);
    assert_eq!(
        context.take_calls(),
        vec![NativeCall::DrawArrays { mode: GL_TRIANGLES, first: 0, count: 3 }]
    );

    // Same program, same sampler, same unit: only the bind is re-issued.
    assert!(context.set_texture(3, &texture, false));
    assert_eq!(
        context.take_calls(),
        vec![NativeCall::BindTexture { target: GL_TEXTURE_2D, id: 9 }]
    );
}

#[test]
fn program_switch_resets_the_unit_cursor() {
    let mut context = ready_context();
    let mut first = Program::new();
    first.set_program_id(5, &Vec::new(), &Vec::new()).unwrap();
    let mut second = Program::new();
    second.set_program_id(6, &Vec::new(), &Vec::new()).unwrap();

    context.set_program(&first, false);
    let texture = Texture::new(9);
    context.set_texture(3, &texture, false);
    context.set_texture(4, &texture, false);
    assert_eq!(context.texture_index(), 2);
    assert_eq!(context.active_texture_unit(), 1);
    context.take_calls();

    assert!(context.set_program(&second, false));
    assert_eq!(context.texture_index(), 0);
    assert!(context.set_texture(3, &texture, false));
    assert_eq!(
        context.take_calls(),
        vec![
            NativeCall::UseProgram { id: 6 },
            NativeCall::ActiveTexture { unit: GL_TEXTURE0 },
            NativeCall::Uniform1i { location: 3, value: 0 },
            NativeCall::BindTexture { target: GL_TEXTURE_2D, id: 9 },
        ]
    );
}

#[test]
fn rebinding_the_same_program_is_a_noop() {
    let mut context = ready_context();
    let mut program = Program::new();
    program.set_program_id(5, &Vec::new(), &Vec::new()).unwrap();
    assert!(context.set_program(&program, false));
    context.take_calls();
    // Re-binding issues nothing and signals the no-op, but still restarts
    // the cursor.
    assert!(!context.set_program(&program, false));
    assert!(context.take_calls().is_empty());
    assert_eq!(context.texture_index(), 0);
    assert_eq!(context.current_texture_index(), -1);
    assert!(!context.force());
    // Forcing bypasses the cache even for the current program.
    assert!(context.set_program(&program, true));
    assert_eq!(context.take_calls(), vec![NativeCall::UseProgram { id: 5 }]);
    assert!(context.remove_program(false));
    assert_eq!(context.take_calls(), vec![NativeCall::UseProgram { id: 0 }]);
    // Nothing is bound any more, so a second unbind is a no-op too.
    assert!(!context.remove_program(false));
    assert!(context.take_calls().is_empty());
}

#[test]
fn rebinding_after_texture_use_marks_samplers_stale() {
    let mut context = ready_context();
    let mut program = Program::new();
    program.set_program_id(5, &Vec::new(), &Vec::new()).unwrap();
    context.set_program(&program, false);
    let texture = Texture::new(9);
    context.set_texture(3, &texture, false);
    context.take_calls();
    // Units were granted since the last bind: the no-op re-bind still
    // marks every sampler declaration stale.
    assert!(!context.set_program(&program, false));
    assert!(context.take_calls().is_empty());
    assert!(context.force());
    assert!(context.set_texture(3, &texture, false));
    assert_eq!(
        context.take_calls(),
        vec![
            NativeCall::Uniform1i { location: 3, value: 0 },
            NativeCall::BindTexture { target: GL_TEXTURE_2D, id: 9 },
        ]
    );
}

#[test]
fn remove_texture_unbinds_once() {
    let mut context = ready_context();
    let texture = Texture::new(9);
    context.set_texture(3, &texture, false);
    context.take_calls();
    assert!(context.remove_texture(false));
    assert!(!context.remove_texture(false));
    assert_eq!(
        context.take_calls(),
        vec![NativeCall::BindTexture { target: GL_TEXTURE_2D, id: 0 }]
    );
    assert_eq!(context.current_texture_index(), -1);
}

#[test]
fn remove_buffer_clears_the_slot() {
    let mut context = ready_context();
    let buffer = Buffer::new(7);
    context.set_buffer(&buffer, false);
    context.take_calls();
    assert!(context.remove_buffer(false));
    assert!(!context.remove_buffer(false));
    assert_eq!(
        context.take_calls(),
        vec![NativeCall::BindBuffer { target: GL_ARRAY_BUFFER, id: 0 }]
    );
    // The slot was cleared, so the same buffer binds again.
    assert!(context.set_buffer(&buffer, false));
}

#[test]
fn init_applies_default_state_and_capabilities() {
    let mut context = Context::new();
    context.init(&device_info());
    assert_eq!(context.major(), 4);
    assert_eq!(context.minor(), 6);
    assert_eq!(context.glsl_major(), 4);
    assert_eq!(context.glsl_minor(), 6);
    assert_eq!(context.max_attributes(), 8);
    assert_eq!(context.max_uniforms(), 4 * 224);
    assert_eq!(context.max_varyings(), 60);
    assert_eq!(context.enabled_attributes().len(), 8);
    assert!(!context.blending_disabled());
    assert!(!context.cull_face_disabled());
    assert!(!context.depth_test_disabled());
    assert!(context.has_extenstion("GL_ARB_debug_output"));
    assert!(!context.has_extenstion("GL_ARB_compute_shader"));

    let calls = context.take_calls();
    assert_eq!(calls.first(), Some(&NativeCall::FrontFace { mode: glstate::GL_CCW }));
    assert!(calls.contains(&NativeCall::Enable { capability: GL_BLEND }));
    assert!(calls.contains(&NativeCall::Enable { capability: GL_CULL_FACE }));
    assert!(calls.contains(&NativeCall::Enable { capability: GL_DEPTH_TEST }));
    assert!(calls.contains(&NativeCall::CullFace { mode: GL_BACK }));
    assert!(calls.contains(&NativeCall::DepthFunc { func: GL_LESS }));
    assert_eq!(
        calls.last(),
        Some(&NativeCall::Clear {
            mask: GL_COLOR_BUFFER_BIT | GL_DEPTH_BUFFER_BIT | GL_STENCIL_BUFFER_BIT
        })
    );
}

#[test]
fn draw_elements_records_offset_and_kind() {
    let mut context = ready_context();
    context.draw_elements(DrawMode::Triangles, 36, glstate::IndexKind::UnsignedShort, 12);
    assert_eq!(
        context.take_calls(),
        vec![NativeCall::DrawElements {
            mode: GL_TRIANGLES,
            count: 36,
            kind: glstate::GL_UNSIGNED_SHORT,
            offset: 12,
        }]
    );
}

#[test]
fn texture_bind_returns_to_its_unit_across_frames() {
    let mut context = ready_context();
    let mut program = Program::new();
    program.set_program_id(5, &Vec::new(), &Vec::new()).unwrap();
    context.set_program(&program, false);
    let first = Texture::new(1);
    let second = Texture::new(2);
    let replacement = Texture::new(3);

    context.set_texture(10, &first, false);
    context.set_texture(11, &second, false);
    context.draw_arrays(DrawMode::Triangles, 0, 3);
    assert_eq!(context.active_texture_unit(), 1);
    context.take_calls();

    // Next frame, same program: both sampler declarations are current, but
    // each bind must still land on its own unit, so the unit switches are
    // re-issued while the sampler uniforms are not.
    context.set_texture(10, &replacement, false);
    context.set_texture(11, &second, false);
    assert_eq!(
        context.take_calls(),
        vec![
            NativeCall::ActiveTexture { unit: GL_TEXTURE0 },
            NativeCall::BindTexture { target: GL_TEXTURE_2D, id: 3 },
            NativeCall::ActiveTexture { unit: GL_TEXTURE0 + 1 },
            NativeCall::BindTexture { target: GL_TEXTURE_2D, id: 2 },
        ]
    );
}

#[test]
fn remove_texture_returns_to_unit_zero() {
    let mut context = ready_context();
    let texture = Texture::new(9);
    context.set_texture(3, &texture, false);
    context.set_texture(4, &texture, false);
    assert_eq!(context.active_texture_unit(), 1);
    context.take_calls();
    assert!(context.remove_texture(false));
    assert_eq!(
        context.take_calls(),
        vec![
            NativeCall::ActiveTexture { unit: GL_TEXTURE0 },
            NativeCall::BindTexture { target: GL_TEXTURE_2D, id: 0 },
        ]
    );
    assert_eq!(context.active_texture_unit(), 0);
}
