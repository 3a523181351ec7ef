//! The capability snapshot: version grammar, shading-language tiers,
//! precision selection, extension splitting, and resource upload plans.

use glstate::{
    glsl_version, is_power_of_two, parse_version_pair, split_words, str_eq, Attachment, Buffer,
    BufferTarget, Context, DeviceInfo, FilterMode,
    Framebuffer, NativeCall, Renderbuffer, Texture, TextureFormat, TextureKind, TextureWrap,
    Usage, GL_ARRAY_BUFFER, GL_DEPTH_ATTACHMENT, GL_FRAMEBUFFER, GL_LINEAR,
    GL_LINEAR_MIPMAP_LINEAR, GL_NEAREST, GL_RGBA, GL_STATIC_DRAW, GL_TEXTURE_2D,
    GL_TEXTURE_MAG_FILTER, GL_TEXTURE_MIN_FILTER, GL_TEXTURE_WRAP_S, GL_TEXTURE_WRAP_T,
    GL_UNSIGNED_BYTE,
};

fn base_info() -> DeviceInfo {
    DeviceInfo {
        version: String::from("4.6 (Core Profile) Mesa 23.1"),
        queried_major: 4,
        queried_minor: 6,
        vs_high_float_precision: 23,
        vs_mediump_float_precision: 10,
        fs_high_float_precision: 23,
        fs_mediump_float_precision: 10,
        extension_list: vec![String::from("GL_ARB_debug_output")],
        extension_blob: String::new(),
        max_textures: 16,
        max_vertex_textures: 16,
        max_texture_size: 4096,
        max_cube_texture_size: 4096,
        max_render_buffer_size: 4096,
        vs_max_uniforms: 256,
        fs_max_uniforms: 224,
        max_varyings: 15,
        max_attributes: 8,
    }
}

#[test]
fn shading_language_tiers() {
    assert_eq!(glsl_version(2, 0), (1, 1));
    assert_eq!(glsl_version(2, 1), (1, 2));
    assert_eq!(glsl_version(3, 0), (1, 3));
    assert_eq!(glsl_version(3, 1), (1, 4));
    assert_eq!(glsl_version(3, 2), (1, 5));
    assert_eq!(glsl_version(4, 6), (4, 6));
    assert_eq!(glsl_version(4, 1), (4, 1));
}

#[test]
fn version_string_with_prefix_text() {
    let mut info = base_info();
    info.version = String::from("OpenGL ES 3.2 V@0502");
    info.queried_major = 3;
    info.queried_minor = 2;
    let mut context = Context::new();
    context.init(&info);
    assert_eq!((context.major(), context.minor()), (3, 2));
    assert_eq!((context.glsl_major(), context.glsl_minor()), (1, 5));
}

#[test]
fn legacy_version_forces_two_zero() {
    let mut info = base_info();
    info.version = String::from("2.1 Mesa 23.1");
    let mut context = Context::new();
    context.init(&info);
    assert_eq!((context.major(), context.minor()), (2, 0));
    assert_eq!((context.glsl_major(), context.glsl_minor()), (1, 1));
}

#[test]
fn unparsable_version_trusts_the_integer_query() {
    let mut info = base_info();
    info.version = String::from("weird driver");
    let mut context = Context::new();
    context.init(&info);
    assert_eq!((context.major(), context.minor()), (4, 6));
}

#[test]
fn legacy_extension_blob_is_split_on_whitespace() {
    let mut info = base_info();
    info.version = String::from("2.0");
    info.extension_blob = String::from("GL_OES_depth24  GL_OES_rgb8_rgba8\nGL_EXT_sRGB");
    let mut context = Context::new();
    context.init(&info);
    assert_eq!(context.extenstions().len(), 3);
    assert!(context.has_extenstion("GL_OES_depth24"));
    assert!(context.has_extenstion("GL_OES_rgb8_rgba8"));
    assert!(context.has_extenstion("GL_EXT_sRGB"));
    assert!(!context.has_extenstion("GL_ARB_debug_output"));
}

#[test]
fn precision_tier_degrades_with_the_weakest_shader() {
    let mut info = base_info();
    let mut context = Context::new();
    context.init(&info);
    assert_eq!(context.precision(), glstate::Precision::High);

    info.fs_high_float_precision = 0;
    context.init(&info);
    assert_eq!(context.precision(), glstate::Precision::Medium);

    info.vs_mediump_float_precision = 0;
    context.init(&info);
    assert_eq!(context.precision(), glstate::Precision::Low);
}

#[test]
fn buffer_upload_records_metadata_and_commands() {
    let mut context = Context::new();
    let mut buffer = Buffer::new(7);
    // 6 elements of 4 bytes, 3 elements per vertex.
    buffer.set(&mut context, BufferTarget::Array, 6, 4, 3, Usage::StaticDraw);
    assert_eq!(buffer.length(), 6);
    assert_eq!(buffer.kind_size(), 4);
    assert_eq!(buffer.size(), 24);
    assert_eq!(buffer.stride(), 3);
    assert_eq!(buffer.kind(), BufferTarget::Array);
    assert_eq!(buffer.usage(), Usage::StaticDraw);
    assert_eq!(
        context.take_calls(),
        vec![
            NativeCall::BindBuffer { target: GL_ARRAY_BUFFER, id: 7 },
            NativeCall::BufferData { target: GL_ARRAY_BUFFER, size: 24, usage: GL_STATIC_DRAW },
            NativeCall::BindBuffer { target: GL_ARRAY_BUFFER, id: 0 },
        ]
    );
}

#[test]
fn texture_upload_plan_with_mipmaps() {
    let mut context = Context::new();
    let mut texture = Texture::new(5);
    texture.set_data2d(
        &mut context,
        256,
        128,
        TextureFormat::RGBA,
        TextureKind::UnsignedByte,
        TextureWrap::Clamp,
        FilterMode::Linear,
        true,
    );
    let calls = context.take_calls();
    assert_eq!(calls[0], NativeCall::BindTexture { target: GL_TEXTURE_2D, id: 5 });
    assert_eq!(
        calls[1],
        NativeCall::TexImage2D {
            format: GL_RGBA,
            width: 256,
            height: 128,
            kind: GL_UNSIGNED_BYTE,
            with_data: true,
        }
    );
    assert_eq!(
        calls[2],
        NativeCall::TexParameteri { pname: GL_TEXTURE_MAG_FILTER, param: GL_LINEAR }
    );
    assert_eq!(
        calls[3],
        NativeCall::TexParameteri { pname: GL_TEXTURE_MIN_FILTER, param: GL_LINEAR_MIPMAP_LINEAR }
    );
    assert_eq!(
        calls[4],
        NativeCall::TexParameteri { pname: GL_TEXTURE_WRAP_S, param: glstate::GL_CLAMP_TO_EDGE }
    );
    assert_eq!(
        calls[5],
        NativeCall::TexParameteri { pname: GL_TEXTURE_WRAP_T, param: glstate::GL_CLAMP_TO_EDGE }
    );
    // Both dimensions are powers of two, so mipmaps are generated; a
    // version-zero context uses the bound-target call.
    assert_eq!(calls[6], NativeCall::GenerateMipmap { target: GL_TEXTURE_2D });
    assert_eq!(calls[7], NativeCall::BindTexture { target: GL_TEXTURE_2D, id: 0 });
    assert_eq!(calls.len(), 8);
}

#[test]
fn non_power_of_two_textures_skip_mipmaps() {
    let mut context = Context::new();
    let mut texture = Texture::new(5);
    texture.set_null2d(
        &mut context,
        100,
        50,
        TextureFormat::RGBA,
        TextureKind::UnsignedByte,
        TextureWrap::Repeat,
        FilterMode::Off,
        true,
    );
    let calls = context.take_calls();
    assert_eq!(calls.len(), 7);
    assert!(matches!(calls[1], NativeCall::TexImage2D { with_data: false, .. }));
    assert_eq!(
        calls[2],
        NativeCall::TexParameteri { pname: GL_TEXTURE_MAG_FILTER, param: GL_NEAREST }
    );
    assert_eq!(
        calls[3],
        NativeCall::TexParameteri { pname: GL_TEXTURE_MIN_FILTER, param: GL_NEAREST }
    );
    assert!(!calls.iter().any(|call| matches!(
        call,
        NativeCall::GenerateMipmap { .. } | NativeCall::GenerateTextureMipmap { .. }
    )));
}

#[test]
fn framebuffer_setup_checks_completeness() {
    let mut context = Context::new();
    let framebuffer = Framebuffer::new(3);
    let texture = Texture::new(5);
    framebuffer.set(&mut context, &texture, &[Attachment::Depth], 0);
    let calls = context.take_calls();
    assert_eq!(calls[0], NativeCall::BindFramebuffer { id: 3 });
    assert_eq!(calls[1], NativeCall::BindTexture { target: GL_TEXTURE_2D, id: 5 });
    assert_eq!(
        calls[2],
        NativeCall::FramebufferTexture { attachment: GL_DEPTH_ATTACHMENT, texture: 5, level: 0 }
    );
    assert_eq!(calls[3], NativeCall::DrawBuffers { attachments: vec![GL_DEPTH_ATTACHMENT] });
    assert_eq!(calls[4], NativeCall::CheckFramebufferStatus);
    assert_eq!(calls.len(), 5);
    // GL_FRAMEBUFFER itself is implied by the bind command.
    assert_ne!(GL_FRAMEBUFFER, 0);
}

#[test]
fn renderbuffer_storage_plan() {
    let mut context = Context::new();
    let renderbuffer = Renderbuffer::new(4);
    renderbuffer.set(&mut context, TextureFormat::DepthComponent, Attachment::Depth, 640, 480);
    let calls = context.take_calls();
    assert_eq!(calls.len(), 4);
    assert_eq!(calls[0], NativeCall::BindRenderbuffer { id: 4 });
    assert_eq!(
        calls[1],
        NativeCall::RenderbufferStorage {
            format: glstate::GL_DEPTH_COMPONENT,
            width: 640,
            height: 480,
        }
    );
    assert_eq!(calls[3], NativeCall::BindRenderbuffer { id: 0 });
}

#[test]
fn attribute_setter_points_into_the_buffer() {
    let mut context = Context::new();
    let mut info = base_info();
    info.max_attributes = 4;
    context.init(&info);
    context.take_calls();

    let mut program = glstate::Program::new();
    let attributes = vec![glstate::ActiveEntry {
        name: String::from("position"),
        kind: glstate::GL_FLOAT_VEC3,
        size: 1,
        location: 1,
    }];
    program.set_program_id(7, &Vec::new(), &attributes).unwrap();

    let mut buffer = Buffer::new(9);
    buffer.set(&mut context, BufferTarget::Array, 12, 4, 6, Usage::StaticDraw);
    context.take_calls();

    assert!(program.set_attribute("position", &mut context, &buffer, 3, false));
    assert_eq!(
        context.take_calls(),
        vec![
            NativeCall::BindBuffer { target: GL_ARRAY_BUFFER, id: 9 },
            NativeCall::EnableVertexAttribArray { index: 1 },
            NativeCall::VertexAttribPointer {
                location: 1,
                item_size: 3,
                kind: glstate::GL_FLOAT,
                stride: 24,
                offset: 12,
            },
        ]
    );
}

#[test]
fn version_grammar_finds_the_first_pair() {
    assert_eq!(parse_version_pair("4.6 (Core Profile) Mesa 23.1"), Some((4, 6)));
    assert_eq!(parse_version_pair("OpenGL ES 3.2 V@0502"), Some((3, 2)));
    assert_eq!(parse_version_pair("no digits here"), None);
    assert_eq!(parse_version_pair("1..2"), None);
    assert_eq!(parse_version_pair("12.34 and 5.6"), Some((12, 34)));
    assert_eq!(parse_version_pair("7"), None);
    assert_eq!(parse_version_pair(""), None);
    // Components saturate rather than overflow.
    assert_eq!(parse_version_pair("99999999999.1"), Some((0xFFFF, 1)));
}

#[test]
fn word_splitting_and_string_comparison() {
    assert_eq!(split_words("a bb  ccc"), vec!["a", "bb", "ccc"]);
    assert_eq!(split_words("  lead trail  "), vec!["lead", "trail"]);
    assert!(split_words("").is_empty());
    assert!(split_words(" \t\n\r").is_empty());
    assert!(str_eq("same", "same"));
    assert!(!str_eq("same", "sane"));
    assert!(!str_eq("short", "shorter"));
    assert!(str_eq("", ""));
}

#[test]
fn power_of_two_detection() {
    assert!(is_power_of_two(1));
    assert!(is_power_of_two(2));
    assert!(is_power_of_two(64));
    assert!(is_power_of_two(4096));
    assert!(!is_power_of_two(0));
    assert!(!is_power_of_two(3));
    assert!(!is_power_of_two(12));
}
