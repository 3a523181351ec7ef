//! Typed uniform setters: cached comparison, array re-upload, sampler
//! delegation, and the unchecked path.

use glstate::{
    copy_array, ne_array, ActiveEntry, Context, NativeCall, Program, UniformValue, GL_FLOAT,
    GL_FLOAT_MAT4, GL_FLOAT_VEC3, GL_INT_VEC2, GL_SAMPLER_2D, GL_TEXTURE_2D,
};

fn entry(name: &str, kind: u32, size: usize, location: i32) -> ActiveEntry {
    ActiveEntry { name: String::from(name), kind, size, location }
}

fn program_with(uniforms: Vec<ActiveEntry>) -> Program {
    let mut program = Program::new();
    program.set_program_id(7, &uniforms, &Vec::new()).expect("known kinds must reflect");
    program
}

#[test]
fn equal_value_uploads_once() {
    let mut program = program_with(vec![entry("x", GL_FLOAT, 1, 4)]);
    let mut context = Context::new();
    let first = UniformValue::Float(1.5f32.to_bits());

    assert!(program.set_uniform("x", &mut context, &first, false));
    assert_eq!(
        context.take_calls(),
        vec![NativeCall::UniformData {
            location: 4,
            kind: GL_FLOAT,
            count: 1,
            words: vec![1.5f32.to_bits()],
        }]
    );

    assert!(!program.set_uniform("x", &mut context, &first, false));
    assert!(context.calls().is_empty());

    let second = UniformValue::Float(2.5f32.to_bits());
    assert!(program.set_uniform("x", &mut context, &second, false));
    assert_eq!(context.take_calls().len(), 1);
}

#[test]
fn force_uploads_despite_a_cache_hit() {
    let mut program = program_with(vec![entry("x", GL_FLOAT, 1, 4)]);
    let mut context = Context::new();
    let value = UniformValue::Float(1.5f32.to_bits());
    assert!(program.set_uniform("x", &mut context, &value, false));
    assert!(program.set_uniform("x", &mut context, &value, true));
    assert_eq!(context.take_calls().len(), 2);
}

#[test]
fn zero_matches_the_initial_cache() {
    // A fresh setter's cache holds zero — the backend's own default — so
    // setting zero first is already a cache hit.
    let mut program = program_with(vec![entry("x", GL_FLOAT, 1, 4)]);
    let mut context = Context::new();
    assert!(!program.set_uniform("x", &mut context, &UniformValue::Float(0.0f32.to_bits()), false));
    assert!(context.calls().is_empty());
}

#[test]
fn vectors_compare_elementwise() {
    let mut program = program_with(vec![entry("dir", GL_FLOAT_VEC3, 1, 2)]);
    let mut context = Context::new();
    let v = |x: f32, y: f32, z: f32| {
        UniformValue::FloatVec(vec![x.to_bits(), y.to_bits(), z.to_bits()])
    };
    assert!(program.set_uniform("dir", &mut context, &v(1.0, 0.0, 0.0), false));
    assert!(!program.set_uniform("dir", &mut context, &v(1.0, 0.0, 0.0), false));
    assert!(program.set_uniform("dir", &mut context, &v(0.0, 1.0, 0.0), false));
    assert_eq!(context.take_calls().len(), 2);
}

#[test]
fn integer_vectors_upload_their_words() {
    let mut program = program_with(vec![entry("pair", GL_INT_VEC2, 1, 5)]);
    let mut context = Context::new();
    let value = UniformValue::IntVec(vec![-1, 7]);
    assert!(program.set_uniform("pair", &mut context, &value, false));
    assert_eq!(
        context.take_calls(),
        vec![NativeCall::UniformData {
            location: 5,
            kind: GL_INT_VEC2,
            count: 1,
            words: vec![(-1i32) as u32, 7],
        }]
    );
}

#[test]
fn array_uniforms_always_upload() {
    let mut program = program_with(vec![entry("weights[0]", GL_FLOAT, 3, 6)]);
    let mut context = Context::new();
    let value = UniformValue::FloatVec(vec![
        1.0f32.to_bits(),
        2.0f32.to_bits(),
        3.0f32.to_bits(),
    ]);
    assert!(program.set_uniform("weights", &mut context, &value, false));
    assert!(program.set_uniform("weights", &mut context, &value, false));
    let calls = context.take_calls();
    assert_eq!(calls.len(), 2);
    assert_eq!(calls[0], calls[1]);
    match &calls[0] {
        NativeCall::UniformData { location, count, words, .. } => {
            assert_eq!(*location, 6);
            assert_eq!(*count, 3);
            assert_eq!(words.len(), 3);
        },
        other => panic!("unexpected call: {:?}", other),
    }
}

#[test]
fn matrices_cache_all_sixteen_words() {
    let mut program = program_with(vec![entry("model", GL_FLOAT_MAT4, 1, 1)]);
    let mut context = Context::new();
    let mut cells: Vec<u32> = vec![0.0f32.to_bits(); 16];
    cells[0] = 1.0f32.to_bits();
    let value = UniformValue::Mat(cells.clone());
    assert!(program.set_uniform("model", &mut context, &value, false));
    assert!(!program.set_uniform("model", &mut context, &value, false));
    cells[5] = 1.0f32.to_bits();
    assert!(program.set_uniform("model", &mut context, &UniformValue::Mat(cells), false));
    assert_eq!(context.take_calls().len(), 2);
}

#[test]
fn set_unchecked_always_uploads() {
    let mut program = program_with(vec![entry("x", GL_FLOAT, 1, 4)]);
    let mut context = Context::new();
    let value = UniformValue::Float(1.5f32.to_bits());
    assert!(program.set_uniform_unchecked("x", &mut context, &value, false));
    assert!(program.set_uniform_unchecked("x", &mut context, &value, false));
    assert_eq!(context.take_calls().len(), 2);
    // The unchecked path still updated the cache.
    assert!(!program.set_uniform("x", &mut context, &value, false));
}

#[test]
fn sampler_uniform_delegates_to_texture_binding() {
    let mut program = program_with(vec![entry("diffuse", GL_SAMPLER_2D, 1, 3)]);
    let mut context = Context::new();
    let value = UniformValue::Texture(9);
    assert!(program.set_uniform("diffuse", &mut context, &value, false));
    // Unit zero is already active on a fresh context, so no unit switch.
    assert_eq!(
        context.take_calls(),
        vec![
            NativeCall::Uniform1i { location: 3, value: 0 },
            NativeCall::BindTexture { target: GL_TEXTURE_2D, id: 9 },
        ]
    );
}

#[test]
fn word_comparison_helpers() {
    let a = vec![1u32, 2, 3];
    let b = vec![1u32, 2, 3];
    let c = vec![1u32, 9, 3];
    assert!(!ne_array(&a, &b));
    assert!(ne_array(&a, &c));
    let mut target = vec![0u32, 0, 0];
    copy_array(&mut target, &c);
    assert_eq!(target, c);
}
