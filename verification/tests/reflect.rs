//! Reflection: building the typed setter maps from raw introspection
//! records, and uniform name normalization.

use glstate::{
    new_attribute, new_uniform, normalize_uniform_name, ActiveEntry, Program, ReflectError,
    UniformKind, GL_BOOL, GL_FLOAT, GL_FLOAT_MAT4, GL_FLOAT_VEC3, GL_INT, GL_SAMPLER_2D,
};

fn entry(name: &str, kind: u32, size: usize, location: i32) -> ActiveEntry {
    ActiveEntry { name: String::from(name), kind, size, location }
}

#[test]
fn round_trip_reflection() {
    let mut program = Program::new();
    let uniforms = vec![entry("projection", GL_FLOAT_MAT4, 1, 3)];
    let attributes = vec![entry("position", GL_FLOAT_VEC3, 1, 0)];
    program.set_program_id(7, &uniforms, &attributes).expect("known kinds must reflect");

    assert_eq!(program.id(), 7);
    assert_eq!(program.uniforms().len(), 1);
    let uniform = &program.uniforms()[0];
    assert_eq!(uniform.name(), "projection");
    assert_eq!(uniform.value_kind(), UniformKind::Mat4);
    assert_eq!(uniform.kind(), GL_FLOAT_MAT4);
    assert_eq!(uniform.size(), 1);
    assert_eq!(uniform.location(), 3);
    assert!(uniform.location() >= 0);

    assert_eq!(program.attributes().len(), 1);
    let attribute = &program.attributes()[0];
    assert_eq!(attribute.name(), "position");
    assert_eq!(attribute.kind(), GL_FLOAT_VEC3);
    assert_eq!(attribute.item_size, 3);
    assert_eq!(attribute.pointer_kind, GL_FLOAT);
    assert_eq!(attribute.location(), 0);
    assert!(attribute.location() >= 0);

    assert!(program.has_uniform("projection"));
    assert!(!program.has_uniform("position"));
    assert!(program.has_attribute("position"));
    assert!(!program.has_attribute("projection"));
}

#[test]
fn array_uniform_is_addressable_by_base_name() {
    let mut program = Program::new();
    let uniforms = vec![entry("lights[0]", GL_FLOAT_VEC3, 4, 2)];
    program.set_program_id(7, &uniforms, &Vec::new()).unwrap();
    assert!(program.has_uniform("lights"));
    assert!(!program.has_uniform("lights[0]"));
    assert_eq!(program.uniforms()[0].size(), 4);
}

#[test]
fn name_normalization() {
    assert_eq!(normalize_uniform_name("lights[0]"), "lights");
    assert_eq!(normalize_uniform_name("items[3]"), "items");
    assert_eq!(normalize_uniform_name("x[12]"), "x");
    assert_eq!(normalize_uniform_name("plain"), "plain");
    // Malformed subscripts are kept whole.
    assert_eq!(normalize_uniform_name("a[]"), "a[]");
    assert_eq!(normalize_uniform_name("]"), "]");
    // An empty base is stripped to the empty name, as greedy capture would.
    assert_eq!(normalize_uniform_name("[0]"), "");
    assert_eq!(normalize_uniform_name(""), "");
}

#[test]
fn unknown_uniform_kind_is_fatal_and_leaves_the_program_whole() {
    let mut program = Program::new();
    program.set_program_id(7, &vec![entry("ok", GL_FLOAT, 1, 0)], &Vec::new()).unwrap();

    let bad = vec![entry("mystery", 0xDEAD, 1, 1)];
    let result = program.set_program_id(8, &bad, &Vec::new());
    assert_eq!(result, Err(ReflectError::UnknownUniformKind(0xDEAD)));
    // The failed rebuild left the previous reflection in place.
    assert_eq!(program.id(), 7);
    assert!(program.has_uniform("ok"));
}

#[test]
fn unknown_attribute_kind_is_fatal() {
    let mut program = Program::new();
    let bad = vec![entry("mystery", 0xBEEF, 1, 0)];
    let result = program.set_program_id(8, &Vec::new(), &bad);
    assert_eq!(result, Err(ReflectError::UnknownAttributeKind(0xBEEF)));
}

#[test]
fn sampler_arrays_are_not_supported() {
    let result = new_uniform(String::from("shadow_maps"), GL_SAMPLER_2D, 4, 1);
    assert!(matches!(result, Err(ReflectError::UnknownUniformKind(_))));
}

#[test]
fn fresh_uniform_cache_is_zeroed() {
    let uniform = new_uniform(String::from("weight"), GL_FLOAT, 1, 0).unwrap();
    assert_eq!(uniform.value, vec![0]);
    let matrix = new_uniform(String::from("model"), GL_FLOAT_MAT4, 1, 1).unwrap();
    assert_eq!(matrix.value.len(), 16);
    // Arrays carry no cache at all.
    let array = new_uniform(String::from("bones"), GL_FLOAT_MAT4, 8, 2).unwrap();
    assert!(array.value.is_empty());
}

#[test]
fn boolean_attributes_use_integer_pointers() {
    let attribute = new_attribute(String::from("flag"), GL_BOOL, 1, 2).unwrap();
    assert_eq!(attribute.item_size, 1);
    assert_eq!(attribute.pointer_kind, GL_INT);
    let float = new_attribute(String::from("weight"), GL_FLOAT, 1, 3).unwrap();
    assert_eq!(float.pointer_kind, GL_FLOAT);
}

#[test]
fn duplicate_names_resolve_to_the_latest_entry() {
    let mut program = Program::new();
    let uniforms = vec![entry("x", GL_FLOAT, 1, 1), entry("x", GL_FLOAT, 1, 2)];
    program.set_program_id(7, &uniforms, &Vec::new()).unwrap();
    assert!(program.has_uniform("x"));

    let mut context = glstate::Context::new();
    let value = glstate::UniformValue::Float(3.5f32.to_bits());
    assert!(program.set_uniform("x", &mut context, &value, false));
    // The upload addressed the latest reflected entry.
    match context.take_calls().as_slice() {
        [glstate::NativeCall::UniformData { location, .. }] => assert_eq!(*location, 2),
        other => panic!("unexpected call log: {:?}", other),
    }
}
