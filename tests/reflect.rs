use spirv_reflect::convert::{
    ffi_to_descriptor_type, ffi_to_execution_model, ffi_to_generator, ffi_to_resource_type,
    ffi_to_source_language,
};
use spirv_reflect::foreign::{
    enumerate_descriptor_sets, RawArrayTraits, RawBindingArrayTraits, RawBlockVariable,
    RawDescriptorBinding, RawDescriptorSet, RawImageTraits, RawShaderModule,
};
use spirv_reflect::result::{
    result_to_string, ReflectError, RESULT_ERROR_COUNT_MISMATCH,
    RESULT_ERROR_SPIRV_INVALID_CODE_SIZE, RESULT_SUCCESS,
};
use spirv_reflect::types::{
    ReflectDescriptorType, ReflectExecutionModel, ReflectGenerator, ReflectResourceType,
    ReflectShaderStageFlags, ReflectSourceLanguage, SHADER_STAGE_FRAGMENT_BIT,
    SHADER_STAGE_VERTEX_BIT,
};
use spirv_reflect::{create_shader_module, ffi_to_string, ShaderModule};

fn empty_set() -> RawDescriptorSet {
    RawDescriptorSet { set: 0, bindings: Vec::new() }
}

fn header(sets: Vec<RawDescriptorSet>) -> RawShaderModule {
    let count = sets.len() as u32;
    let mut array = sets;
    while array.len() < 64 {
        array.push(empty_set());
    }
    RawShaderModule {
        generator: 8,
        entry_point_name: Some(b"main".to_vec()),
        shader_stage: SHADER_STAGE_FRAGMENT_BIT,
        source_language: 2,
        source_language_version: 450,
        source_file: Some(b"shader.frag".to_vec()),
        source_source: None,
        spirv_execution_model: 4,
        spirv_size: 20,
        spirv_code: vec![0x0723_0203, 0x0001_0000, 0x0008_000a, 5, 0],
        descriptor_set_count: count,
        descriptor_sets: array,
    }
}

fn block(name: &str, members: Vec<RawBlockVariable>) -> RawBlockVariable {
    RawBlockVariable {
        name: Some(name.as_bytes().to_vec()),
        offset: 0,
        absolute_offset: 0,
        size: 16,
        padded_size: 16,
        decoration_flags: 0,
        array: RawArrayTraits { dims: Vec::new(), stride: 0 },
        members,
    }
}

fn binding(set: u32, index: u32, descriptor_type: u32, block: Option<RawBlockVariable>) -> RawDescriptorBinding {
    RawDescriptorBinding {
        spirv_id: 10 + index,
        name: Some(format!("b{}", index).into_bytes()),
        binding: index,
        input_attachment_index: 0,
        set,
        descriptor_type,
        resource_type: 2,
        image: RawImageTraits { dim: 1, depth: 0, arrayed: 0, ms: 0, sampled: 1, image_format: 0 },
        block,
        array: RawBindingArrayTraits { dims: vec![4, 2] },
        count: 8,
        uav_counter_id: 0xffff_ffff,
        has_uav_counter_binding: false,
        has_type_description: true,
        word_offset_binding: 30 + index,
        word_offset_set: 40 + index,
    }
}

fn nested(depth: u32) -> RawBlockVariable {
    let mut b = block("leaf", Vec::new());
    for level in 0..depth {
        b = block(&format!("level{}", level), vec![b]);
    }
    b
}

fn decoded(sets: Vec<RawDescriptorSet>) -> ShaderModule {
    create_shader_module(RESULT_SUCCESS, header(sets)).unwrap()
}

#[test]
fn empty_binary_fails_to_decode() {
    let r = create_shader_module(RESULT_ERROR_SPIRV_INVALID_CODE_SIZE, header(Vec::new()));
    match r {
        Err(e) => {
            assert_eq!(e, ReflectError::DecodeFailure(RESULT_ERROR_SPIRV_INVALID_CODE_SIZE));
            assert_eq!(e.code(), 9);
            assert_eq!(e.message(), "SPV_REFLECT_RESULT_ERROR_SPIRV_INVALID_CODE_SIZE");
        }
        Ok(_) => panic!("decode failure expected"),
    }
    let failed = ShaderModule::default();
    assert_eq!(failed.descriptor_set_count(), Ok(0));
}

#[test]
fn module_without_header_answers_defaults() {
    for m in [ShaderModule::default(), ShaderModule::empty()] {
        assert_eq!(m.get_code_size(), 0);
        assert!(m.get_code_slice().is_empty());
        assert_eq!(m.get_generator(), ReflectGenerator::Unknown);
        assert_eq!(m.get_entry_point_name(), "");
        assert_eq!(m.get_shader_stage().bits, 0);
        assert_eq!(m.get_source_language(), ReflectSourceLanguage::Unknown);
        assert_eq!(m.get_source_language_version(), 0);
        assert_eq!(m.get_source_file(), "");
        assert_eq!(m.get_source_text(), "");
        assert_eq!(m.get_spirv_execution_model(), ReflectExecutionModel::Unknown);
        assert_eq!(m.descriptor_set_count(), Ok(0));
        assert!(m.descriptor_sets().unwrap().is_empty());
    }
}

#[test]
fn minimal_module_has_no_descriptor_sets() {
    let m = decoded(Vec::new());
    assert_eq!(m.descriptor_set_count(), Ok(0));
    assert!(m.descriptor_sets().unwrap().is_empty());
}

#[test]
fn header_queries() {
    let m = decoded(Vec::new());
    assert_eq!(m.get_generator(), ReflectGenerator::KhronosGlslangReferenceFrontEnd);
    assert_eq!(m.get_entry_point_name(), "main");
    assert_eq!(m.get_shader_stage(), ReflectShaderStageFlags { bits: SHADER_STAGE_FRAGMENT_BIT });
    assert_eq!(m.get_source_language(), ReflectSourceLanguage::Glsl);
    assert_eq!(m.get_source_language_version(), 450);
    assert_eq!(m.get_source_file(), "shader.frag");
    assert_eq!(m.get_source_text(), "");
    assert_eq!(m.get_spirv_execution_model(), ReflectExecutionModel::Fragment);
}

#[test]
fn code_words_follow_code_size() {
    let m = decoded(Vec::new());
    assert_eq!(m.get_code_size(), 20);
    assert_eq!(m.get_code_slice().len(), m.get_code_size() / 4);
    assert_eq!(m.get_code_slice()[0], 0x0723_0203);
    let mut h = header(Vec::new());
    h.spirv_size = 8;
    let m = create_shader_module(RESULT_SUCCESS, h).unwrap();
    assert_eq!(m.get_code_slice(), &[0x0723_0203, 0x0001_0000]);
}

#[test]
fn descriptor_sets_follow_count_and_order() {
    let sets = vec![
        RawDescriptorSet { set: 2, bindings: vec![binding(2, 0, 6, Some(block("ubo", Vec::new())))] },
        RawDescriptorSet { set: 0, bindings: vec![binding(0, 0, 0, None), binding(0, 1, 1, None)] },
        RawDescriptorSet { set: 5, bindings: Vec::new() },
    ];
    let m = decoded(sets);
    assert_eq!(m.descriptor_set_count(), Ok(3));
    let out = m.descriptor_sets().unwrap();
    assert_eq!(out.len(), 3);
    let numbers: Vec<u32> = out.iter().map(|s| s.set).collect();
    assert_eq!(numbers, vec![2, 0, 5]);
    assert_eq!(out[0].bindings.len(), 1);
    assert_eq!(out[1].bindings.len(), 2);
    assert_eq!(out[2].bindings.len(), 0);
}

#[test]
fn binding_fields_are_copied() {
    let sets = vec![RawDescriptorSet { set: 1, bindings: vec![binding(1, 3, 7, None)] }];
    let m = decoded(sets);
    let out = m.descriptor_sets().unwrap();
    let b = &out[0].bindings[0];
    assert_eq!(b.spirv_id, 13);
    assert_eq!(b.name, "b3");
    assert_eq!(b.binding, 3);
    assert_eq!(b.set, 1);
    assert_eq!(b.descriptor_type, ReflectDescriptorType::StorageBuffer);
    assert_eq!(b.resource_type, ReflectResourceType::ConstantBufferView);
    assert_eq!(b.image.dim, 1);
    assert_eq!(b.image.sampled, 1);
    assert_eq!(b.array.dims, vec![4, 2]);
    assert_eq!(b.count, 8);
    assert_eq!(b.uav_counter_id, 0xffff_ffff);
    assert!(b.uav_counter_binding.is_none());
    assert!(b.type_description.is_none());
    assert_eq!(b.word_offset.binding, 33);
    assert_eq!(b.word_offset.set, 43);
}

#[test]
fn sampler_has_no_block_and_buffer_has_one() {
    let members = vec![block("a", Vec::new()), block("b", Vec::new()), block("c", Vec::new())];
    let sets = vec![RawDescriptorSet {
        set: 0,
        bindings: vec![binding(0, 0, 0, None), binding(0, 1, 6, Some(block("ubo", members)))],
    }];
    let out = decoded(sets).descriptor_sets().unwrap();
    assert!(out[0].bindings[0].block.is_none());
    let ubo = out[0].bindings[1].block.as_ref().unwrap();
    assert_eq!(ubo.name, "ubo");
    assert_eq!(ubo.members.len(), 3);
    assert_eq!(ubo.members[1].name, "b");
}

#[test]
fn nested_blocks_convert_at_depth() {
    let depth: u32 = 64;
    let sets = vec![RawDescriptorSet { set: 0, bindings: vec![binding(0, 0, 6, Some(nested(depth)))] }];
    let out = decoded(sets).descriptor_sets().unwrap();
    let mut b = out[0].bindings[0].block.as_ref().unwrap();
    let mut seen: u32 = 0;
    while let Some(child) = b.members.first() {
        assert_eq!(b.members.len(), 1);
        b = child;
        seen += 1;
    }
    assert_eq!(seen, depth);
    assert_eq!(b.name, "leaf");
}

#[test]
fn release_happens_once() {
    let mut m = decoded(Vec::new());
    assert!(m.release());
    assert!(!m.release());
    assert_eq!(m.get_entry_point_name(), "");
    assert_eq!(m.get_code_size(), 0);
    assert_eq!(m.descriptor_set_count(), Ok(0));
    drop(m);
    let mut never = ShaderModule::default();
    assert!(!never.release());
}

#[test]
fn strings_from_foreign_bytes() {
    assert_eq!(ffi_to_string(&None), "");
    assert_eq!(ffi_to_string(&Some(b"main".to_vec())), "main");
    assert_eq!(ffi_to_string(&Some("h\u{e9}".as_bytes().to_vec())), "h\u{e9}");
    assert_eq!(ffi_to_string(&Some(vec![0x66, 0xff, 0x66])), "");
    let mut h = header(Vec::new());
    h.entry_point_name = Some(vec![0xc3, 0x28]);
    let m = create_shader_module(RESULT_SUCCESS, h).unwrap();
    assert_eq!(m.get_entry_point_name(), "");
}

#[test]
fn enumeration_requires_matching_count() {
    let h = header(vec![empty_set(), empty_set()]);
    let mut count: u32 = 0;
    let mut none: Option<Vec<usize>> = None;
    assert_eq!(enumerate_descriptor_sets(&h, &mut count, &mut none), RESULT_SUCCESS);
    assert_eq!(count, 2);
    let mut wrong: u32 = 1;
    let mut buffer = Some(vec![9usize; 4]);
    assert_eq!(enumerate_descriptor_sets(&h, &mut wrong, &mut buffer), RESULT_ERROR_COUNT_MISMATCH);
    let mut right: u32 = 2;
    assert_eq!(enumerate_descriptor_sets(&h, &mut right, &mut buffer), RESULT_SUCCESS);
    assert_eq!(buffer, Some(vec![0, 1, 9, 9]));
}

#[test]
fn error_texts() {
    assert_eq!(result_to_string(RESULT_SUCCESS), "SPV_REFLECT_RESULT_SUCCESS");
    assert_eq!(result_to_string(7), "SPV_REFLECT_RESULT_ERROR_COUNT_MISMATCH");
    assert_eq!(result_to_string(20), "SPV_REFLECT_RESULT_ERROR_SPIRV_INVALID_EXECUTION_MODE");
    assert_eq!(result_to_string(21), "SPV_REFLECT_RESULT_UNKNOWN");
    assert_eq!(result_to_string(-3), "SPV_REFLECT_RESULT_UNKNOWN");
    let e = ReflectError::EnumerationFailure(RESULT_ERROR_COUNT_MISMATCH);
    assert_eq!(e.code(), 7);
    assert_eq!(e.message(), "SPV_REFLECT_RESULT_ERROR_COUNT_MISMATCH");
}

#[test]
fn source_languages_from_spirv_headers() {
    assert_eq!(ffi_to_source_language(0), ReflectSourceLanguage::Unknown);
    assert_eq!(ffi_to_source_language(1), ReflectSourceLanguage::Essl);
    assert_eq!(ffi_to_source_language(3), ReflectSourceLanguage::OpenClC);
    assert_eq!(ffi_to_source_language(5), ReflectSourceLanguage::Hlsl);
    assert_eq!(ffi_to_source_language(6), ReflectSourceLanguage::Unknown);
    assert_eq!(ffi_to_source_language(-1), ReflectSourceLanguage::Unknown);
}

#[test]
fn execution_models_from_spirv_headers() {
    assert_eq!(ffi_to_execution_model(0), ReflectExecutionModel::Vertex);
    assert_eq!(ffi_to_execution_model(5), ReflectExecutionModel::GLCompute);
    assert_eq!(ffi_to_execution_model(6), ReflectExecutionModel::Kernel);
    assert_eq!(ffi_to_execution_model(7), ReflectExecutionModel::Unknown);
    assert_eq!(ffi_to_execution_model(5267), ReflectExecutionModel::TaskNV);
    assert_eq!(ffi_to_execution_model(5313), ReflectExecutionModel::RayGenerationNV);
    assert_eq!(ffi_to_execution_model(5318), ReflectExecutionModel::CallableNV);
    assert_eq!(ffi_to_execution_model(5319), ReflectExecutionModel::Unknown);
    assert_eq!(ffi_to_execution_model(-5), ReflectExecutionModel::Unknown);
}

#[test]
fn codes_map_to_closed_enumerations() {
    assert_eq!(ffi_to_generator(8), ReflectGenerator::KhronosGlslangReferenceFrontEnd);
    assert_eq!(ffi_to_generator(19), ReflectGenerator::ClayClayShaderCompiler);
    assert_eq!(ffi_to_generator(0), ReflectGenerator::Unknown);
    assert_eq!(ffi_to_generator(1000), ReflectGenerator::Unknown);
    assert_eq!(ffi_to_descriptor_type(0), ReflectDescriptorType::Sampler);
    assert_eq!(ffi_to_descriptor_type(10), ReflectDescriptorType::InputAttachment);
    assert_eq!(ffi_to_descriptor_type(11), ReflectDescriptorType::Undefined);
    assert_eq!(ffi_to_resource_type(0), ReflectResourceType::Undefined);
    assert_eq!(ffi_to_resource_type(8), ReflectResourceType::UnorderedAccessView);
    assert_eq!(ffi_to_resource_type(3), ReflectResourceType::Undefined);
}

#[test]
fn shader_stage_flags_drop_unknown_bits() {
    let f = ReflectShaderStageFlags::from_bits_truncate(SHADER_STAGE_VERTEX_BIT | SHADER_STAGE_FRAGMENT_BIT | 0x100);
    assert_eq!(f.bits, 0x11);
    assert!(f.contains(ReflectShaderStageFlags { bits: SHADER_STAGE_FRAGMENT_BIT }));
    assert!(!f.contains(ReflectShaderStageFlags { bits: 0x20 }));
    assert_eq!(ReflectShaderStageFlags::empty().bits, 0);
}
