//! Conversion of the engine's records into owned values.
use vstd::prelude::*;
use num_traits::FromPrimitive;
use crate::foreign::{
    RawArrayTraits, RawBindingArrayTraits, RawBlockVariable, RawDescriptorBinding,
    RawDescriptorSet, RawImageTraits,
};
use crate::types::{
    ReflectArrayTraits, ReflectBindingArrayTraits, ReflectBlockVariable, ReflectDescriptorBinding,
    ReflectDescriptorSet, ReflectDescriptorType, ReflectExecutionModel, ReflectGenerator,
    ReflectImageTraits, ReflectResourceType, ReflectSourceLanguage, ReflectWordOffset,
};

verus! {

/// The text that a byte string spells as UTF-8, or `None` where it is not UTF-8.
pub uninterp spec fn utf8_text(bytes: Seq<u8>) -> Option<Seq<char>>;

/// Relies on `String::from_utf8`: it succeeds exactly on UTF-8 input and then
/// holds the text that the bytes spell.
#[verifier::external_body]
fn utf8_to_string(bytes: Vec<u8>) -> (r: Option<String>)
    ensures
        match r {
            Some(s) => utf8_text(bytes@) == Some(s@),
            None => utf8_text(bytes@) is None,
        },
{
    match String::from_utf8(bytes) {
        Ok(s) => Some(s),
        Err(_) => None,
    }
}

/// The text of a nullable C string: empty where the pointer is null or the
/// bytes are not UTF-8.
pub open spec fn text_of(ffi: Option<Vec<u8>>) -> Seq<char> {
    match ffi {
        None => Seq::empty(),
        Some(b) => match utf8_text(b@) {
            Some(t) => t,
            None => Seq::empty(),
        },
    }
}

/// Copies a nullable C string into an owned `String`; a null pointer or bytes
/// that are not UTF-8 give the empty string.
pub fn ffi_to_string(ffi: &Option<Vec<u8>>) -> (r: String)
    ensures
        r@ == text_of(*ffi),
{
    match ffi {
        None => String::new(),
        Some(b) => match utf8_to_string(b.clone()) {
            Some(s) => s,
            None => String::new(),
        },
    }
}

/// The generator that a tool code of the header names; unknown codes give `Unknown`.
pub open spec fn generator_of(code: u32) -> ReflectGenerator {
    match code {
        6u32 => ReflectGenerator::KhronosLlvmSpirvTranslator,
        7u32 => ReflectGenerator::KhronosSpirvToolsAssembler,
        8u32 => ReflectGenerator::KhronosGlslangReferenceFrontEnd,
        13u32 => ReflectGenerator::GoogleShadercOverGlslang,
        14u32 => ReflectGenerator::GoogleSpiregg,
        15u32 => ReflectGenerator::GoogleRspirv,
        16u32 => ReflectGenerator::XLegendMesaMesairSpirvTranslator,
        17u32 => ReflectGenerator::KhronosSpirvToolsLinker,
        18u32 => ReflectGenerator::WineVkd3dShaderCompiler,
        19u32 => ReflectGenerator::ClayClayShaderCompiler,
        _ => ReflectGenerator::Unknown,
    }
}

/// Maps the generator code of a module header to a generator.
pub fn ffi_to_generator(code: u32) -> (r: ReflectGenerator)
    ensures
        r == generator_of(code),
{
    match code {
        6u32 => ReflectGenerator::KhronosLlvmSpirvTranslator,
        7u32 => ReflectGenerator::KhronosSpirvToolsAssembler,
        8u32 => ReflectGenerator::KhronosGlslangReferenceFrontEnd,
        13u32 => ReflectGenerator::GoogleShadercOverGlslang,
        14u32 => ReflectGenerator::GoogleSpiregg,
        15u32 => ReflectGenerator::GoogleRspirv,
        16u32 => ReflectGenerator::XLegendMesaMesairSpirvTranslator,
        17u32 => ReflectGenerator::KhronosSpirvToolsLinker,
        18u32 => ReflectGenerator::WineVkd3dShaderCompiler,
        19u32 => ReflectGenerator::ClayClayShaderCompiler,
        _ => ReflectGenerator::Unknown,
    }
}

/// The descriptor type that an engine code names; unknown codes give `Undefined`.
pub open spec fn descriptor_type_of(code: u32) -> ReflectDescriptorType {
    match code {
        0u32 => ReflectDescriptorType::Sampler,
        1u32 => ReflectDescriptorType::CombinedImageSampler,
        2u32 => ReflectDescriptorType::SampledImage,
        3u32 => ReflectDescriptorType::StorageImage,
        4u32 => ReflectDescriptorType::UniformTexelBuffer,
        5u32 => ReflectDescriptorType::StorageTexelBuffer,
        6u32 => ReflectDescriptorType::UniformBuffer,
        7u32 => ReflectDescriptorType::StorageBuffer,
        8u32 => ReflectDescriptorType::UniformBufferDynamic,
        9u32 => ReflectDescriptorType::StorageBufferDynamic,
        10u32 => ReflectDescriptorType::InputAttachment,
        _ => ReflectDescriptorType::Undefined,
    }
}

/// Maps an engine descriptor-type code to a descriptor type.
pub fn ffi_to_descriptor_type(code: u32) -> (r: ReflectDescriptorType)
    ensures
        r == descriptor_type_of(code),
{
    match code {
        0u32 => ReflectDescriptorType::Sampler,
        1u32 => ReflectDescriptorType::CombinedImageSampler,
        2u32 => ReflectDescriptorType::SampledImage,
        3u32 => ReflectDescriptorType::StorageImage,
        4u32 => ReflectDescriptorType::UniformTexelBuffer,
        5u32 => ReflectDescriptorType::StorageTexelBuffer,
        6u32 => ReflectDescriptorType::UniformBuffer,
        7u32 => ReflectDescriptorType::StorageBuffer,
        8u32 => ReflectDescriptorType::UniformBufferDynamic,
        9u32 => ReflectDescriptorType::StorageBufferDynamic,
        10u32 => ReflectDescriptorType::InputAttachment,
        _ => ReflectDescriptorType::Undefined,
    }
}

/// The resource type that an engine code names; unknown codes give `Undefined`.
pub open spec fn resource_type_of(code: u32) -> ReflectResourceType {
    match code {
        1u32 => ReflectResourceType::Sampler,
        2u32 => ReflectResourceType::ConstantBufferView,
        4u32 => ReflectResourceType::ShaderResourceView,
        8u32 => ReflectResourceType::UnorderedAccessView,
        _ => ReflectResourceType::Undefined,
    }
}

/// Maps an engine resource-type code to a resource type.
pub fn ffi_to_resource_type(code: u32) -> (r: ReflectResourceType)
    ensures
        r == resource_type_of(code),
{
    match code {
        1u32 => ReflectResourceType::Sampler,
        2u32 => ReflectResourceType::ConstantBufferView,
        4u32 => ReflectResourceType::ShaderResourceView,
        8u32 => ReflectResourceType::UnorderedAccessView,
        _ => ReflectResourceType::Undefined,
    }
}

/// Whether a number is the code of a SPIR-V source language.
pub open spec fn is_source_language_code(code: int) -> bool {
    0 <= code <= 5
}

/// Relies on `FromPrimitive::from_i32` of `spirv_headers::SourceLanguage`: it
/// knows the codes 0 to 5; the language found is handed back as its code.
#[verifier::external_body]
fn spirv_source_language(code: i32) -> (r: Option<u32>)
    ensures
        r == (if is_source_language_code(code as int) { Some(code as u32) } else { None }),
{
    match spirv_headers::SourceLanguage::from_i32(code) {
        Some(language) => Some(language as u32),
        None => None,
    }
}

/// The source language that a code names; unknown codes give `Unknown`.
pub open spec fn source_language_of(code: i32) -> ReflectSourceLanguage {
    match code {
        0i32 => ReflectSourceLanguage::Unknown,
        1i32 => ReflectSourceLanguage::Essl,
        2i32 => ReflectSourceLanguage::Glsl,
        3i32 => ReflectSourceLanguage::OpenClC,
        4i32 => ReflectSourceLanguage::OpenClCpp,
        5i32 => ReflectSourceLanguage::Hlsl,
        _ => ReflectSourceLanguage::Unknown,
    }
}

/// Maps the source-language code of a module header to a source language,
/// as spirv_headers decodes it.
pub fn ffi_to_source_language(code: i32) -> (r: ReflectSourceLanguage)
    ensures
        r == source_language_of(code),
{
    match spirv_source_language(code) {
        Some(known) => match known {
            0u32 => ReflectSourceLanguage::Unknown,
            1u32 => ReflectSourceLanguage::Essl,
            2u32 => ReflectSourceLanguage::Glsl,
            3u32 => ReflectSourceLanguage::OpenClC,
            4u32 => ReflectSourceLanguage::OpenClCpp,
            5u32 => ReflectSourceLanguage::Hlsl,
            _ => ReflectSourceLanguage::Unknown,
        },
        None => ReflectSourceLanguage::Unknown,
    }
}

/// Whether a number is the code of a SPIR-V execution model.
pub open spec fn is_execution_model_code(code: int) -> bool {
    (0 <= code <= 6) || (5267 <= code <= 5268) || (5313 <= code <= 5318)
}

/// Relies on `FromPrimitive::from_i32` of `spirv_headers::ExecutionModel`: it
/// knows the codes 0 to 6, 5267, 5268 and 5313 to 5318; the model found is
/// handed back as its code.
#[verifier::external_body]
fn spirv_execution_model(code: i32) -> (r: Option<u32>)
    ensures
        r == (if is_execution_model_code(code as int) { Some(code as u32) } else { None }),
{
    match spirv_headers::ExecutionModel::from_i32(code) {
        Some(model) => Some(model as u32),
        None => None,
    }
}

/// The execution model that a code names; unknown codes give `Unknown`.
pub open spec fn execution_model_of(code: i32) -> ReflectExecutionModel {
    match code {
        0i32 => ReflectExecutionModel::Vertex,
        1i32 => ReflectExecutionModel::TessellationControl,
        2i32 => ReflectExecutionModel::TessellationEvaluation,
        3i32 => ReflectExecutionModel::Geometry,
        4i32 => ReflectExecutionModel::Fragment,
        5i32 => ReflectExecutionModel::GLCompute,
        6i32 => ReflectExecutionModel::Kernel,
        5267i32 => ReflectExecutionModel::TaskNV,
        5268i32 => ReflectExecutionModel::MeshNV,
        5313i32 => ReflectExecutionModel::RayGenerationNV,
        5314i32 => ReflectExecutionModel::IntersectionNV,
        5315i32 => ReflectExecutionModel::AnyHitNV,
        5316i32 => ReflectExecutionModel::ClosestHitNV,
        5317i32 => ReflectExecutionModel::MissNV,
        5318i32 => ReflectExecutionModel::CallableNV,
        _ => ReflectExecutionModel::Unknown,
    }
}

/// Maps the execution-model code of a module header to an execution model,
/// as spirv_headers decodes it.
pub fn ffi_to_execution_model(code: i32) -> (r: ReflectExecutionModel)
    ensures
        r == execution_model_of(code),
{
    match spirv_execution_model(code) {
        Some(known) => match known {
            0u32 => ReflectExecutionModel::Vertex,
            1u32 => ReflectExecutionModel::TessellationControl,
            2u32 => ReflectExecutionModel::TessellationEvaluation,
            3u32 => ReflectExecutionModel::Geometry,
            4u32 => ReflectExecutionModel::Fragment,
            5u32 => ReflectExecutionModel::GLCompute,
            6u32 => ReflectExecutionModel::Kernel,
            5267u32 => ReflectExecutionModel::TaskNV,
            5268u32 => ReflectExecutionModel::MeshNV,
            5313u32 => ReflectExecutionModel::RayGenerationNV,
            5314u32 => ReflectExecutionModel::IntersectionNV,
            5315u32 => ReflectExecutionModel::AnyHitNV,
            5316u32 => ReflectExecutionModel::ClosestHitNV,
            5317u32 => ReflectExecutionModel::MissNV,
            5318u32 => ReflectExecutionModel::CallableNV,
            _ => ReflectExecutionModel::Unknown,
        },
        None => ReflectExecutionModel::Unknown,
    }
}

/// Copies image traits field by field.
pub fn ffi_to_image_traits(raw: &RawImageTraits) -> (r: ReflectImageTraits)
    ensures
        image_matches(*raw, r),
{
    ReflectImageTraits {
        dim: raw.dim,
        depth: raw.depth,
        arrayed: raw.arrayed,
        ms: raw.ms,
        sampled: raw.sampled,
        image_format: raw.image_format,
    }
}

/// An owned copy of image traits holds the engine's values.
pub open spec fn image_matches(raw: RawImageTraits, out: ReflectImageTraits) -> bool {
    &&& out.dim == raw.dim
    &&& out.depth == raw.depth
    &&& out.arrayed == raw.arrayed
    &&& out.ms == raw.ms
    &&& out.sampled == raw.sampled
    &&& out.image_format == raw.image_format
}

/// Copies a sequence of words into a new vector.
fn copy_words(words: &Vec<u32>) -> (r: Vec<u32>)
    ensures
        r@ == words@,
{
    let mut out: Vec<u32> = Vec::with_capacity(words.len());
    let mut i: usize = 0;
    while i < words.len()
        invariant
            i <= words@.len(),
            out@ == words@.subrange(0, i as int),
        decreases words@.len() - i,
    {
        out.push(words[i]);
        i = i + 1;
    }
    assert(words@.subrange(0, words@.len() as int) =~= words@);
    out
}

/// Copies the array traits of a block member.
pub fn ffi_to_array_traits(raw: &RawArrayTraits) -> (r: ReflectArrayTraits)
    ensures
        r.dims@ == raw.dims@,
        r.stride == raw.stride,
{
    ReflectArrayTraits { dims: copy_words(&raw.dims), stride: raw.stride }
}

/// Copies the array traits of a descriptor binding.
pub fn ffi_to_binding_array_traits(raw: &RawBindingArrayTraits) -> (r: ReflectBindingArrayTraits)
    ensures
        r.dims@ == raw.dims@,
{
    ReflectBindingArrayTraits { dims: copy_words(&raw.dims) }
}

/// An owned block holds the engine's block: the same scalars, the name as
/// text, and for each reported member, in order, an owned copy of it.
pub open spec fn block_matches(raw: RawBlockVariable, out: ReflectBlockVariable) -> bool
    decreases raw,
{
    &&& out.name@ == text_of(raw.name)
    &&& out.offset == raw.offset
    &&& out.absolute_offset == raw.absolute_offset
    &&& out.size == raw.size
    &&& out.padded_size == raw.padded_size
    &&& out.decoration_flags == raw.decoration_flags
    &&& out.array.dims@ == raw.array.dims@
    &&& out.array.stride == raw.array.stride
    &&& out.members@.len() == raw.members@.len()
    &&& forall|i: int|
        #![trigger out.members@[i]]
        0 <= i < raw.members@.len() ==> block_matches(raw.members@[i], out.members@[i])
}

/// Converts a block and, recursively, all of its members.
pub fn ffi_to_block_variable(raw: &RawBlockVariable) -> (r: ReflectBlockVariable)
    ensures
        block_matches(*raw, r),
    decreases raw,
{
    let mut members: Vec<ReflectBlockVariable> = Vec::with_capacity(raw.members.len());
    let mut i: usize = 0;
    while i < raw.members.len()
        invariant
            i <= raw.members@.len(),
            members@.len() == i,
            forall|k: int| 0 <= k < i ==> #[trigger] block_matches(raw.members@[k], members@[k]),
        decreases raw.members@.len() - i,
    {
        let member = ffi_to_block_variable(&raw.members[i]);
        members.push(member);
        i = i + 1;
    }
    let r = ReflectBlockVariable {
        name: ffi_to_string(&raw.name),
        offset: raw.offset,
        absolute_offset: raw.absolute_offset,
        size: raw.size,
        padded_size: raw.padded_size,
        decoration_flags: raw.decoration_flags,
        array: ffi_to_array_traits(&raw.array),
        members,
    };
    proof {
        lemma_block_matches_intro(*raw, r);
    }
    r
}

} // verus!
verus! {

/// An owned binding holds the engine's binding: the same numbers, the name as
/// text, the type codes mapped, the block converted where there is one, and no
/// cross-references.
pub open spec fn binding_matches(raw: RawDescriptorBinding, out: ReflectDescriptorBinding) -> bool {
    &&& out.spirv_id == raw.spirv_id
    &&& out.name@ == text_of(raw.name)
    &&& out.binding == raw.binding
    &&& out.input_attachment_index == raw.input_attachment_index
    &&& out.set == raw.set
    &&& out.descriptor_type == descriptor_type_of(raw.descriptor_type)
    &&& out.resource_type == resource_type_of(raw.resource_type)
    &&& image_matches(raw.image, out.image)
    &&& (out.block is None <==> raw.block is None)
    &&& (raw.block is Some ==> block_matches(raw.block->0, out.block->0))
    &&& out.array.dims@ == raw.array.dims@
    &&& out.count == raw.count
    &&& out.uav_counter_id == raw.uav_counter_id
    &&& out.uav_counter_binding is None
    &&& out.type_description is None
    &&& out.word_offset.binding == raw.word_offset_binding
    &&& out.word_offset.set == raw.word_offset_set
}

/// Converts one descriptor binding, with its block where it has one.
pub fn ffi_to_descriptor_binding(raw: &RawDescriptorBinding) -> (r: ReflectDescriptorBinding)
    ensures
        binding_matches(*raw, r),
{
    let block = match &raw.block {
        Some(b) => Some(ffi_to_block_variable(b)),
        None => None,
    };
    ReflectDescriptorBinding {
        spirv_id: raw.spirv_id,
        name: ffi_to_string(&raw.name),
        binding: raw.binding,
        input_attachment_index: raw.input_attachment_index,
        set: raw.set,
        descriptor_type: ffi_to_descriptor_type(raw.descriptor_type),
        resource_type: ffi_to_resource_type(raw.resource_type),
        image: ffi_to_image_traits(&raw.image),
        block,
        array: ffi_to_binding_array_traits(&raw.array),
        count: raw.count,
        uav_counter_id: raw.uav_counter_id,
        uav_counter_binding: None,
        type_description: None,
        word_offset: ReflectWordOffset {
            binding: raw.word_offset_binding,
            set: raw.word_offset_set,
        },
    }
}

/// An owned set holds the engine's set: its number and, in order, a converted
/// copy of each of its bindings.
pub open spec fn set_matches(raw: RawDescriptorSet, out: ReflectDescriptorSet) -> bool {
    &&& out.set == raw.set
    &&& out.bindings@.len() == raw.bindings@.len()
    &&& forall|i: int|
        #![trigger out.bindings@[i]]
        0 <= i < raw.bindings@.len() ==> binding_matches(raw.bindings@[i], out.bindings@[i])
}

/// Converts one descriptor set with all of its bindings.
pub fn ffi_to_descriptor_set(raw: &RawDescriptorSet) -> (r: ReflectDescriptorSet)
    ensures
        set_matches(*raw, r),
{
    let mut bindings: Vec<ReflectDescriptorBinding> = Vec::with_capacity(raw.bindings.len());
    let mut i: usize = 0;
    while i < raw.bindings.len()
        invariant
            i <= raw.bindings@.len(),
            bindings@.len() == i,
            forall|k: int|
                #![trigger bindings@[k]]
                0 <= k < i ==> binding_matches(raw.bindings@[k], bindings@[k]),
        decreases raw.bindings@.len() - i,
    {
        let binding = ffi_to_descriptor_binding(&raw.bindings[i]);
        bindings.push(binding);
        i = i + 1;
    }
    ReflectDescriptorSet { set: raw.set, bindings }
}

/// A block matches when its scalars, its name and each of its members match.
proof fn lemma_block_matches_intro(raw: RawBlockVariable, out: ReflectBlockVariable)
    requires
        out.name@ == text_of(raw.name),
        out.offset == raw.offset,
        out.absolute_offset == raw.absolute_offset,
        out.size == raw.size,
        out.padded_size == raw.padded_size,
        out.decoration_flags == raw.decoration_flags,
        out.array.dims@ == raw.array.dims@,
        out.array.stride == raw.array.stride,
        out.members@.len() == raw.members@.len(),
        forall|i: int|
            #![trigger out.members@[i]]
            0 <= i < raw.members@.len() ==> block_matches(raw.members@[i], out.members@[i]),
    ensures
        block_matches(raw, out),
{
}

/// A binding without a block is converted into one without a block; a binding
/// with a block into one whose block has as many members as the engine
/// reported, each of them converted in turn, at every depth.
pub proof fn lemma_binding_block_shape(raw: RawDescriptorBinding, out: ReflectDescriptorBinding)
    requires
        binding_matches(raw, out),
    ensures
        raw.block is None ==> out.block is None,
        raw.block is Some ==> {
            &&& out.block is Some
            &&& out.block->0.members@.len() == raw.block->0.members@.len()
            &&& forall|i: int|
                #![trigger out.block->0.members@[i]]
                0 <= i < raw.block->0.members@.len() ==> block_matches(
                    raw.block->0.members@[i],
                    out.block->0.members@[i],
                )
        },
{
}

} // verus!
