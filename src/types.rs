//! The owned reflection data handed to callers, detached from the engine's memory.
use vstd::prelude::*;

verus! {

/// The tool that generated a module, from the generator word of its header.
#[derive(Clone, Copy, Debug, PartialEq, Eq, Structural)]
pub enum ReflectGenerator {
    Unknown,
    KhronosLlvmSpirvTranslator,
    KhronosSpirvToolsAssembler,
    KhronosGlslangReferenceFrontEnd,
    GoogleShadercOverGlslang,
    GoogleSpiregg,
    GoogleRspirv,
    XLegendMesaMesairSpirvTranslator,
    KhronosSpirvToolsLinker,
    WineVkd3dShaderCompiler,
    ClayClayShaderCompiler,
}

/// The source language a module was compiled from.
#[derive(Clone, Copy, Debug, PartialEq, Eq, Structural)]
pub enum ReflectSourceLanguage {
    Unknown,
    Essl,
    Glsl,
    OpenClC,
    OpenClCpp,
    Hlsl,
}

/// The execution model of a module's entry point.
#[derive(Clone, Copy, Debug, PartialEq, Eq, Structural)]
pub enum ReflectExecutionModel {
    Unknown,
    Vertex,
    TessellationControl,
    TessellationEvaluation,
    Geometry,
    Fragment,
    GLCompute,
    Kernel,
    TaskNV,
    MeshNV,
    RayGenerationNV,
    IntersectionNV,
    AnyHitNV,
    ClosestHitNV,
    MissNV,
    CallableNV,
}

pub const SHADER_STAGE_VERTEX_BIT: u32 = 0x01;
pub const SHADER_STAGE_TESSELLATION_CONTROL_BIT: u32 = 0x02;
pub const SHADER_STAGE_TESSELLATION_EVALUATION_BIT: u32 = 0x04;
pub const SHADER_STAGE_GEOMETRY_BIT: u32 = 0x08;
pub const SHADER_STAGE_FRAGMENT_BIT: u32 = 0x10;
pub const SHADER_STAGE_COMPUTE_BIT: u32 = 0x20;
/// Every stage bit that this library knows.
pub const SHADER_STAGE_ALL_BITS: u32 = 0x3f;

/// The shader stages of a module, as a set of bits.
#[derive(Clone, Copy, Debug, PartialEq, Eq, Structural)]
pub struct ReflectShaderStageFlags {
    pub bits: u32,
}

impl ReflectShaderStageFlags {
    /// No stage.
    pub fn empty() -> (r: ReflectShaderStageFlags)
        ensures
            r.bits == 0,
    {
        ReflectShaderStageFlags { bits: 0 }
    }

    /// The stages among `bits` that this library knows; other bits are dropped.
    pub fn from_bits_truncate(bits: u32) -> (r: ReflectShaderStageFlags)
        ensures
            r.bits == bits & SHADER_STAGE_ALL_BITS,
    {
        ReflectShaderStageFlags { bits: bits & SHADER_STAGE_ALL_BITS }
    }

    /// Whether every stage of `other` is among these.
    pub fn contains(&self, other: ReflectShaderStageFlags) -> (r: bool)
        ensures
            r == (self.bits & other.bits == other.bits),
    {
        self.bits & other.bits == other.bits
    }
}

/// The kind of a descriptor.
#[derive(Clone, Copy, Debug, PartialEq, Eq, Structural)]
pub enum ReflectDescriptorType {
    Undefined,
    Sampler,
    CombinedImageSampler,
    SampledImage,
    StorageImage,
    UniformTexelBuffer,
    StorageTexelBuffer,
    UniformBuffer,
    StorageBuffer,
    UniformBufferDynamic,
    StorageBufferDynamic,
    InputAttachment,
}

/// How a resource is accessed.
#[derive(Clone, Copy, Debug, PartialEq, Eq, Structural)]
pub enum ReflectResourceType {
    Undefined,
    Sampler,
    ConstantBufferView,
    ShaderResourceView,
    UnorderedAccessView,
}

/// Properties of an image resource, as the engine's codes.
#[derive(Clone, Copy, Debug, PartialEq, Eq, Structural)]
pub struct ReflectImageTraits {
    pub dim: u32,
    pub depth: u32,
    pub arrayed: u32,
    pub ms: u32,
    pub sampled: u32,
    pub image_format: u32,
}

/// Array dimensions and stride of a block member.
#[derive(Debug)]
pub struct ReflectArrayTraits {
    pub dims: Vec<u32>,
    pub stride: u32,
}

/// Array dimensions of a descriptor binding.
#[derive(Debug)]
pub struct ReflectBindingArrayTraits {
    pub dims: Vec<u32>,
}

/// A block, or a member of one, with its members in turn.
#[derive(Debug)]
pub struct ReflectBlockVariable {
    pub name: String,
    pub offset: u32,
    pub absolute_offset: u32,
    pub size: u32,
    pub padded_size: u32,
    pub decoration_flags: u32,
    pub array: ReflectArrayTraits,
    pub members: Vec<ReflectBlockVariable>,
}

/// A description of a type, shared between bindings.
#[derive(Debug)]
pub struct ReflectTypeDescription {
    pub id: u32,
    pub name: String,
    pub struct_member_name: String,
    pub type_flags: u32,
    pub decoration_flags: u32,
}

/// Word offsets, in the code, of a binding's binding and set decorations.
#[derive(Clone, Copy, Debug, PartialEq, Eq, Structural)]
pub struct ReflectWordOffset {
    pub binding: u32,
    pub set: u32,
}

/// One descriptor binding.
#[derive(Debug)]
pub struct ReflectDescriptorBinding {
    pub spirv_id: u32,
    pub name: String,
    pub binding: u32,
    pub input_attachment_index: u32,
    pub set: u32,
    pub descriptor_type: ReflectDescriptorType,
    pub resource_type: ReflectResourceType,
    pub image: ReflectImageTraits,
    /// Absent where the binding is not backed by a block.
    pub block: Option<ReflectBlockVariable>,
    pub array: ReflectBindingArrayTraits,
    pub count: u32,
    pub uav_counter_id: u32,
    /// The paired counter binding; cross-references are not resolved, so this
    /// is always absent.
    pub uav_counter_binding: Option<Box<ReflectDescriptorBinding>>,
    /// The binding's type; cross-references are not resolved, so this is
    /// always absent.
    pub type_description: Option<ReflectTypeDescription>,
    /// Word offsets of the binding and set decorations in the code.
    pub word_offset: ReflectWordOffset,
}

/// One descriptor set with its bindings, in the engine's order.
#[derive(Debug)]
pub struct ReflectDescriptorSet {
    pub set: u32,
    pub bindings: Vec<ReflectDescriptorBinding>,
}

} // verus!
