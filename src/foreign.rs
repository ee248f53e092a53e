//! The records that the reflection engine fills in, held as plain values.
//!
//! A nullable C string is an `Option` of its bytes (without the terminator); a
//! pointer and a count is a `Vec`. The module header keeps the engine's
//! fixed-capacity array of descriptor sets together with the count of the
//! entries in use.
use vstd::prelude::*;
use crate::result::{RESULT_ERROR_COUNT_MISMATCH, RESULT_SUCCESS};

verus! {

/// Properties of an image resource.
#[derive(Clone, Copy, Debug, PartialEq, Eq, Structural)]
pub struct RawImageTraits {
    pub dim: u32,
    pub depth: u32,
    pub arrayed: u32,
    pub ms: u32,
    pub sampled: u32,
    pub image_format: u32,
}

/// Array dimensions and stride of a block member.
pub struct RawArrayTraits {
    pub dims: Vec<u32>,
    pub stride: u32,
}

/// Array dimensions of a descriptor binding.
pub struct RawBindingArrayTraits {
    pub dims: Vec<u32>,
}

/// A block (uniform or storage buffer, push constants) or one of its members.
pub struct RawBlockVariable {
    pub name: Option<Vec<u8>>,
    pub offset: u32,
    pub absolute_offset: u32,
    pub size: u32,
    pub padded_size: u32,
    pub decoration_flags: u32,
    pub array: RawArrayTraits,
    pub members: Vec<RawBlockVariable>,
}

/// One descriptor binding as the engine describes it.
pub struct RawDescriptorBinding {
    pub spirv_id: u32,
    pub name: Option<Vec<u8>>,
    pub binding: u32,
    pub input_attachment_index: u32,
    pub set: u32,
    pub descriptor_type: u32,
    pub resource_type: u32,
    pub image: RawImageTraits,
    /// Absent where the binding is not backed by a block (a sampler, an image).
    pub block: Option<RawBlockVariable>,
    pub array: RawBindingArrayTraits,
    pub count: u32,
    pub uav_counter_id: u32,
    /// Whether the engine linked a counter binding to this one.
    pub has_uav_counter_binding: bool,
    /// Whether the engine linked a type description to this binding.
    pub has_type_description: bool,
    pub word_offset_binding: u32,
    pub word_offset_set: u32,
}

/// One descriptor set with its bindings.
pub struct RawDescriptorSet {
    pub set: u32,
    pub bindings: Vec<RawDescriptorBinding>,
}

/// The header of a decoded module.
pub struct RawShaderModule {
    pub generator: u32,
    pub entry_point_name: Option<Vec<u8>>,
    pub shader_stage: u32,
    pub source_language: i32,
    pub source_language_version: u32,
    pub source_file: Option<Vec<u8>>,
    pub source_source: Option<Vec<u8>>,
    pub spirv_execution_model: i32,
    /// Size in bytes of the binary that was decoded.
    pub spirv_size: usize,
    /// The decoded binary, as 32-bit words.
    pub spirv_code: Vec<u32>,
    pub descriptor_set_count: u32,
    /// The fixed-capacity array; only the first `descriptor_set_count` are in use.
    pub descriptor_sets: Vec<RawDescriptorSet>,
}

impl RawShaderModule {
    /// The header is consistent: the set count is within the array, and the
    /// code holds every word of the binary.
    pub open spec fn wf(&self) -> bool {
        &&& self.descriptor_set_count <= self.descriptor_sets@.len()
        &&& self.spirv_size / 4 <= self.spirv_code@.len()
    }
}

/// The contents of an optional output buffer.
pub open spec fn buffer_view(b: Option<Vec<usize>>) -> Option<Seq<usize>> {
    match b {
        Some(v) => Some(v@),
        None => None,
    }
}

/// What the engine's descriptor-set enumeration does: with no output buffer it
/// reports the count; with a buffer it demands that the count passed in equal
/// the module's and writes, in order, the position of each set in use.
pub open spec fn enumeration_outcome(
    module: RawShaderModule,
    count_in: u32,
    buffer_in: Option<Seq<usize>>,
) -> (i32, u32, Option<Seq<usize>>) {
    match buffer_in {
        None => (RESULT_SUCCESS, module.descriptor_set_count, None),
        Some(b) => if count_in != module.descriptor_set_count {
            (RESULT_ERROR_COUNT_MISMATCH, count_in, Some(b))
        } else {
            (
                RESULT_SUCCESS,
                count_in,
                Some(
                    Seq::new(b.len(), |i: int| if i < count_in { i as usize } else { b[i] }),
                ),
            )
        },
    }
}

/// Enumerates the descriptor sets of a decoded module.
///
/// `buffer` stands for the caller's output buffer: `None` asks for the count
/// alone; `Some` must have room for `*count` entries.
pub fn enumerate_descriptor_sets(
    module: &RawShaderModule,
    count: &mut u32,
    buffer: &mut Option<Vec<usize>>,
) -> (r: i32)
    requires
        module.wf(),
        old(buffer).is_some() ==> *old(count) <= old(buffer).unwrap()@.len(),
    ensures
        (r, *final(count), buffer_view(*final(buffer))) == enumeration_outcome(
            *module,
            *old(count),
            buffer_view(*old(buffer)),
        ),
{
    match buffer {
        None => {
            *count = module.descriptor_set_count;
            RESULT_SUCCESS
        },
        Some(b) => {
            if *count != module.descriptor_set_count {
                return RESULT_ERROR_COUNT_MISMATCH;
            }
            let n = *count;
            let ghost b0 = b@;
            let mut i: u32 = 0;
            while i < n
                invariant
                    n <= b@.len(),
                    b@.len() == b0.len(),
                    i <= n,
                    forall|k: int| 0 <= k < i ==> b@[k] == k as usize,
                    forall|k: int| n <= k < b0.len() ==> b@[k] == b0[k],
                decreases n - i,
            {
                b.set(i as usize, i as usize);
                i = i + 1;
            }
            assert(b@ =~= Seq::new(b0.len(), |k: int| if k < n { k as usize } else { b0[k] }));
            RESULT_SUCCESS
        },
    }
}

} // verus!
