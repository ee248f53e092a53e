//! The shader module: owner of a decoded header, and the queries over it.
use vstd::prelude::*;
use crate::convert::{
    execution_model_of, ffi_to_descriptor_set, ffi_to_execution_model, ffi_to_generator,
    ffi_to_source_language, ffi_to_string, generator_of, set_matches, source_language_of, text_of,
};
use crate::foreign::{enumerate_descriptor_sets, RawShaderModule};
use crate::result::{ReflectError, RESULT_SUCCESS};
use crate::types::{
    ReflectDescriptorSet, ReflectExecutionModel, ReflectGenerator, ReflectShaderStageFlags,
    ReflectSourceLanguage, SHADER_STAGE_ALL_BITS,
};

verus! {

/// A decoded shader module. It owns at most one header, which it releases
/// once; a module without one answers every query with an empty value.
pub struct ShaderModule {
    module: Option<RawShaderModule>,
}

/// What releasing does to the header a module holds: afterwards there is none,
/// and something was released exactly when there was one.
pub open spec fn release_outcome(handle: Option<RawShaderModule>) -> (Option<RawShaderModule>, bool) {
    (None, handle is Some)
}

impl ShaderModule {
    #[verifier::type_invariant]
    spec fn inv(&self) -> bool {
        match self.module {
            Some(m) => m.wf(),
            None => true,
        }
    }

    /// The decoded header that this module owns, if any.
    pub closed spec fn handle(&self) -> Option<RawShaderModule> {
        self.module
    }

    /// Size in bytes of the decoded binary; 0 without a header.
    pub open spec fn code_size_spec(&self) -> usize {
        match self.handle() {
            Some(m) => m.spirv_size,
            None => 0,
        }
    }

    /// The words of the decoded binary; empty without a header.
    pub open spec fn code_spec(&self) -> Seq<u32> {
        match self.handle() {
            Some(m) => m.spirv_code@.subrange(0, (m.spirv_size / 4) as int),
            None => Seq::empty(),
        }
    }

    /// The number of descriptor sets in use; 0 without a header.
    pub open spec fn set_count(&self) -> u32 {
        match self.handle() {
            Some(m) => m.descriptor_set_count,
            None => 0,
        }
    }

    /// `sets` is, in the engine's order, a converted copy of each descriptor
    /// set in use.
    pub open spec fn sets_converted(&self, sets: Seq<ReflectDescriptorSet>) -> bool {
        &&& sets.len() == self.set_count()
        &&& forall|i: int|
            #![trigger sets[i]]
            0 <= i < sets.len() ==> set_matches(self.handle()->0.descriptor_sets@[i], sets[i])
    }

    /// The text of the entry point's name; empty without a header.
    pub open spec fn entry_point_name_spec(&self) -> Seq<char> {
        match self.handle() {
            Some(m) => text_of(m.entry_point_name),
            None => Seq::empty(),
        }
    }

    /// The shader stages; none without a header.
    pub open spec fn shader_stage_spec(&self) -> u32 {
        match self.handle() {
            Some(m) => m.shader_stage & SHADER_STAGE_ALL_BITS,
            None => 0,
        }
    }

    /// The generator; `Unknown` without a header.
    pub open spec fn generator_spec(&self) -> ReflectGenerator {
        match self.handle() {
            Some(m) => generator_of(m.generator),
            None => ReflectGenerator::Unknown,
        }
    }

    /// The source language; `Unknown` without a header.
    pub open spec fn source_language_spec(&self) -> ReflectSourceLanguage {
        match self.handle() {
            Some(m) => source_language_of(m.source_language),
            None => ReflectSourceLanguage::Unknown,
        }
    }

    /// The source language version; 0 without a header.
    pub open spec fn source_language_version_spec(&self) -> u32 {
        match self.handle() {
            Some(m) => m.source_language_version,
            None => 0,
        }
    }

    /// The text of the source file name; empty without a header.
    pub open spec fn source_file_spec(&self) -> Seq<char> {
        match self.handle() {
            Some(m) => text_of(m.source_file),
            None => Seq::empty(),
        }
    }

    /// The source text embedded in the module; empty without a header.
    pub open spec fn source_text_spec(&self) -> Seq<char> {
        match self.handle() {
            Some(m) => text_of(m.source_source),
            None => Seq::empty(),
        }
    }

    /// The execution model; `Unknown` without a header.
    pub open spec fn execution_model_spec(&self) -> ReflectExecutionModel {
        match self.handle() {
            Some(m) => execution_model_of(m.spirv_execution_model),
            None => ReflectExecutionModel::Unknown,
        }
    }

    /// A module that holds no header.
    pub fn empty() -> (r: ShaderModule)
        ensures
            r.handle() is None,
    {
        ShaderModule { module: None }
    }

    /// Size in bytes of the decoded binary.
    pub fn get_code_size(&self) -> (r: usize)
        ensures
            r == self.code_size_spec(),
    {
        match &self.module {
            Some(m) => m.spirv_size,
            None => 0,
        }
    }

    /// The decoded binary as 32-bit words, borrowed from the module.
    pub fn get_code_slice(&self) -> (r: &[u32])
        ensures
            r@ == self.code_spec(),
            r@.len() == self.code_size_spec() / 4,
    {
        proof {
            use_type_invariant(self);
        }
        match &self.module {
            Some(m) => vstd::slice::slice_subrange(m.spirv_code.as_slice(), 0, m.spirv_size / 4),
            None => &[],
        }
    }

    /// The tool that generated the module.
    pub fn get_generator(&self) -> (r: ReflectGenerator)
        ensures
            r == self.generator_spec(),
    {
        match &self.module {
            Some(m) => ffi_to_generator(m.generator),
            None => ReflectGenerator::Unknown,
        }
    }

    /// The name of the module's entry point.
    pub fn get_entry_point_name(&self) -> (r: String)
        ensures
            r@ == self.entry_point_name_spec(),
    {
        match &self.module {
            Some(m) => ffi_to_string(&m.entry_point_name),
            None => String::new(),
        }
    }

    /// The shader stages of the module's entry point.
    pub fn get_shader_stage(&self) -> (r: ReflectShaderStageFlags)
        ensures
            r.bits == self.shader_stage_spec(),
    {
        match &self.module {
            Some(m) => ReflectShaderStageFlags::from_bits_truncate(m.shader_stage),
            None => ReflectShaderStageFlags::empty(),
        }
    }

    /// The language the module was compiled from.
    pub fn get_source_language(&self) -> (r: ReflectSourceLanguage)
        ensures
            r == self.source_language_spec(),
    {
        match &self.module {
            Some(m) => ffi_to_source_language(m.source_language),
            None => ReflectSourceLanguage::Unknown,
        }
    }

    /// The version of the source language.
    pub fn get_source_language_version(&self) -> (r: u32)
        ensures
            r == self.source_language_version_spec(),
    {
        match &self.module {
            Some(m) => m.source_language_version,
            None => 0,
        }
    }

    /// The name of the source file.
    pub fn get_source_file(&self) -> (r: String)
        ensures
            r@ == self.source_file_spec(),
    {
        match &self.module {
            Some(m) => ffi_to_string(&m.source_file),
            None => String::new(),
        }
    }

    /// The source text embedded in the module.
    pub fn get_source_text(&self) -> (r: String)
        ensures
            r@ == self.source_text_spec(),
    {
        match &self.module {
            Some(m) => ffi_to_string(&m.source_source),
            None => String::new(),
        }
    }

    /// The execution model of the module's entry point.
    pub fn get_spirv_execution_model(&self) -> (r: ReflectExecutionModel)
        ensures
            r == self.execution_model_spec(),
    {
        match &self.module {
            Some(m) => ffi_to_execution_model(m.spirv_execution_model),
            None => ReflectExecutionModel::Unknown,
        }
    }

    /// The number of descriptor sets, from the engine's count query; 0 without
    /// a header.
    pub fn descriptor_set_count(&self) -> (r: Result<u32, ReflectError>)
        ensures
            r == Ok::<u32, ReflectError>(self.set_count()),
    {
        proof {
            use_type_invariant(self);
        }
        match &self.module {
            Some(module) => {
                let mut count: u32 = 0;
                let mut no_buffer: Option<Vec<usize>> = None;
                let status = enumerate_descriptor_sets(module, &mut count, &mut no_buffer);
                if status == RESULT_SUCCESS {
                    Ok(count)
                } else {
                    Err(ReflectError::EnumerationFailure(status))
                }
            },
            None => Ok(0),
        }
    }

    /// The descriptor sets, converted into owned values: the engine is asked
    /// for the count, then fills a buffer of that many entries, and each set it
    /// names is converted with all of its bindings.
    pub fn descriptor_sets(&self) -> (r: Result<Vec<ReflectDescriptorSet>, ReflectError>)
        ensures
            r is Ok,
            self.sets_converted(r->Ok_0@),
    {
        proof {
            use_type_invariant(self);
        }
        let count = match self.descriptor_set_count() {
            Ok(c) => c,
            Err(e) => return Err(e),
        };
        let module = match &self.module {
            Some(m) => m,
            None => return Ok(Vec::new()),
        };
        if count == 0 {
            return Ok(Vec::new());
        }
        let mut slots: Vec<usize> = Vec::with_capacity(count as usize);
        while slots.len() < count as usize
            invariant
                slots@.len() <= count,
            decreases count - slots@.len(),
        {
            slots.push(0);
        }
        let mut buffer: Option<Vec<usize>> = Some(slots);
        let mut filled_count: u32 = count;
        let status = enumerate_descriptor_sets(module, &mut filled_count, &mut buffer);
        if status != RESULT_SUCCESS {
            return Err(ReflectError::EnumerationFailure(status));
        }
        let filled = buffer.unwrap();
        let n: u32 = if filled_count < count { filled_count } else { count };
        let mut sets: Vec<ReflectDescriptorSet> = Vec::with_capacity(n as usize);
        let mut i: usize = 0;
        while i < n as usize
            invariant
                n == count,
                count == module.descriptor_set_count,
                module.wf(),
                filled@.len() == count,
                forall|k: int| 0 <= k < count ==> filled@[k] == k as usize,
                i <= n,
                sets@.len() == i,
                forall|k: int|
                    #![trigger sets@[k]]
                    0 <= k < i ==> set_matches(module.descriptor_sets@[k], sets@[k]),
            decreases n - i,
        {
            let set = ffi_to_descriptor_set(&module.descriptor_sets[filled[i]]);
            sets.push(set);
            i = i + 1;
        }
        Ok(sets)
    }

    /// Releases the header, if the module still holds one; tells whether it did.
    /// A second release finds nothing to release.
    pub fn release(&mut self) -> (r: bool)
        ensures
            (final(self).handle(), r) == release_outcome(old(self).handle()),
        opens_invariants none
        no_unwind
    {
        let had = match &self.module {
            Some(_) => true,
            None => false,
        };
        self.module = None;
        had
    }
} // impl ShaderModule

impl Drop for ShaderModule {
    fn drop(&mut self)
        opens_invariants none
        no_unwind
    {
        self.release();
    }
}

/// A module without a header (as after a failed decode, or a release)
/// answers every query with its empty value: zero, empty text, no stage,
/// `Unknown`, no code and no descriptor sets.
pub proof fn lemma_empty_module_defaults(m: ShaderModule)
    requires
        m.handle() is None,
    ensures
        m.code_size_spec() == 0,
        m.code_spec() == Seq::<u32>::empty(),
        m.generator_spec() == ReflectGenerator::Unknown,
        m.entry_point_name_spec() == Seq::<char>::empty(),
        m.shader_stage_spec() == 0,
        m.source_language_spec() == ReflectSourceLanguage::Unknown,
        m.source_language_version_spec() == 0,
        m.source_file_spec() == Seq::<char>::empty(),
        m.source_text_spec() == Seq::<char>::empty(),
        m.execution_model_spec() == ReflectExecutionModel::Unknown,
        m.set_count() == 0,
        forall|sets: Seq<ReflectDescriptorSet>| m.sets_converted(sets) ==> sets.len() == 0,
{
}

/// The descriptor sets that a module hands out are as many as its count query
/// reports, and carry, in the order the engine fills them, the set numbers of
/// the sets in use.
pub proof fn lemma_sets_follow_count(m: ShaderModule, sets: Seq<ReflectDescriptorSet>)
    requires
        m.sets_converted(sets),
    ensures
        sets.len() == m.set_count(),
        forall|i: int|
            0 <= i < sets.len() ==> #[trigger] sets[i].set == m.handle()->0.descriptor_sets@[i].set,
{
}

/// Releasing destroys the header exactly once: the first release finds it,
/// leaves none behind, and a second release finds nothing to destroy.
pub proof fn lemma_release_once(handle: Option<RawShaderModule>)
    ensures
        release_outcome(handle).1 == (handle is Some),
        release_outcome(handle).0 is None,
        release_outcome(release_outcome(handle).0) == (None::<RawShaderModule>, false),
{
}

impl Default for ShaderModule {
    fn default() -> (r: ShaderModule)
        ensures
            r.handle() is None,
    {
        ShaderModule { module: None }
    }
}

/// Takes ownership of what the engine's decode call produced: its status and
/// the header it filled. On success the module owns the header; otherwise the
/// header is dropped and the status is reported as a decode failure.
pub fn create_shader_module(result: i32, module: RawShaderModule) -> (r: Result<
    ShaderModule,
    ReflectError,
>)
    requires
        result == RESULT_SUCCESS ==> module.wf(),
    ensures
        result == RESULT_SUCCESS ==> r is Ok && r->Ok_0.handle() == Some(module),
        result != RESULT_SUCCESS ==> r == Err::<ShaderModule, ReflectError>(
            ReflectError::DecodeFailure(result),
        ),
{
    if result == RESULT_SUCCESS {
        Ok(ShaderModule { module: Some(module) })
    } else {
        Err(ReflectError::DecodeFailure(result))
    }
}

} // verus!
