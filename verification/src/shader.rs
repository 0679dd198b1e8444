//! Shader assets, looked up by handle when a module is first materialized.

use crate::registry::Registry;
use crate::resource::ShaderHandle;
use vstd::prelude::*;

verus! {

/// The pipeline stage a shader is written for.
#[derive(Clone, Copy, Debug, PartialEq, Eq, Structural, Hash)]
pub enum ShaderStage {
    Vertex,
    Fragment,
    Compute,
}

/// A shader asset: its stage and its source bytes.
pub struct Shader {
    pub stage: ShaderStage,
    pub source: Vec<u8>,
}

/// The shader assets known to the caller.
pub struct ShaderStorage {
    pub shaders: Registry<ShaderHandle, Shader>,
}

impl ShaderStorage {
    /// The asset stored under each handle.
    pub open spec fn view(&self) -> Map<ShaderHandle, Shader> {
        self.shaders@
    }

    pub fn new() -> (storage: Self)
        ensures
            storage@ == Map::<ShaderHandle, Shader>::empty(),
    {
        ShaderStorage { shaders: Registry::new() }
    }

    /// Stores `shader` under `handle`, in place of what was there.
    pub fn add(&mut self, handle: ShaderHandle, shader: Shader)
        ensures
            final(self)@ == old(self)@.insert(handle, shader),
    {
        self.shaders.insert(handle, shader);
    }

    /// The asset stored under `handle`, if any.
    pub fn get(&self, handle: ShaderHandle) -> (shader: Option<&Shader>)
        ensures
            match shader {
                Some(s) => self@.contains_key(handle) && *s == self@[handle],
                None => !self@.contains_key(handle),
            },
    {
        self.shaders.get(&handle)
    }
}

} // verus!
