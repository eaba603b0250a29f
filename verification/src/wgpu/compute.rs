use vstd::prelude::*;

use super::shader::{compile_wgsl, CompiledShader};

verus! {

/// The label of the demo compute shader.
pub const LABEL: &'static str = "slang test";

/// The demo compute pass that fills the texture shown in the shader pane.
pub struct ComputeModule {
    shader: CompiledShader,
}

impl ComputeModule {
    /// The WGSL text the current shader was compiled from.
    pub closed spec fn shader_source(&self) -> Seq<char> {
        self.shader.source()
    }

    /// The label the current shader was compiled with.
    pub closed spec fn shader_label(&self) -> Seq<char> {
        self.shader.label()
    }

    /// The compiled shader the module holds.
    pub closed spec fn current_shader(&self) -> ::wgpu::ShaderModule {
        self.shader.module_spec()
    }

    /// Compiles `source` on `device`; `None` when the device reports that it does not
    /// compile.
    pub fn new(device: &::wgpu::Device, source: &str) -> (r: Option<Self>)
        ensures
            r matches Some(m) ==> m.shader_source() == source@ && m.shader_label() == LABEL@,
    {
        match compile_wgsl(device, LABEL, source) {
            Some(shader) => Some(ComputeModule { shader }),
            None => None,
        }
    }

    /// The compiled shader.
    pub fn shader(&self) -> (m: &::wgpu::ShaderModule)
        ensures
            *m == self.current_shader(),
    {
        self.shader.module()
    }
}

} // verus!
