use vstd::prelude::*;

use super::shader::{compile_wgsl, CompiledShader};

verus! {

/// The label of the warp module's shader.
pub const LABEL: &'static str = "warp module";

/// The compute pass that warps a labelled quadrilateral of an image onto a rectangle.
pub struct WarpModule {
    shader: CompiledShader,
}

impl WarpModule {
    /// The WGSL text the current shader was compiled from.
    pub closed spec fn shader_source(&self) -> Seq<char> {
        self.shader.source()
    }

    /// The label the current shader was compiled with.
    pub closed spec fn shader_label(&self) -> Seq<char> {
        self.shader.label()
    }

    /// The compiled shader the module holds.
    pub closed spec fn current_shader(&self) -> ::wgpu::ShaderModule {
        self.shader.module_spec()
    }

    /// Compiles `source` on `device`; `None` when the device reports that it does not
    /// compile.
    pub fn new(device: &::wgpu::Device, source: &str) -> (r: Option<Self>)
        ensures
            r matches Some(m) ==> m.shader_source() == source@ && m.shader_label() == LABEL@,
    {
        match compile_wgsl(device, LABEL, source) {
            Some(shader) => Some(WarpModule { shader }),
            None => None,
        }
    }

    /// Replaces the shader by one compiled from `source`, and reports whether it did; a
    /// text that does not compile leaves the module as it was.
    pub fn reload(&mut self, device: &::wgpu::Device, source: &str) -> (ok: bool)
        ensures
            ok ==> final(self).shader_source() == source@ && final(self).shader_label() == LABEL@,
            !ok ==> *final(self) == *old(self),
    {
        match compile_wgsl(device, LABEL, source) {
            Some(shader) => {
                self.shader = shader;
                true
            },
            None => false,
        }
    }

    /// The compiled shader.
    pub fn shader(&self) -> (m: &::wgpu::ShaderModule)
        ensures
            *m == self.current_shader(),
    {
        self.shader.module()
    }
}

} // verus!
