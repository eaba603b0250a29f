use vstd::prelude::*;

use super::shader::{compile_wgsl, CompiledShader};
use super::{machine_is_little_endian, word_bytes, words_as_bytes, words_bytes};

verus! {

/// The label of both shaders of the render module.
pub const LABEL: &'static str = "render module";

/// The two compute passes of the petal renderer: `combine` copies one petal
/// texture into the atlas, `shader` renders the petals from the atlas.
pub struct RenderModule {
    combine: CompiledShader,
    shader: CompiledShader,
}

impl RenderModule {
    /// The WGSL texts of the render shader and of the combine shader, in that order.
    pub closed spec fn shader_sources(&self) -> (Seq<char>, Seq<char>) {
        (self.shader.source(), self.combine.source())
    }

    /// The labels of the render shader and of the combine shader, in that order.
    pub closed spec fn shader_labels(&self) -> (Seq<char>, Seq<char>) {
        (self.shader.label(), self.combine.label())
    }

    /// The compiled render shader the module holds.
    pub closed spec fn current_shader(&self) -> ::wgpu::ShaderModule {
        self.shader.module_spec()
    }

    /// The compiled combine shader the module holds.
    pub closed spec fn current_combine_shader(&self) -> ::wgpu::ShaderModule {
        self.combine.module_spec()
    }

    /// Compiles the render shader from `render_source` and then the combine shader
    /// from `combine_source` on `device`; `None` when the device reports that either
    /// does not compile.
    pub fn new(device: &::wgpu::Device, render_source: &str, combine_source: &str) -> (r: Option<
        Self,
    >)
        ensures
            r matches Some(m) ==> m.shader_sources() == (render_source@, combine_source@)
                && m.shader_labels() == (LABEL@, LABEL@),
    {
        let shader = match compile_wgsl(device, LABEL, render_source) {
            Some(s) => s,
            None => return None,
        };
        let combine = match compile_wgsl(device, LABEL, combine_source) {
            Some(c) => c,
            None => return None,
        };
        Some(RenderModule { combine, shader })
    }

    /// Replaces the render shader by one compiled from `render_source` and the combine
    /// shader by one compiled from `combine_source`, and reports whether it did; when
    /// either text does not compile the module stays as it was.
    pub fn reload(&mut self, device: &::wgpu::Device, render_source: &str, combine_source: &str) -> (ok: bool)
        ensures
            ok ==> final(self).shader_sources() == (render_source@, combine_source@)
                && final(self).shader_labels() == (LABEL@, LABEL@),
            !ok ==> *final(self) == *old(self),
    {
        let shader = match compile_wgsl(device, LABEL, render_source) {
            Some(s) => s,
            None => return false,
        };
        let combine = match compile_wgsl(device, LABEL, combine_source) {
            Some(c) => c,
            None => return false,
        };
        self.shader = shader;
        self.combine = combine;
        true
    }

    /// The compiled render shader.
    pub fn shader(&self) -> (m: &::wgpu::ShaderModule)
        ensures
            *m == self.current_shader(),
    {
        self.shader.module()
    }

    /// The compiled combine shader.
    pub fn combine_shader(&self) -> (m: &::wgpu::ShaderModule)
        ensures
            *m == self.current_combine_shader(),
    {
        self.combine.module()
    }
}

/// The uniform block of the combine pass: the cell offset padded out to four words,
/// as the bytes the GPU reads (each word in the machine's byte order).
pub fn combine_uniform_bytes(offset: (u32, u32)) -> (bytes: Vec<u8>)
    ensures
        bytes@ == words_bytes(seq![offset.0, offset.1, 0u32, 0u32], true) || bytes@
            == words_bytes(seq![offset.0, offset.1, 0u32, 0u32], false),
        bytes@ == words_bytes(seq![offset.0, offset.1, 0u32, 0u32], machine_is_little_endian()),
{
    let words = [offset.0, offset.1, 0, 0];
    assert(words@ =~= seq![offset.0, offset.1, 0u32, 0u32]);
    words_as_bytes(words)
}

/// The combine uniforms are the cell offset's two words followed by eight zero bytes,
/// every word in the machine's one byte order whatever the offset: the bytes for two
/// offsets agree exactly where the offsets' words agree.
pub proof fn law_combine_uniform_layout(offset: (u32, u32), other: (u32, u32))
    ensures
        ({
            let little = machine_is_little_endian();
            let b = words_bytes(seq![offset.0, offset.1, 0u32, 0u32], little);
            let c = words_bytes(seq![other.0, other.1, 0u32, 0u32], little);
            &&& b.len() == 16
            &&& b.subrange(0, 4) == word_bytes(offset.0, little)
            &&& b.subrange(4, 8) == word_bytes(offset.1, little)
            &&& b.subrange(8, 16) == seq![0u8, 0u8, 0u8, 0u8, 0u8, 0u8, 0u8, 0u8]
            &&& (offset.0 == other.0 ==> b.subrange(0, 4) == c.subrange(0, 4))
            &&& b.subrange(8, 16) == c.subrange(8, 16)
        }),
{
    let little = machine_is_little_endian();
    super::law_words_bytes_layout(offset.0, offset.1, 0, 0, little);
    super::law_words_bytes_layout(other.0, other.1, 0, 0, little);
    super::law_word_bytes_order(0);
    super::law_word_bytes_order(offset.0);
    super::law_word_bytes_order(offset.1);
    let b = words_bytes(seq![offset.0, offset.1, 0u32, 0u32], little);
    let c = words_bytes(seq![other.0, other.1, 0u32, 0u32], little);
    assert(b.subrange(0, 4) =~= word_bytes(offset.0, little));
    assert(b.subrange(4, 8) =~= word_bytes(offset.1, little));
    assert(b.subrange(8, 16) =~= seq![0u8, 0u8, 0u8, 0u8, 0u8, 0u8, 0u8, 0u8]);
    assert(c.subrange(0, 4) =~= word_bytes(other.0, little));
    assert(c.subrange(8, 16) =~= seq![0u8, 0u8, 0u8, 0u8, 0u8, 0u8, 0u8, 0u8]);
}

} // verus!
