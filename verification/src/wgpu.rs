pub mod compute;
pub mod opacity;
pub mod render;
pub mod shader;
pub mod warp;

use vstd::prelude::*;

verus! {

/// `wgpu::Device`, carried through opaque.
#[verifier::external_type_specification]
#[verifier::external_body]
pub struct ExDevice(::wgpu::Device);

/// `wgpu::ShaderModule`, carried through opaque.
#[verifier::external_type_specification]
#[verifier::external_body]
pub struct ExShaderModule(::wgpu::ShaderModule);

/// `wgpu::Buffer`, carried through opaque.
#[verifier::external_type_specification]
#[verifier::external_body]
pub struct ExBuffer(::wgpu::Buffer);

/// `wgpu::TextureView`, carried through opaque.
#[verifier::external_type_specification]
#[verifier::external_body]
pub struct ExTextureView(::wgpu::TextureView);

/// `wgpu::BufferBinding`, carried through opaque.
#[verifier::external_type_specification]
#[verifier::external_body]
pub struct ExBufferBinding<'a>(::wgpu::BufferBinding<'a>);

/// `wgpu::Sampler`, carried through opaque.
#[verifier::external_type_specification]
#[verifier::external_body]
pub struct ExSampler(::wgpu::Sampler);

/// `wgpu::Tlas`, carried through opaque.
#[verifier::external_type_specification]
#[verifier::external_body]
pub struct ExTlas(::wgpu::Tlas);

/// `wgpu::BindingResource`, declared with its variants visible (`Buffer`,
/// `BufferArray`, `Sampler`, `SamplerArray`, `TextureView`, `TextureViewArray`,
/// `AccelerationStructure`), so that contracts can say which resource is bound.
#[verifier::external_type_specification]
pub struct ExBindingResource<'a>(::wgpu::BindingResource<'a>);

/// `wgpu::BindGroupEntry`, declared with its two public fields (`binding: u32`,
/// `resource: BindingResource`) visible, so that contracts can speak of the slot.
#[verifier::external_type_specification]
pub struct ExBindGroupEntry<'a>(::wgpu::BindGroupEntry<'a>);

/// `Buffer::as_entire_binding`: the binding resource that covers the whole buffer, a
/// `BindingResource::Buffer` (of `buffer`, at offset 0, with no size limit). That the
/// binding is of this buffer, whole, is not stated: its `BufferBinding` stays opaque.
#[verifier::external_body]
fn entire_binding(buffer: &::wgpu::Buffer) -> (r: ::wgpu::BindingResource<'_>)
    ensures
        r is Buffer,
{
    buffer.as_entire_binding()
}

/// A bind-group entry that binds the whole of `buffer` at slot `index`.
pub fn buffer_to_bind_group(buffer: &::wgpu::Buffer, index: u32) -> (entry: ::wgpu::BindGroupEntry<'_>)
    ensures
        entry.binding == index,
        entry.resource is Buffer,
{
    ::wgpu::BindGroupEntry { binding: index, resource: entire_binding(buffer) }
}

/// A bind-group entry that binds `view` at slot `index`.
pub fn view_to_bind_group(view: &::wgpu::TextureView, index: u32) -> (entry: ::wgpu::BindGroupEntry<'_>)
    ensures
        entry.binding == index,
        entry.resource == ::wgpu::BindingResource::TextureView(view),
{
    ::wgpu::BindGroupEntry { binding: index, resource: ::wgpu::BindingResource::TextureView(view) }
}

/// The four bytes of `w`, least significant first when `little`, most significant
/// first otherwise.
pub open spec fn word_bytes(w: u32, little: bool) -> Seq<u8> {
    let b = seq![(w & 0xff) as u8, ((w >> 8) & 0xff) as u8, ((w >> 16) & 0xff) as u8, ((w >> 24) & 0xff) as u8];
    if little { b } else { b.reverse() }
}

/// The bytes of `words` laid out one after another, each in the given byte order.
pub open spec fn words_bytes(words: Seq<u32>, little: bool) -> Seq<u8>
    decreases words.len(),
{
    if words.len() == 0 {
        Seq::empty()
    } else {
        word_bytes(words[0], little) + words_bytes(words.drop_first(), little)
    }
}

/// Whether the machine this runs on stores words least significant byte first (vstd's
/// `endianness()`, one and the same for every call).
pub open spec fn machine_is_little_endian() -> bool {
    vstd::endian::endianness() is Little
}

/// `bytemuck::bytes_of` on four `u32` words, copied out: their in-memory bytes, so
/// each word in the machine's own byte order (`machine_is_little_endian()`), the same
/// for every call; which of the two orders that is, is left unsaid.
#[verifier::external_body]
pub(crate) fn words_as_bytes(words: [u32; 4]) -> (bytes: Vec<u8>)
    ensures
        bytes@ == words_bytes(words@, true) || bytes@ == words_bytes(words@, false),
        bytes@ == words_bytes(words@, machine_is_little_endian()),
{
    bytemuck::bytes_of(&words).to_vec()
}

/// The bytes of four words in a given order are each word's four bytes in that order,
/// one word after another: the first four bytes hold the first word, and so on.
pub proof fn law_words_bytes_layout(a: u32, b: u32, c: u32, d: u32, little: bool)
    ensures
        words_bytes(seq![a, b, c, d], little) == word_bytes(a, little) + word_bytes(b, little)
            + word_bytes(c, little) + word_bytes(d, little),
        words_bytes(seq![a, b, c, d], little).len() == 16,
{
    let ws = seq![a, b, c, d];
    assert(ws.drop_first() =~= seq![b, c, d]);
    assert(ws.drop_first().drop_first() =~= seq![c, d]);
    assert(ws.drop_first().drop_first().drop_first() =~= seq![d]);
    assert(ws.drop_first().drop_first().drop_first().drop_first() =~= Seq::<u32>::empty());
    reveal_with_fuel(words_bytes, 5);
    assert(words_bytes(seq![d], little) =~= word_bytes(d, little));
    assert(words_bytes(ws, little) =~= word_bytes(a, little) + word_bytes(b, little) + word_bytes(
        c,
        little,
    ) + word_bytes(d, little));
}

/// A word's bytes in little-endian order start with its least significant byte and in
/// big-endian order end with it; either way there are four, and the word is zero exactly
/// when they all are.
pub proof fn law_word_bytes_order(w: u32)
    ensures
        word_bytes(w, true).len() == 4,
        word_bytes(w, true)[0] == (w & 0xff) as u8,
        word_bytes(w, false)[3] == (w & 0xff) as u8,
        word_bytes(w, true)[3] == ((w >> 24) & 0xff) as u8,
        word_bytes(w, false)[0] == ((w >> 24) & 0xff) as u8,
        word_bytes(0, true) == seq![0u8, 0u8, 0u8, 0u8],
        word_bytes(0, false) == seq![0u8, 0u8, 0u8, 0u8],
{
    assert((0u32 & 0xff) as u8 == 0u8 && ((0u32 >> 8) & 0xff) as u8 == 0u8 && ((0u32 >> 16)
        & 0xff) as u8 == 0u8 && ((0u32 >> 24) & 0xff) as u8 == 0u8) by (bit_vector);
    assert(word_bytes(0, true) =~= seq![0u8, 0u8, 0u8, 0u8]);
    assert(word_bytes(0, false) =~= seq![0u8, 0u8, 0u8, 0u8]);
}

/// Edge length, in invocations, of the square workgroup every compute shader here uses.
pub const WORKGROUP_EDGE: u32 = 16;

/// The workgroup counts dispatched to cover a `width` by `height` target: one more
/// group than whole groups fit in each direction, and one layer.
pub fn workgroups_for(width: u32, height: u32) -> (groups: (u32, u32, u32))
    ensures
        groups.0 == width / 16 + 1,
        groups.1 == height / 16 + 1,
        groups.2 == 1,
        groups.0 * 16 > width,
        groups.1 * 16 > height,
{
    assert((width / 16 + 1) * 16 > width) by (nonlinear_arith);
    assert((height / 16 + 1) * 16 > height) by (nonlinear_arith);
    (width / WORKGROUP_EDGE + 1, height / WORKGROUP_EDGE + 1, 1)
}

} // verus!
