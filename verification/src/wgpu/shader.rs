use vstd::prelude::*;

verus! {

/// A shader module compiled on a device, with the label and the WGSL text it was
/// compiled from recorded for contracts. Only `compile_wgsl` makes one.
pub struct CompiledShader {
    module: ::wgpu::ShaderModule,
    label: Ghost<Seq<char>>,
    source: Ghost<Seq<char>>,
}

impl CompiledShader {
    /// The label the module was compiled with.
    pub closed spec fn label(&self) -> Seq<char> {
        self.label@
    }

    /// The WGSL text the module was compiled from.
    pub closed spec fn source(&self) -> Seq<char> {
        self.source@
    }

    /// The compiled module.
    pub closed spec fn module_spec(&self) -> ::wgpu::ShaderModule {
        self.module
    }

    /// The compiled module.
    pub fn module(&self) -> (m: &::wgpu::ShaderModule)
        ensures
            *m == self.module_spec(),
    {
        &self.module
    }
}

/// `Device::create_shader_module` on a descriptor labelled `label` with WGSL text
/// `source`, inside a validation error scope (`Device::push_error_scope` with
/// `ErrorFilter::Validation`, then `Device::pop_error_scope`, whose future is ready at
/// once on native backends). `Some` holds the module made from exactly that label and
/// text; `None` comes when the scope caught an error (the text does not compile) or its
/// future was not ready. Which texts compile is not stated. Out-of-memory and internal
/// device errors are outside the scope and go to the device's error handler.
#[verifier::external_body]
pub(crate) fn compile_wgsl(device: &::wgpu::Device, label: &'static str, source: &str) -> (r:
    Option<CompiledShader>)
    ensures
        r matches Some(c) ==> c.label() == label@ && c.source() == source@,
{
    device.push_error_scope(::wgpu::ErrorFilter::Validation);
    let module = device.create_shader_module(::wgpu::ShaderModuleDescriptor {
        label: Some(label),
        source: ::wgpu::ShaderSource::Wgsl(source.into()),
    });
    let mut cx = std::task::Context::from_waker(std::task::Waker::noop());
    match std::future::Future::poll(Box::pin(device.pop_error_scope()).as_mut(), &mut cx) {
        std::task::Poll::Ready(None) => Some(
            CompiledShader { module, label: Ghost(label@), source: Ghost(source@) },
        ),
        _ => None,
    }
}

} // verus!
