//! Verified core of a two-image petal labelling tool: image identities,
//! pane titles, the labelling state machine, overlay and atlas arithmetic,
//! and the GPU-module constructors.

pub mod images;
pub mod panes;
pub mod wgpu;
