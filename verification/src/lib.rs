//! Decision logic of a small Vulkan-style renderer, verified with Verus.
//!
//! The library models the data the renderer reads from the graphics API as
//! plain values (queue family capabilities, surface capabilities, format
//! codes) and proves the decisions taken over them: which physical device is
//! selected, how the swapchain is configured, how resource handles map to
//! storage slots, and how frames in flight are scheduled.  The calls into the
//! graphics API itself are left to the surrounding application, which feeds
//! their results into these functions and carries their decisions out.

use vstd::prelude::*;

pub use error::RenderError;
pub use error::ResizeReason;
pub use frame::Frame;
pub use frame::FrameScheduler;
pub use frame::FrameSynchronization;
pub use frame::FrameSynchronizationError;
pub use resource::CachedStorage;
pub use resource::Handle;
pub use resource::ResourceManager;
pub use resource::Storage;

pub mod command;
pub mod descriptor;
pub mod device;
pub mod device_selection;
pub mod error;
pub mod extent;
pub mod format;
pub mod frame;
pub mod framebuffer;
pub mod image;
pub mod instance;
pub mod material;
pub mod mem;
pub mod mesh;
pub mod pipeline;
pub mod queue;
pub mod render_pass;
pub mod resource;
pub mod spirv;
pub mod surface;
pub mod swapchain;
pub mod sync;
pub mod texture;
pub mod uniform;
pub mod util;
pub mod vertex;
pub mod vk_debug;

verus! {

/// Width, in pixels, of the window the renderer draws to.
pub const WINDOW_WIDTH: u32 = 300;

/// Height, in pixels, of the window the renderer draws to.
pub const WINDOW_HEIGHT: u32 = 300;

/// Number of frames that may be recorded on the CPU while the GPU is still
/// working on earlier ones.
pub const MAX_FRAMES_IN_FLIGHT: u32 = 2;

} // verus!
