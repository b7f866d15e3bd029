//! Boundary layer between a kernel-like host and a frame allocator: a bounded
//! formatter for caller-owned buffers, the log bridge that feeds the host's
//! line printer, the translation of allocator results into integer codes,
//! and the decisions taken while a node's allocator is set up.

pub mod formatter;
pub mod handle;
pub mod node;
pub mod printk;
pub mod result;

pub use formatter::{FormatterState, RawFormatter};
pub use handle::{
    llfree_cores, llfree_drain, llfree_dump, llfree_frames, llfree_free_at, llfree_free_frames,
    llfree_free_huge, llfree_get, llfree_is_free, llfree_put,
};
pub use node::{
    construction_mode, init_step, llfree_node_init, node_layout, InitAction, InitEvent, InitMode,
    InitState, NodeLayout, Region,
};
pub use printk::{
    format_string, generate, init_logging, kern_prefix, max_log_level, rust_fmt_argument, KernLevel,
    Level, PrintKLogger,
    LENGTH,
};
pub use result::{result_t, AllocError};
