//! Build-configuration aggregation for native modules that are compiled in
//! separate build steps and share their public settings with dependents.

pub mod build_info;
pub mod laws;
pub mod toolchain;

pub use build_info::{
    byte_order_clean, default_private_flags, generated_file_path, propagation_key, staged_header_dir, BuildError,
    CRTModuleBuildInfo, ToolchainStep,
};
