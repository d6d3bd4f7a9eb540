//! Recording and model-loading state.

pub mod async_model_loader;
pub mod audio;
