//! Profile assets: where uploaded files end up.
pub mod uploader;
