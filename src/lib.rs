//! Turns an inherent impl block into an extension trait and an impl of that
//! trait for the same type.
pub mod model;
pub mod naming;
pub mod process_impl;
pub mod impl_to_trait;
pub mod expand;
pub mod laws;
pub mod vec_ext;
