//! Supporting number types.

pub mod uint;
