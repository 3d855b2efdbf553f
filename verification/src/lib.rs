//! The verified core of a small rendering kernel: the rules that say which
//! point/vector operations are legal, a bounds-checked raster buffer, and the
//! packing and encoding of its quantized samples into an image file.

pub mod canvas;
pub mod encode;
pub mod fuzzy_eq;
pub mod kind;
pub mod rgba;
