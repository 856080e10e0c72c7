//! The configuration a caller asks a context to be created with.

use vstd::prelude::*;

verus! {

/// The OpenGL profile a context is requested with.
#[derive(Clone, Copy, Debug, PartialEq, Eq)]
pub enum Profile {
    Compatibility,
    Core,
}

/// Desired properties of the framebuffer and of the context.
///
/// `samples` is `None` where no multisampling is asked for, and otherwise holds
/// the number of samples per pixel.
#[derive(Clone, Copy, Debug, PartialEq, Eq)]
pub struct GlConfig {
    pub version: (u8, u8),
    pub profile: Profile,
    pub red_bits: u8,
    pub green_bits: u8,
    pub blue_bits: u8,
    pub alpha_bits: u8,
    pub depth_bits: u8,
    pub stencil_bits: u8,
    pub samples: Option<u8>,
    pub srgb: bool,
    pub double_buffer: bool,
    pub vsync: bool,
}

/// The integer a native attribute list holds for a boolean.
pub open spec fn flag_value(b: bool) -> i32 {
    if b { 1i32 } else { 0i32 }
}

/// Computes [`flag_value`].
pub fn flag(b: bool) -> (r: i32)
    ensures
        r == flag_value(b),
{
    if b { 1 } else { 0 }
}

} // verus!
