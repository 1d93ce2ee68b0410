//! Plain color values and blend modes shared across the video modules.

use vstd::prelude::*;

verus! {

/// An opaque color, one byte per channel.
#[derive(Debug, Clone, Copy, PartialEq, Eq, Structural)]
pub struct Rgb {
    pub r: u8,
    pub g: u8,
    pub b: u8,
}

/// A color with an alpha channel, one byte per channel.
#[derive(Debug, Clone, Copy, PartialEq, Eq, Structural)]
pub struct Rgba {
    pub r: u8,
    pub g: u8,
    pub b: u8,
    pub a: u8,
}

/// How a surface is combined with what it is drawn onto.
#[derive(Debug, Clone, Copy, PartialEq, Eq, Structural)]
pub enum BlendMode {
    /// No blending: the source overwrites the destination.
    NoBlend,
    /// Alpha blending of the source over the destination.
    AlphaBlend,
    /// Additive blending.
    Additive,
    /// Color modulation by the destination.
    Modulated,
    /// Color multiplication with the destination.
    Multiplied,
}

} // verus!
