//! The numeric values of the OpenGL enumerants this library hands to the driver.
//!
//! They are the values fixed by the OpenGL registry (`gl.xml`), the same the
//! `gl` crate exposes under the same names.

use vstd::prelude::*;

verus! {

pub const FALSE: u8 = 0;

pub const TRIANGLES: u32 = 0x0004;

pub const UNSIGNED_BYTE: u32 = 0x1401;
pub const UNSIGNED_INT: u32 = 0x1405;
pub const FLOAT: u32 = 0x1406;

pub const ARRAY_BUFFER: u32 = 0x8892;
pub const ELEMENT_ARRAY_BUFFER: u32 = 0x8893;
pub const STATIC_DRAW: u32 = 0x88E4;

pub const TEXTURE_2D: u32 = 0x0DE1;
pub const TEXTURE0: u32 = 0x84C0;
pub const TEXTURE_MAG_FILTER: u32 = 0x2800;
pub const TEXTURE_MIN_FILTER: u32 = 0x2801;
pub const TEXTURE_WRAP_S: u32 = 0x2802;
pub const TEXTURE_WRAP_T: u32 = 0x2803;

pub const REPEAT: u32 = 0x2901;
pub const MIRRORED_REPEAT: u32 = 0x8370;
pub const CLAMP_TO_EDGE: u32 = 0x812F;
pub const CLAMP_TO_BORDER: u32 = 0x812D;

pub const NEAREST: u32 = 0x2600;
pub const LINEAR: u32 = 0x2601;
pub const LINEAR_MIPMAP_NEAREST: u32 = 0x2701;
pub const LINEAR_MIPMAP_LINEAR: u32 = 0x2703;

pub const RGB: u32 = 0x1907;
pub const RGBA: u32 = 0x1908;
pub const RGBA8: u32 = 0x8058;

pub const FRAMEBUFFER: u32 = 0x8D40;
pub const COLOR_ATTACHMENT0: u32 = 0x8CE0;
pub const FRAMEBUFFER_COMPLETE: u32 = 0x8CD5;

pub const FRAGMENT_SHADER: u32 = 0x8B30;
pub const VERTEX_SHADER: u32 = 0x8B31;
pub const GEOMETRY_SHADER: u32 = 0x8DD9;
pub const COMPILE_STATUS: u32 = 0x8B81;
pub const LINK_STATUS: u32 = 0x8B82;
pub const INFO_LOG_LENGTH: u32 = 0x8B84;

pub const DEPTH_BUFFER_BIT: u32 = 0x0100;
pub const COLOR_BUFFER_BIT: u32 = 0x4000;

} // verus!
