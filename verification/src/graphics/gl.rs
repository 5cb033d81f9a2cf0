use vstd::prelude::*;
use vstd::string::*;
use crate::console::ConsoleColor;

verus! {

pub const NONE: u32 = 0x0000;

pub const UNSIGNED_SHORT_5_6_5: u32 = 0x8363;
pub const UNSIGNED_SHORT_4_4_4_4_REV: u32 = 0x8365;
pub const UNSIGNED_SHORT_1_5_5_5_REV: u32 = 0x8366;
pub const UNSIGNED_INT_8_8_8_8_REV: u32 = 0x8367;
pub const DSDT_NV: u32 = 0x86F5;
pub const BGRA: u32 = 0x80E1;
pub const COMPRESSED_RGBA_S3TC_DXT1_EXT: u32 = 0x83F1;
pub const COMPRESSED_RGBA_S3TC_DXT3_EXT: u32 = 0x83F2;
pub const COMPRESSED_RGBA_S3TC_DXT5_EXT: u32 = 0x83F3;
pub const DSDT8_NV: u32 = 0x8709;
pub const TEXTURE_CUBE_MAP: u32 = 0x8513;
pub const TEXTURE_RECTANGLE: u32 = 0x84F5;
pub const ARRAY_BUFFER: u32 = 0x8892;
pub const ELEMENT_ARRAY_BUFFER: u32 = 0x8893;
pub const STATIC_DRAW: u32 = 0x88E4;
pub const TEXTURE_2D: u32 = 0xDE1;

pub const VERTEX_ARRAY: u32 = 0x8074;
pub const NORMAL_ARRAY: u32 = 0x8075;
pub const COLOR_ARRAY: u32 = 0x8076;
pub const TEXTURE_COORD_ARRAY: u32 = 0x8078;

pub const BYTE: u32 = 0x1400;
pub const UNSIGNED_BYTE: u32 = 0x1401;
pub const SHORT: u32 = 0x1402;
pub const UNSIGNED_SHORT: u32 = 0x1403;
pub const INT: u32 = 0x1404;
pub const UNSIGNED_INT: u32 = 0x1405;
pub const FLOAT: u32 = 0x1406;

pub const POINTS: u32 = 0x0000;
pub const LINES: u32 = 0x0001;
pub const LINE_LOOP: u32 = 0x0002;
pub const LINE_STRIP: u32 = 0x0003;
pub const TRIANGLES: u32 = 0x0004;
pub const TRIANGLE_STRIP: u32 = 0x0005;
pub const TRIANGLE_FAN: u32 = 0x0006;

pub const TEXTURE_MAG_FILTER: u32 = 0x2800;
pub const TEXTURE_MIN_FILTER: u32 = 0x2801;
pub const NEAREST: u32 = 0x2600;
pub const LINEAR: u32 = 0x2601;
pub const RGBA: u32 = 0x1908;
pub const RGBA8: u32 = 0x8058;

/// Which of a primitive's arrays a buffer upload takes its data from.
#[derive(Clone, Copy, Debug, PartialEq, Eq)]
pub enum BufferSource {
    Vertices,
    Indices,
}

/// Where the pixels of a texture upload come from.
#[derive(Clone, Copy, Debug, PartialEq, Eq)]
pub enum PixelSource {
    /// The RGBA bytes of the decoded image being uploaded, row by row.
    ImageRgba8,
}

/// One OpenGL call, with the arguments the extension passes to it.
#[derive(Clone, Copy, Debug, PartialEq, Eq)]
pub enum GlCall {
    BindBuffer { target: u32, buffer: u32 },
    BufferData { target: u32, source: BufferSource, usage: u32 },
    BindTexture { target: u32, texture: u32 },
    TexParameter { target: u32, param: u32, value: u32 },
    TexImage2D {
        target: u32,
        level: u32,
        internal_format: u32,
        width: u32,
        height: u32,
        border: u32,
        format: u32,
        ty: u32,
        pixels: PixelSource,
    },
    EnableClientState(u32),
    DisableClientState(u32),
    /// Positions: three floats per vertex, at `offset` in each vertex.
    VertexPointer { offset: u32 },
    /// Texture coordinates: two floats per vertex, at `offset`.
    TexCoordPointer { offset: u32 },
    /// Colours: `size` components of type `ty` per vertex, at `offset`.
    /// The extension issues this as a `glVertexPointer` call with these
    /// arguments, not as `glColorPointer`.
    ColorPointer { size: u32, ty: u32, offset: u32 },
    DrawElements { mode: u32, count: usize, ty: u32, offset: u32 },
}

/// An upload of `data` into the buffer object bound to `target`.
pub struct BufferUpload<T> {
    pub target: u32,
    pub data: Vec<T>,
    pub usage: u32,
}

/// A buffer object: its binding target, its data and its name.
pub struct Buffer<T> {
    pub target: u32,
    pub data: Vec<T>,
    pub gl_id: u32,
}

impl<T> Default for Buffer<T> {
    fn default() -> (res: Self)
        ensures
            res.target == 0,
            res.data@.len() == 0,
            res.gl_id == 0,
    {
        Buffer { target: 0, data: Vec::new(), gl_id: 0 }
    }
}

impl<T> Buffer<T> {
    /// A buffer for `target` holding `data`, with no name yet.
    pub fn new(target: u32, data: Vec<T>) -> (res: Self)
        ensures
            res.target == target,
            res.data@ == data@,
            res.gl_id == 0,
    {
        Buffer { target, data, gl_id: 0 }
    }

    /// Binding a buffer issues no call.
    pub fn bind(&self) {
    }

    /// The upload of `data` into this buffer's target.
    pub fn buffer_data(&self, data: Vec<T>, usage: u32) -> (res: BufferUpload<T>)
        ensures
            res.target == self.target,
            res.data@ == data@,
            res.usage == usage,
    {
        BufferUpload { target: self.target, data, usage }
    }
}

/// Whether an error code from the driver reports an error.
pub fn has_error(err_code: u32) -> (res: bool)
    ensures
        res == (err_code != 0),
{
    err_code != 0
}

/// A console line reporting a driver error.
#[derive(Clone, Debug)]
pub struct ErrorReport {
    pub text: String,
    pub color: ConsoleColor,
}

/// The console line for a driver error with the given description: its
/// text, shown in the error colour.
pub fn error_report(description: &str) -> (res: ErrorReport)
    ensures
        res.text@ == "[ui] glTexImage2D: "@ + description@,
        res.color == ConsoleColor::Error,
{
    ErrorReport { text: String::from_str("[ui] glTexImage2D: ").concat(description), color: ConsoleColor::Error }
}

} // verus!
