use vstd::prelude::*;

verus! {

/// The client's OpenGL window record, as laid out in its memory.
#[derive(Clone, Copy, Debug)]
pub struct OpenGlWindow {
    pub unk_00: u32,
    pub unk_01: u32,
    pub unk_02: u32,
    pub unk_03: u32,
    pub width: i32,
    pub height: i32,
    pub unk_06: u32,
    pub unk_07: u32,
    pub unk_08: u32,
    pub unk_09: u32,
    pub unk_10: u32,
    pub unk_11: u32,
    pub x: i32,
    pub y: i32,
}

} // verus!
