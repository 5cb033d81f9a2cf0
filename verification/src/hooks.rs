use vstd::prelude::*;

verus! {

/// A client routine the extension detours to its own handler.
#[derive(Clone, Copy, Debug, PartialEq, Eq)]
pub enum Detour {
    /// The archive callback that dereferences a null archive handle.
    ArchiveCallback,
    /// The lookup of the data path that holds an archive.
    LocateArchive,
    /// The lookup of a base archive by position.
    ConfiguredArchive,
    /// The opening of a base archive.
    LoadBaseArchive,
    /// The opening of a patch archive.
    LoadPatch,
    /// The creation of the OpenGL window.
    RecreateWindow,
    /// The end of a rendered frame.
    RenderFrame,
    /// The setting of the window title.
    WindowTitle,
    /// The client start-up step the extension initialises in.
    ExtensionInit,
    /// The HTTP request for the server alert.
    HttpGetRequest,
    /// The interface signature check.
    InterfaceSignature,
    /// The registration of a script function.
    FrameScriptRegister,
}

/// Address of the detoured routine in the client.
pub open spec fn detour_address(d: Detour) -> u32 {
    match d {
        Detour::ArchiveCallback => 0x00648FB0,
        Detour::LocateArchive => 0x004022D0,
        Detour::ConfiguredArchive => 0x004022C0,
        Detour::LoadBaseArchive => 0x00403B00,
        Detour::LoadPatch => 0x004039B0,
        Detour::RecreateWindow => 0x0058CF10,
        Detour::RenderFrame => 0x0059BA10,
        Detour::WindowTitle => 0x00435A50,
        Detour::ExtensionInit => 0x0046B840,
        Detour::HttpGetRequest => 0x007A6EE0,
        Detour::InterfaceSignature => 0x006F10F0,
        Detour::FrameScriptRegister => 0x00704120,
    }
}

impl Detour {
    pub fn address(&self) -> (res: u32)
        ensures
            res == detour_address(*self),
    {
        match self {
            Detour::ArchiveCallback => 0x00648FB0,
            Detour::LocateArchive => 0x004022D0,
            Detour::ConfiguredArchive => 0x004022C0,
            Detour::LoadBaseArchive => 0x00403B00,
            Detour::LoadPatch => 0x004039B0,
            Detour::RecreateWindow => 0x0058CF10,
            Detour::RenderFrame => 0x0059BA10,
            Detour::WindowTitle => 0x00435A50,
            Detour::ExtensionInit => 0x0046B840,
            Detour::HttpGetRequest => 0x007A6EE0,
            Detour::InterfaceSignature => 0x006F10F0,
            Detour::FrameScriptRegister => 0x00704120,
        }
    }
}

/// No two detours patch the same routine.
pub proof fn lemma_detour_addresses_distinct(a: Detour, b: Detour)
    requires
        a != b,
    ensures
        detour_address(a) != detour_address(b),
{
}

/// A write into the client's memory.
#[derive(Clone, Debug, PartialEq, Eq)]
pub enum MemoryWrite {
    /// A 32-bit word.
    Word { address: u32, value: u32 },
    /// A run of bytes.
    Bytes { address: u32, bytes: Vec<u8> },
}

/// What a module does when it is set up: memory writes, then detours to
/// enable, in order.
#[derive(Clone, Debug)]
pub struct InitPlan {
    pub writes: Vec<MemoryWrite>,
    pub detours: Vec<Detour>,
}

} // verus!
