use vstd::prelude::*;
use crate::hooks::{Detour, MemoryWrite};

verus! {

/// The reason code the loader passes when the extension is attached to the
/// client process.
pub const DLL_PROCESS_ATTACH: u32 = 1;

/// Whether the extension has been started in this process.
#[derive(Clone, Copy, Debug, PartialEq, Eq)]
pub struct LoadGuard {
    pub loaded: bool,
}

/// Whether a loader notification with `reason` starts the extension.
pub open spec fn starts(g: LoadGuard, reason: u32) -> bool {
    reason == DLL_PROCESS_ATTACH && !g.loaded
}

/// The guard after a loader notification with `reason`.
pub open spec fn after_notification(g: LoadGuard, reason: u32) -> LoadGuard {
    LoadGuard { loaded: g.loaded || starts(g, reason) }
}

impl LoadGuard {
    pub fn new() -> (res: Self)
        ensures
            !res.loaded,
    {
        LoadGuard { loaded: false }
    }

    /// Handles a loader notification; true when the extension is to be
    /// started now (the first attach).
    pub fn on_dll_main(&mut self, reason: u32) -> (res: bool)
        ensures
            res == starts(*old(self), reason),
            *final(self) == after_notification(*old(self), reason),
    {
        if reason == DLL_PROCESS_ATTACH && !self.loaded {
            self.loaded = true;
            true
        } else {
            false
        }
    }
}

/// The extension is started at most once per process: after it has
/// started, no notification starts it again.
pub proof fn lemma_starts_once(g: LoadGuard, first: u32, later: u32)
    ensures
        starts(g, first) ==> !starts(after_notification(g, first), later),
        g.loaded ==> !starts(g, later) && after_notification(g, later) == g,
{
}

/// The client's verdict on the interface files' signature.
#[derive(Clone, Copy, Debug, PartialEq, Eq)]
pub enum UISignatureResponse {
    Missing,
    Corrupt,
    Modified,
    Valid,
}

/// The numeric value of a verdict in the client.
pub open spec fn signature_code(r: UISignatureResponse) -> u32 {
    match r {
        UISignatureResponse::Missing => 0,
        UISignatureResponse::Corrupt => 1,
        UISignatureResponse::Modified => 2,
        UISignatureResponse::Valid => 3,
    }
}

impl UISignatureResponse {
    pub fn code(&self) -> (res: u32)
        ensures
            res == signature_code(*self),
    {
        match self {
            UISignatureResponse::Missing => 0,
            UISignatureResponse::Corrupt => 1,
            UISignatureResponse::Modified => 2,
            UISignatureResponse::Valid => 3,
        }
    }

    /// The verdict for a numeric value, or `None` for a value the client
    /// does not use.
    pub fn from_code(code: u32) -> (res: Option<UISignatureResponse>)
        ensures
            match res {
                Some(r) => signature_code(r) == code,
                None => code > 3,
            },
    {
        match code {
            0 => Some(UISignatureResponse::Missing),
            1 => Some(UISignatureResponse::Corrupt),
            2 => Some(UISignatureResponse::Modified),
            3 => Some(UISignatureResponse::Valid),
            _ => None,
        }
    }
}

/// The verdict handed to the client: the client's own when interface
/// validation is configured, else always `Valid`.
pub fn interface_signature(validate_interface: bool, verdict: UISignatureResponse) -> (res: UISignatureResponse)
    ensures
        res == if validate_interface {
            verdict
        } else {
            UISignatureResponse::Valid
        },
{
    if validate_interface {
        verdict
    } else {
        UISignatureResponse::Valid
    }
}

/// Address of the client's check that callbacks lie in its own code.
pub const CALLBACK_CHECK_ENABLED: u32 = 0x00884800;

/// Address of the upper bound of that check.
pub const CALLBACK_CHECK_LIMIT: u32 = 0x00884C00;

/// The writes that let the client call back into the extension: they
/// widen the client's check on callback addresses.
pub open spec fn callback_patches_spec() -> Seq<MemoryWrite> {
    seq![
        MemoryWrite::Word { address: CALLBACK_CHECK_ENABLED, value: 0x00000001 },
        MemoryWrite::Word { address: CALLBACK_CHECK_LIMIT, value: 0x7FFFFFFF },
    ]
}

pub fn callback_patches() -> (res: Vec<MemoryWrite>)
    ensures
        res@ == callback_patches_spec(),
{
    let mut res: Vec<MemoryWrite> = Vec::new();
    res.push(MemoryWrite::Word { address: CALLBACK_CHECK_ENABLED, value: 0x00000001 });
    res.push(MemoryWrite::Word { address: CALLBACK_CHECK_LIMIT, value: 0x7FFFFFFF });
    assert(res@ =~= callback_patches_spec());
    res
}

/// The detours enabled when the extension is loaded, after the graphics
/// and data modules are set up.
pub fn early_init_detours() -> (res: Vec<Detour>)
    ensures
        res@ == seq![Detour::ExtensionInit, Detour::HttpGetRequest, Detour::InterfaceSignature],
{
    let res: Vec<Detour> = vec![Detour::ExtensionInit, Detour::HttpGetRequest, Detour::InterfaceSignature];
    assert(res@ =~= seq![Detour::ExtensionInit, Detour::HttpGetRequest, Detour::InterfaceSignature]);
    res
}

/// The first attach notification starts the extension and marks it loaded;
/// any other notification starts nothing and changes nothing.
pub proof fn lemma_attach_starts(g: LoadGuard, reason: u32)
    ensures
        starts(g, reason) <==> (reason == 1 && !g.loaded),
        after_notification(g, reason).loaded == (g.loaded || reason == 1),
        reason != 1 ==> after_notification(g, reason) == g,
{
}

} // verus!
