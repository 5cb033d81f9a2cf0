use darkiron::extension::{
    callback_patches, early_init_detours, interface_signature, LoadGuard, UISignatureResponse,
    DLL_PROCESS_ATTACH,
};
use darkiron::graphics::FramePlan;
use darkiron::hooks::{Detour, MemoryWrite};
use darkiron::macros::detour_idents;
use darkiron::script;
use darkiron::ui::UiFlags;

#[test]
fn extension_starts_once() {
    let mut g = LoadGuard::new();
    assert!(!g.on_dll_main(0));
    assert!(g.on_dll_main(DLL_PROCESS_ATTACH));
    assert!(g.loaded);
    assert!(!g.on_dll_main(DLL_PROCESS_ATTACH));
    assert!(!g.on_dll_main(2));
}

#[test]
fn interface_verdict_follows_configuration() {
    assert_eq!(interface_signature(false, UISignatureResponse::Corrupt), UISignatureResponse::Valid);
    assert_eq!(interface_signature(true, UISignatureResponse::Corrupt), UISignatureResponse::Corrupt);
    assert_eq!(interface_signature(true, UISignatureResponse::Valid), UISignatureResponse::Valid);
    assert_eq!(UISignatureResponse::Missing.code(), 0);
    assert_eq!(UISignatureResponse::Modified.code(), 2);
    assert_eq!(UISignatureResponse::Valid.code(), 3);
    assert_eq!(UISignatureResponse::from_code(1), Some(UISignatureResponse::Corrupt));
    assert_eq!(UISignatureResponse::from_code(4), None);
}

#[test]
fn callback_check_is_widened() {
    assert_eq!(
        callback_patches(),
        vec![
            MemoryWrite::Word { address: 0x00884800, value: 1 },
            MemoryWrite::Word { address: 0x00884C00, value: 0x7FFFFFFF },
        ]
    );
}

#[test]
fn detours_and_addresses() {
    assert_eq!(early_init_detours(), vec![Detour::ExtensionInit, Detour::HttpGetRequest, Detour::InterfaceSignature]);
    assert_eq!(script::init(), vec![Detour::FrameScriptRegister]);
    assert_eq!(Detour::FrameScriptRegister.address(), 0x00704120);
    assert_eq!(Detour::LoadBaseArchive.address(), 0x00403B00);
    assert_eq!(Detour::ExtensionInit.address(), 0x0046B840);
    let all = [
        Detour::ArchiveCallback, Detour::LocateArchive, Detour::ConfiguredArchive,
        Detour::LoadBaseArchive, Detour::LoadPatch, Detour::RecreateWindow, Detour::RenderFrame,
        Detour::WindowTitle, Detour::ExtensionInit, Detour::HttpGetRequest,
        Detour::InterfaceSignature, Detour::FrameScriptRegister,
    ];
    for a in all.iter() {
        for b in all.iter() {
            assert_eq!(a == b, a.address() == b.address());
        }
    }
}

#[test]
fn ui_draws_only_when_enabled() {
    let mut f = UiFlags::new();
    assert_eq!(f.draw(), FramePlan { initialize: true, draw: true });
    assert_eq!(f.draw(), FramePlan { initialize: false, draw: true });
    let mut off = UiFlags { enabled: false, initialized: false };
    assert_eq!(off.draw(), FramePlan { initialize: false, draw: false });
    assert!(!off.initialized);
}

#[test]
fn detour_macro_names() {
    let ids = detour_idents("sub_46B840");
    assert_eq!(ids.def_ident, "def_sub_46B840");
    assert_eq!(ids.hook_ident, "hook_sub_46B840");
}
