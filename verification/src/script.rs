use vstd::prelude::*;
use crate::hooks::Detour;

verus! {

/// Setting up script support detours the registration of script functions.
pub fn init() -> (res: Vec<Detour>)
    ensures
        res@ == seq![Detour::FrameScriptRegister],
{
    let res: Vec<Detour> = vec![Detour::FrameScriptRegister];
    assert(res@ =~= seq![Detour::FrameScriptRegister]);
    res
}

} // verus!
