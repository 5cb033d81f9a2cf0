use vstd::prelude::*;
use vstd::string::*;

verus! {

/// Names the detour macro derives from a handler's name: the type alias of
/// its signature and the static holding its detour.
#[derive(Clone, Debug)]
pub struct DetourIdents {
    pub def_ident: String,
    pub hook_ident: String,
}

/// The names generated for handler `name`: `def_<name>` and `hook_<name>`.
pub fn detour_idents(name: &str) -> (res: DetourIdents)
    ensures
        res.def_ident@ == "def_"@ + name@,
        res.hook_ident@ == "hook_"@ + name@,
{
    DetourIdents {
        def_ident: String::from_str("def_").concat(name),
        hook_ident: String::from_str("hook_").concat(name),
    }
}

} // verus!
