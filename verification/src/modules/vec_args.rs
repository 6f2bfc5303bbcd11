//! A module with a function that passes its arguments along to another one.

use vstd::prelude::*;
use crate::hash::EMPTY;
use crate::item::ComponentView;
use crate::module::{is_item, ContextError, FunctionHandler, Module, ModuleItemKind, ModuleState};
use crate::modules::native::{is_signature, native, Argument};
use crate::runtime::VEC_HASH;

verus! {

/// The number of the function.
pub const PASS_ALONG: u64 = 0;

/// The name of the function.
pub open spec fn pass_along_item() -> Seq<ComponentView> {
    seq![ComponentView::Str("mymodule"@), ComponentView::Str("pass_along"@)]
}

/// Test if this is the module. It holds one function, which takes a function and
/// its arguments.
pub open spec fn is_module(m: ModuleState) -> bool {
    let x = m.items.last();
    &&& m == ModuleState::empty(seq![ComponentView::Str("mymodule"@)], m.common).with_item(x)
    &&& m.common.is_none()
    &&& is_item(x, pass_along_item(), x.kind, x.common.docs, None)
    &&& x.common.docs.is_none()
    &&& x.kind matches ModuleItemKind::Function(f) && f.handler == FunctionHandler(PASS_ALONG)
        && f.trait_hash is None && is_signature(
        f.doc,
        seq![("func", EMPTY), ("args", VEC_HASH)],
        EMPTY,
    )
}

/// Construct the module.
#[verifier::spinoff_prover]
pub fn module() -> (r: Result<Module, ContextError>)
    ensures
        r matches Ok(m) && is_module(m@) && m@.wf(),
{
    let mut m = Module::with_item(vec!["mymodule"])?;
    assert(m@.item =~= seq![ComponentView::Str("mymodule"@)]);

    let arguments: Vec<Argument> = vec![("func", EMPTY), ("args", VEC_HASH)];
    assert(arguments@ =~= seq![("func", EMPTY), ("args", VEC_HASH)]);
    let function = native(PASS_ALONG, &arguments, EMPTY);
    assert(m@.item + seq![ComponentView::Str("pass_along"@)] =~= pass_along_item());

    match m.function("pass_along", function).build() {
        Ok(_) => {},
        Err(e) => return Err(e),
    }

    Ok(m)
}

} // verus!
