//! How native functions are annotated.

use vstd::prelude::*;
use crate::hash::{ident_hash, type_hash, Hash64, EMPTY};
use crate::item::{ComponentView, ItemBuf};
use crate::module::{
    associated_name, is_item, kind_registered, signature, Associated, AssociatedFunctionData, AssociatedKind,
    AssociatedKindView, AssociatedName, ContextError, ContextErrorView, DocFunction, DocType, Docs,
    FunctionData, FunctionDef,
    FunctionHandler, FunctionMeta, FunctionMetaKind, InstallWith, Module, ModuleState, ModuleType,
    MacroHandler, MacroMeta, MacroMetaKind, ModuleItem, ModuleItemKind, NameView, Protocol,
};
use crate::runtime::{Named, TypeInfo, TypeOf};
use crate::text::{lines, split_lines, texts};

verus! {

/// A protocol, told from others by the hash of its name.
pub open spec fn protocol(name: &'static str) -> Protocol {
    Protocol { name, hash: ident_hash(name@) }
}

/// Construct a protocol.
pub fn to_protocol(name: &'static str) -> (p: Protocol)
    ensures
        p == protocol(name),
{
    Protocol { name, hash: Hash64::ident(name) }
}

/// A type without generic arguments, in documentation.
pub open spec fn is_doc_type(ty: DocType, hash: u64) -> bool {
    ty.hash == Hash64(hash) && ty.generics@.len() == 0
}

/// The name and the type of an argument.
pub type Argument = (&'static str, u64);

/// Test if a signature is the one of a function that is not asynchronous, with
/// the given arguments and the type that is returned.
pub open spec fn is_signature(
    doc: DocFunction,
    arguments: Seq<Argument>,
    return_type: u64,
) -> bool {
    &&& !doc.is_async
    &&& doc.args == Some(arguments.len() as usize)
    &&& is_doc_type(doc.return_type, return_type)
    &&& doc.argument_types@.len() == arguments.len()
    &&& forall|i: int|
        0 <= i < arguments.len() ==> is_doc_type(
            #[trigger] doc.argument_types@[i],
            arguments[i].1,
        )
}

/// The names of arguments.
pub open spec fn argument_names(arguments: Seq<Argument>) -> Seq<Seq<char>> {
    arguments.map_values(|a: Argument| a.0@)
}

/// Test if something is associated with a type by a name, without parameters.
pub open spec fn is_named(associated: Associated, ty: TypeInfo, name: AssociatedKindView) -> bool {
    &&& associated.name.kind@ == name
    &&& associated.name.function_parameters == Hash64(EMPTY)
    &&& associated.container == ty.hash
    &&& associated.container_type_info == ty
}

/// Test if these are the annotations of a function which is associated with a
/// type by its name.
#[verifier::opaque]
pub open spec fn is_function(
    meta: FunctionMeta,
    ty: TypeInfo,
    name: Seq<char>,
    handler: u64,
    arguments: Seq<Argument>,
    return_type: u64,
    docs: Seq<char>,
) -> bool {
    &&& meta.kind matches FunctionMetaKind::AssociatedFunction(data) && is_named(
        data.associated,
        ty,
        AssociatedKindView::Instance(name),
    ) && data.function.handler == FunctionHandler(handler) && is_signature(
        data.function.doc,
        arguments,
        return_type,
    )
    &&& texts(meta.docs@) == lines(docs)
    &&& meta.arguments matches Some(names) && texts(names@) == argument_names(arguments)
    &&& meta.deprecated is None
}

/// Test if these are the annotations of a function of a protocol, which has no
/// documentation.
#[verifier::opaque]
pub open spec fn is_protocol_function(
    meta: FunctionMeta,
    ty: TypeInfo,
    name: &'static str,
    handler: u64,
    arguments: Seq<Argument>,
    return_type: u64,
) -> bool {
    &&& meta.kind matches FunctionMetaKind::AssociatedFunction(data) && is_named(
        data.associated,
        ty,
        AssociatedKindView::Protocol(protocol(name).hash),
    ) && data.associated.name.kind == AssociatedKind::Protocol(protocol(name))
        && data.function.handler == FunctionHandler(handler) && is_signature(
        data.function.doc,
        arguments,
        return_type,
    )
    &&& meta.docs@.len() == 0
    &&& meta.arguments is None
    &&& meta.deprecated is None
}

/// Test if these are the annotations of a function of a protocol.
#[verifier::opaque]
pub open spec fn is_annotated_protocol_function(
    meta: FunctionMeta,
    ty: TypeInfo,
    name: &'static str,
    handler: u64,
    arguments: Seq<Argument>,
    return_type: u64,
) -> bool {
    &&& meta.kind matches FunctionMetaKind::AssociatedFunction(data) && is_named(
        data.associated,
        ty,
        AssociatedKindView::Protocol(protocol(name).hash),
    ) && data.associated.name.kind == AssociatedKind::Protocol(protocol(name))
        && data.function.handler == FunctionHandler(handler) && is_signature(
        data.function.doc,
        arguments,
        return_type,
    )
    &&& meta.docs@.len() == 0
    &&& meta.arguments matches Some(names) && texts(names@) == argument_names(arguments)
    &&& meta.deprecated is None
}

/// Test if these are the annotations of a function of a module.
#[verifier::opaque]
pub open spec fn is_free_function(
    meta: FunctionMeta,
    name: Seq<char>,
    handler: u64,
    arguments: Seq<Argument>,
    return_type: u64,
    docs: Seq<char>,
) -> bool {
    &&& meta.kind matches FunctionMetaKind::Function(data) && data.item@ == seq![
        ComponentView::Str(name),
    ] && data.function.handler == FunctionHandler(handler) && is_signature(
        data.function.doc,
        arguments,
        return_type,
    )
    &&& texts(meta.docs@) == lines(docs)
    &&& meta.arguments matches Some(names) && texts(names@) == argument_names(arguments)
    &&& meta.deprecated is None
}

/// A type in documentation.
fn doc_type(hash: u64) -> (ty: DocType)
    ensures
        is_doc_type(ty, hash),
{
    DocType { hash: Hash64(hash), generics: Vec::new() }
}

/// A native function.
pub fn native(handler: u64, arguments: &Vec<Argument>, return_type: u64) -> (f: FunctionDef)
    ensures
        f.handler == FunctionHandler(handler),
        is_signature(f.doc, arguments@, return_type),
{
    let mut argument_types: Vec<DocType> = Vec::new();
    let mut i: usize = 0;

    while i < arguments.len()
        invariant
            i <= arguments@.len(),
            argument_types@.len() == i,
            forall|j: int|
                0 <= j < i ==> is_doc_type(#[trigger] argument_types@[j], arguments@[j].1),
        decreases arguments@.len() - i,
    {
        argument_types.push(doc_type(arguments[i].1));
        i += 1;
    }

    FunctionDef {
        handler: FunctionHandler(handler),
        doc: DocFunction {
            is_async: false,
            args: Some(arguments.len()),
            return_type: doc_type(return_type),
            argument_types,
        },
    }
}

/// The names of arguments.
fn names(arguments: &Vec<Argument>) -> (r: Vec<String>)
    ensures
        texts(r@) == argument_names(arguments@),
{
    let mut r: Vec<String> = Vec::new();
    let mut i: usize = 0;

    while i < arguments.len()
        invariant
            i <= arguments@.len(),
            r@.len() == i,
            forall|j: int| 0 <= j < i ==> (#[trigger] r@[j])@ == arguments@[j].0@,
        decreases arguments@.len() - i,
    {
        r.push(arguments[i].0.to_owned());
        i += 1;
    }

    assert(texts(r@) =~= argument_names(arguments@));
    r
}

/// Annotate a function which is associated with a type by its name.
pub fn function(
    ty: TypeInfo,
    name: &'static str,
    handler: u64,
    arguments: Vec<Argument>,
    return_type: u64,
    docs: &'static str,
) -> (meta: FunctionMeta)
    ensures
        is_function(meta, ty, name@, handler, arguments@, return_type, docs@),
{
    proof {
        reveal(is_function);
    }
    FunctionMeta {
        kind: FunctionMetaKind::AssociatedFunction(
            AssociatedFunctionData {
                associated: Associated {
                    name: AssociatedName {
                        kind: AssociatedKind::Instance(name.to_owned()),
                        function_parameters: Hash64(EMPTY),
                    },
                    container: ty.hash,
                    container_type_info: ty,
                },
                function: native(handler, &arguments, return_type),
            },
        ),
        docs: split_lines(docs),
        arguments: Some(names(&arguments)),
        deprecated: None,
    }
}

/// Annotate a function of a protocol.
pub fn protocol_function(
    ty: TypeInfo,
    name: &'static str,
    handler: u64,
    arguments: Vec<Argument>,
    return_type: u64,
) -> (meta: FunctionMeta)
    ensures
        is_protocol_function(meta, ty, name, handler, arguments@, return_type),
{
    proof {
        reveal(is_protocol_function);
    }
    FunctionMeta {
        kind: FunctionMetaKind::AssociatedFunction(
            AssociatedFunctionData {
                associated: Associated {
                    name: AssociatedName {
                        kind: AssociatedKind::Protocol(to_protocol(name)),
                        function_parameters: Hash64(EMPTY),
                    },
                    container: ty.hash,
                    container_type_info: ty,
                },
                function: native(handler, &arguments, return_type),
            },
        ),
        docs: Vec::new(),
        arguments: None,
        deprecated: None,
    }
}

/// Annotate a function of a protocol, with the names of its arguments.
pub fn annotated_protocol_function(
    ty: TypeInfo,
    name: &'static str,
    handler: u64,
    arguments: Vec<Argument>,
    return_type: u64,
) -> (meta: FunctionMeta)
    ensures
        is_annotated_protocol_function(meta, ty, name, handler, arguments@, return_type),
{
    proof {
        reveal(is_annotated_protocol_function);
        reveal(is_protocol_function);
    }
    let names = names(&arguments);
    let meta = protocol_function(ty, name, handler, arguments, return_type);
    FunctionMeta {
        kind: meta.kind,
        docs: meta.docs,
        arguments: Some(names),
        deprecated: meta.deprecated,
    }
}

/// Annotate a function of a module.
pub fn free_function(
    name: &'static str,
    handler: u64,
    arguments: Vec<Argument>,
    return_type: u64,
    docs: &'static str,
) -> (meta: FunctionMeta)
    ensures
        is_free_function(meta, name@, handler, arguments@, return_type, docs@),
{
    proof {
        reveal(is_free_function);
    }
    let mut path: Vec<&'static str> = Vec::new();
    path.push(name);
    let item = ItemBuf::with_item(path);
    assert(item@ =~= seq![ComponentView::Str(name@)]);
    FunctionMeta {
        kind: FunctionMetaKind::Function(
            FunctionData { item, function: native(handler, &arguments, return_type) },
        ),
        docs: split_lines(docs),
        arguments: Some(names(&arguments)),
        deprecated: None,
    }
}

/// Test if a function is registered as it is annotated, or refused.
pub open spec fn meta_registered(
    before: ModuleState,
    after: ModuleState,
    meta: FunctionMeta,
    r: Result<(), ContextErrorView>,
) -> bool {
    kind_registered(
        before,
        after,
        meta.kind,
        match r {
            Ok(_) => Ok(
                (
                    Docs { docs: meta.docs, arguments: meta.arguments },
                    meta.deprecated,
                    signature(meta.kind),
                ),
            ),
            Err(e) => Err(e),
        },
    )
}

/// Test if the functions from index `i` on are registered one after the other,
/// up to the first one that is refused.
pub open spec fn all_registered(
    before: ModuleState,
    after: ModuleState,
    metas: Seq<FunctionMeta>,
    i: int,
    r: Result<(), ContextErrorView>,
) -> bool
    decreases metas.len() - i,
{
    if i < 0 || i >= metas.len() {
        after == before && r == Ok::<(), ContextErrorView>(())
    } else {
        ||| r is Err && meta_registered(before, after, metas[i], r)
        ||| exists|middle: ModuleState| #[trigger]
            meta_registered(before, middle, metas[i], Ok(())) && all_registered(
                middle,
                after,
                metas,
                i + 1,
                r,
            )
    }
}

/// The name that a function takes in a module of the given name.
pub open spec fn meta_name(item: Seq<ComponentView>, meta: FunctionMeta) -> NameView {
    match meta.kind {
        FunctionMetaKind::Function(data) => NameView::Item(type_hash(item + data.item@)),
        FunctionMetaKind::AssociatedFunction(data) => associated_name(
            data.associated.container,
            data.associated.name,
        ),
    }
}

/// Test if the names of the functions from index `i` on are free, and none of them
/// is that of another.
pub open spec fn all_free(m: ModuleState, metas: Seq<FunctionMeta>, i: int) -> bool {
    &&& forall|j: int|
        i <= j < metas.len() ==> !m.names.contains(#[trigger] meta_name(m.item, metas[j]))
    &&& forall|j: int, k: int|
        i <= j < k < metas.len() ==> #[trigger] meta_name(m.item, metas[j])
            != #[trigger] meta_name(m.item, metas[k])
}

/// Functions whose names are free are registered, all of them.
pub proof fn lemma_all_registered(
    before: ModuleState,
    after: ModuleState,
    metas: Seq<FunctionMeta>,
    i: int,
    r: Result<(), ContextErrorView>,
)
    requires
        0 <= i <= metas.len(),
        all_registered(before, after, metas, i, r),
        all_free(before, metas, i),
    ensures
        r is Ok,
    decreases metas.len() - i,
{
    if i < metas.len() {
        let name = meta_name(before.item, metas[i]);
        assert(!before.names.contains(name));
        let middle = choose|middle: ModuleState| #[trigger]
            meta_registered(before, middle, metas[i], Ok(())) && all_registered(
                middle,
                after,
                metas,
                i + 1,
                r,
            );
        assert(middle.item == before.item);
        assert(middle.names =~= before.names.push(name));
        assert forall|j: int| i + 1 <= j < metas.len() implies !middle.names.contains(
            #[trigger] meta_name(middle.item, metas[j]),
        ) by {
            assert(!before.names.contains(meta_name(before.item, metas[j])));
            assert(meta_name(before.item, metas[j]) != name);
        }
        lemma_all_registered(middle, after, metas, i + 1, r);
    }
}

/// The result of registering, with its error taken as a mathematical value.
pub open spec fn result(r: Result<(), ContextError>) -> Result<(), ContextErrorView> {
    match r {
        Ok(_) => Ok(()),
        Err(e) => Err(e@),
    }
}

/// Register functions one after the other, up to the first one that is refused.
pub fn register_all(module: &mut Module, metas: Vec<FunctionMeta>) -> (r: Result<(), ContextError>)
    requires
        old(module)@.wf(),
    ensures
        all_registered(old(module)@, final(module)@, metas@, 0, result(r)),
        final(module)@.wf(),
{
    let ghost all = metas@;
    let ghost before = module@;
    let ghost mut i: int = 0;
    let mut rest = metas;

    while rest.len() > 0
        invariant
            module@.wf(),
            before == old(module)@,
            all == metas@,
            0 <= i <= all.len(),
            rest@ == all.skip(i),
            forall|after: ModuleState, r: Result<(), ContextErrorView>| #[trigger]
                all_registered(module@, after, all, i, r) ==> all_registered(
                    before,
                    after,
                    all,
                    0,
                    r,
                ),
        decreases rest@.len(),
    {
        let ghost current = module@;
        let meta = rest.remove(0);
        assert(meta == all[i]);

        match module.function_meta(meta) {
            Ok(_) => {},
            Err(e) => {
                assert(meta_registered(current, module@, all[i], Err(e@)));
                assert(all_registered(current, module@, all, i, Err(e@)));
                return Err(e);
            },
        }

        proof {
            assert(meta_registered(current, module@, all[i], Ok(())));
            assert forall|after: ModuleState, r: Result<(), ContextErrorView>| #[trigger]
                all_registered(module@, after, all, i + 1, r) implies all_registered(
                before,
                after,
                all,
                0,
                r,
            ) by {
                assert(all_registered(current, after, all, i, r));
            }
            i = i + 1;
        }
    }

    assert(all_registered(module@, module@, all, i, Ok(())));
    Ok(())
}

/// Test if a type is registered with nothing but its documentation.
pub open spec fn is_documented<T: TypeOf + Named>(x: ModuleType, docs: Seq<char>) -> bool {
    &&& x.item@ == T::item()
    &&& x.hash == T::hash()
    &&& texts(x.common.docs.docs@) == lines(docs)
    &&& x.common.docs.arguments is None
    &&& x.common.deprecated is None
    &&& x.type_parameters == T::parameters()
    &&& x.type_info == T::info()
    &&& x.spec is None
    &&& x.constructor is None
}

/// Test if a type adds nothing to the module that it is registered in.
pub open spec fn adds_nothing<T: InstallWith>() -> bool {
    forall|before: ModuleState, after: ModuleState, r: Result<(), ContextError>| #[trigger]
        T::installed(before, after, r) ==> after == before && r is Ok
}

/// The error of registering a type whose name is taken.
pub open spec fn conflicting_type<T: TypeOf + Named>() -> ContextErrorView {
    ContextErrorView::ConflictingType { item: T::item(), type_info: T::info(), hash: T::hash() }
}

/// Register a type that adds nothing of its own, with its documentation.
#[verifier::spinoff_prover]
pub fn register_type<T: TypeOf + Named + InstallWith>(
    module: &mut Module,
    docs: &'static str,
) -> (r: Result<(), ContextError>)
    requires
        old(module)@.wf(),
        adds_nothing::<T>(),
    ensures
        match r {
            Err(e) => {
                &&& final(module)@ == old(module)@
                &&& old(module)@.names.contains(NameView::Item(T::hash()))
                &&& e@ == conflicting_type::<T>()
            },
            Ok(_) => {
                &&& !old(module)@.names.contains(NameView::Item(T::hash()))
                &&& exists|x: ModuleType| #[trigger]
                    is_documented::<T>(x, docs@) && final(module)@ == old(module)@.with_type(x)
            },
        },
        final(module)@.wf(),
{
    let ghost before = module@;
    match module.ty::<T>() {
        Ok(h) => {
            h.docs(split_lines(docs));
        },
        Err(e) => return Err(e),
    }
    proof {
        let x = module@.types.last();
        assert(module@ =~= before.with_type(x));
        assert(is_documented::<T>(x, docs@));
    }
    Ok(())
}

/// Test if an item is a macro, with its documentation.
pub open spec fn is_macro(
    x: ModuleItem,
    item: Seq<ComponentView>,
    handler: u64,
    docs: Seq<char>,
) -> bool {
    &&& is_item(
        x,
        item,
        ModuleItemKind::Macro(MacroHandler(handler)),
        x.common.docs,
        None,
    )
    &&& texts(x.common.docs.docs@) == lines(docs)
    &&& x.common.docs.arguments is None
}

/// Register a macro with its documentation.
pub fn register_macro(
    module: &mut Module,
    name: &'static str,
    handler: u64,
    docs: &'static str,
) -> (r: Result<(), ContextError>)
    requires
        old(module)@.wf(),
    ensures
        ({
            let item = old(module)@.item.push(ComponentView::Str(name@));
            let hash = type_hash(item);
            match r {
                Err(e) => {
                    &&& final(module)@ == old(module)@
                    &&& old(module)@.names.contains(NameView::Macro(hash))
                    &&& e@ == (ContextErrorView::ConflictingMacroName { item, hash })
                },
                Ok(_) => {
                    let x = final(module)@.items.last();
                    &&& !old(module)@.names.contains(NameView::Macro(hash))
                    &&& final(module)@ == old(module)@.with_item(x)
                    &&& is_macro(x, item, handler, docs@)
                },
            }
        }),
        final(module)@.wf(),
{
    let mut names: Vec<&'static str> = Vec::new();
    names.push(name);
    let item = ItemBuf::with_item(names);
    assert(old(module)@.item + item@ =~= old(module)@.item.push(ComponentView::Str(name@)));
    let kind = MacroMetaKind::Function(item, MacroHandler(handler));

    match module.macro_meta(MacroMeta { kind, docs: split_lines(docs) }) {
        Ok(_) => Ok(()),
        Err(e) => Err(e),
    }
}

} // verus!
