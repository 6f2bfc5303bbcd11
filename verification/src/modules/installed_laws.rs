//! Laws of what the modules that come with the language hold.

use vstd::prelude::*;
use crate::hash::{ident_hash, type_hash, Hash64};
use crate::item::ComponentView;
use crate::module::{
    AssociatedKindView, FunctionHandler, FunctionMeta, FunctionMetaKind, MacroHandler,
    ModuleAssociated, ModuleAssociatedKind, ModuleItem, ModuleItemKind, ModuleState, ModuleType,
};
use crate::modules::hash_map;
use crate::modules::hash_map::HashMap;
use crate::modules::hash_map_calls as handlers;
use crate::modules::json;
use crate::modules::json::JsonError;
use crate::modules::native::{
    all_registered, is_annotated_protocol_function, is_documented, is_free_function, is_function,
    is_protocol_function, meta_registered,
};
use crate::modules::test::Bencher;
use crate::modules::test_macros;
use crate::runtime::TypeOf;

verus! {

/// Test if something is a function of a type with a name and a handler.
pub open spec fn is_method(
    x: ModuleAssociated,
    container: Hash64,
    name: AssociatedKindView,
    handler: u64,
) -> bool {
    &&& x.container == container
    &&& x.name.kind@ == name
    &&& x.kind matches ModuleAssociatedKind::Function(f) && f.handler == FunctionHandler(handler)
}

/// Test if a module holds a function of a type with a name and a handler.
pub open spec fn has_method(
    m: ModuleState,
    container: Hash64,
    name: AssociatedKindView,
    handler: u64,
) -> bool {
    exists|k: int|
        0 <= k < m.associated.len() && is_method(
            #[trigger] m.associated[k],
            container,
            name,
            handler,
        )
}

/// Test if something is a function with a name and a handler.
pub open spec fn is_free(x: ModuleItem, item: Seq<ComponentView>, handler: u64) -> bool {
    &&& x.item@ == item
    &&& x.hash == type_hash(item)
    &&& x.kind matches ModuleItemKind::Function(f) && f.handler == FunctionHandler(handler)
}

/// Test if a module holds a function with a name and a handler.
pub open spec fn has_free(m: ModuleState, item: Seq<ComponentView>, handler: u64) -> bool {
    exists|k: int| 0 <= k < m.items.len() && is_free(#[trigger] m.items[k], item, handler)
}

/// What has been registered stays while functions are.
proof fn lemma_registered_keeps(
    before: ModuleState,
    after: ModuleState,
    metas: Seq<FunctionMeta>,
    i: int,
)
    requires
        0 <= i <= metas.len(),
        all_registered(before, after, metas, i, Ok(())),
    ensures
        before.items.is_prefix_of(after.items),
        before.associated.is_prefix_of(after.associated),
        after.types == before.types,
        after.item == before.item,
    decreases metas.len() - i,
{
    if i < metas.len() {
        let middle = choose|middle: ModuleState| #[trigger]
            meta_registered(before, middle, metas[i], Ok(())) && all_registered(
                middle,
                after,
                metas,
                i + 1,
                Ok(()),
            );
        lemma_registered_keeps(middle, after, metas, i + 1);
    }
}

/// A function that is registered with others is there in the end.
proof fn lemma_registered_at(
    before: ModuleState,
    after: ModuleState,
    metas: Seq<FunctionMeta>,
    i: int,
    j: int,
)
    requires
        0 <= i <= j < metas.len(),
        all_registered(before, after, metas, i, Ok(())),
    ensures
        match metas[j].kind {
            FunctionMetaKind::Function(data) => has_free(
                after,
                before.item + data.item@,
                data.function.handler.0,
            ),
            FunctionMetaKind::AssociatedFunction(data) => has_method(
                after,
                data.associated.container,
                data.associated.name.kind@,
                data.function.handler.0,
            ),
        },
    decreases j - i,
{
    let middle = choose|middle: ModuleState| #[trigger]
        meta_registered(before, middle, metas[i], Ok(())) && all_registered(
            middle,
            after,
            metas,
            i + 1,
            Ok(()),
        );
    if i < j {
        lemma_registered_at(middle, after, metas, i + 1, j);
        assert(middle.item == before.item);
    } else {
        lemma_registered_keeps(middle, after, metas, i + 1);
        match metas[i].kind {
            FunctionMetaKind::Function(data) => {
                let k = middle.items.len() - 1;
                assert(is_free(after.items[k], before.item + data.item@, data.function.handler.0));
            },
            FunctionMetaKind::AssociatedFunction(data) => {
                let k = middle.associated.len() - 1;
                assert(is_method(
                    after.associated[k],
                    data.associated.container,
                    data.associated.name.kind@,
                    data.function.handler.0,
                ));
            },
        }
    }
}

/// Test if a module holds a function of hash maps with a name and a handler.
pub open spec fn maps_have(m: ModuleState, name: Seq<char>, handler: u64) -> bool {
    has_method(m, <HashMap as TypeOf>::hash(), AssociatedKindView::Instance(name), handler)
}

/// Test if a module holds a function of hash maps for a protocol.
pub open spec fn maps_answer(m: ModuleState, name: Seq<char>, handler: u64) -> bool {
    has_method(
        m,
        <HashMap as TypeOf>::hash(),
        AssociatedKindView::Protocol(ident_hash(name)),
        handler,
    )
}

/// A function with a name is found in the end.
proof fn lemma_map_function(
    before: ModuleState,
    after: ModuleState,
    metas: Seq<FunctionMeta>,
    j: int,
    name: Seq<char>,
    handler: u64,
)
    requires
        all_registered(before, after, metas, 0, Ok(())),
        0 <= j < metas.len(),
        exists|arguments: Seq<(&'static str, u64)>, returned: u64, docs: Seq<char>| #[trigger]
            is_function(
                metas[j],
                <HashMap as TypeOf>::info(),
                name,
                handler,
                arguments,
                returned,
                docs,
            ),
    ensures
        maps_have(after, name, handler),
{
    reveal(is_function);
    lemma_registered_at(before, after, metas, 0, j);
}

/// A function for a protocol is found in the end.
proof fn lemma_map_protocol(
    before: ModuleState,
    after: ModuleState,
    metas: Seq<FunctionMeta>,
    j: int,
    name: &'static str,
    handler: u64,
)
    requires
        all_registered(before, after, metas, 0, Ok(())),
        0 <= j < metas.len(),
        exists|arguments: Seq<(&'static str, u64)>, returned: u64| #[trigger]
            is_protocol_function(
                metas[j],
                <HashMap as TypeOf>::info(),
                name,
                handler,
                arguments,
                returned,
            ),
    ensures
        maps_answer(after, name@, handler),
{
    reveal(is_protocol_function);
    lemma_registered_at(before, after, metas, 0, j);
}

/// Setting hash maps up registers their type, and all of their functions under their
/// names. The protocols are answered by the functions that do the same.
pub proof fn lemma_maps_set_up(before: ModuleState, after: ModuleState)
    requires
        hash_map::is_setup(before, after, Ok(())),
    ensures
        after.has_type(<HashMap as TypeOf>::hash()),
        maps_have(after, "new"@, handlers::NEW),
        maps_have(after, "with_capacity"@, handlers::WITH_CAPACITY),
        maps_have(after, "len"@, handlers::LEN),
        maps_have(after, "capacity"@, handlers::CAPACITY),
        maps_have(after, "insert"@, handlers::INSERT),
        maps_have(after, "get"@, handlers::GET),
        maps_have(after, "contains_key"@, handlers::CONTAINS_KEY),
        maps_have(after, "remove"@, handlers::REMOVE),
        maps_have(after, "clear"@, handlers::CLEAR),
        maps_have(after, "is_empty"@, handlers::IS_EMPTY),
        maps_have(after, "iter"@, handlers::ITER),
        maps_have(after, "keys"@, handlers::KEYS),
        maps_have(after, "values"@, handlers::VALUES),
        maps_have(after, "extend"@, handlers::EXTEND),
        maps_have(after, "from"@, handlers::FROM),
        maps_have(after, "clone"@, handlers::CLONE),
        maps_answer(after, "INTO_ITER"@, handlers::ITER),
        maps_answer(after, "INDEX_SET"@, handlers::INDEX_SET),
        maps_answer(after, "INDEX_GET"@, handlers::INDEX_GET),
        maps_answer(after, "STRING_DEBUG"@, handlers::STRING_DEBUG),
        maps_answer(after, "PARTIAL_EQ"@, handlers::PARTIAL_EQ),
        maps_answer(after, "EQ"@, handlers::EQ),
{
    let (x, metas) = choose|x: ModuleType, metas: Seq<FunctionMeta>|
        is_documented::<HashMap>(x, ""@) && hash_map::are_functions(metas)
            && #[trigger] all_registered(before.with_type(x), after, metas, 0, Ok(()));
    let start = before.with_type(x);
    reveal(hash_map::are_functions);
    lemma_registered_keeps(start, after, metas, 0);
    assert(after.types[before.types.len() as int].hash == <HashMap as TypeOf>::hash());
    lemma_map_function(start, after, metas, 0, "new"@, handlers::NEW);
    lemma_map_function(start, after, metas, 1, "with_capacity"@, handlers::WITH_CAPACITY);
    lemma_map_function(start, after, metas, 2, "len"@, handlers::LEN);
    lemma_map_function(start, after, metas, 3, "capacity"@, handlers::CAPACITY);
    lemma_map_function(start, after, metas, 4, "insert"@, handlers::INSERT);
    lemma_map_function(start, after, metas, 5, "get"@, handlers::GET);
    lemma_map_function(start, after, metas, 6, "contains_key"@, handlers::CONTAINS_KEY);
    lemma_map_function(start, after, metas, 7, "remove"@, handlers::REMOVE);
    lemma_map_function(start, after, metas, 8, "clear"@, handlers::CLEAR);
    lemma_map_function(start, after, metas, 9, "is_empty"@, handlers::IS_EMPTY);
    lemma_map_function(start, after, metas, 10, "iter"@, handlers::ITER);
    lemma_map_function(start, after, metas, 11, "keys"@, handlers::KEYS);
    lemma_map_function(start, after, metas, 12, "values"@, handlers::VALUES);
    lemma_map_function(start, after, metas, 13, "extend"@, handlers::EXTEND);
    lemma_map_function(start, after, metas, 14, "from"@, handlers::FROM);
    lemma_map_function(start, after, metas, 15, "clone"@, handlers::CLONE);
    lemma_map_protocol(start, after, metas, 16, "INTO_ITER", handlers::ITER);
    lemma_map_protocol(start, after, metas, 17, "INDEX_SET", handlers::INDEX_SET);
    lemma_map_protocol(start, after, metas, 18, "INDEX_GET", handlers::INDEX_GET);
    lemma_map_protocol(start, after, metas, 19, "STRING_DEBUG", handlers::STRING_DEBUG);
    lemma_map_protocol(start, after, metas, 20, "PARTIAL_EQ", handlers::PARTIAL_EQ);
    lemma_map_protocol(start, after, metas, 21, "EQ", handlers::EQ);
}

/// The name of something in the crate for JSON.
pub open spec fn json_name(name: Seq<char>) -> Seq<ComponentView> {
    seq![ComponentView::Crate("json"@), ComponentView::Str(name)]
}

/// A function of the module for JSON is found in the end.
proof fn lemma_json_function(
    before: ModuleState,
    after: ModuleState,
    metas: Seq<FunctionMeta>,
    j: int,
    name: Seq<char>,
    handler: u64,
)
    requires
        before.item == seq![ComponentView::Crate("json"@)],
        all_registered(before, after, metas, 0, Ok(())),
        0 <= j < metas.len(),
        exists|arguments: Seq<(&'static str, u64)>, returned: u64, docs: Seq<char>| #[trigger]
            is_free_function(metas[j], name, handler, arguments, returned, docs),
    ensures
        has_free(after, json_name(name), handler),
{
    reveal(is_free_function);
    lemma_registered_at(before, after, metas, 0, j);
    assert(before.item + seq![ComponentView::Str(name)] =~= json_name(name));
}

/// The module for JSON holds the type of its errors, the functions that read and
/// write, and those that show errors.
pub proof fn lemma_json_module(m: ModuleState)
    requires
        json::is_module(m),
    ensures
        m.item == seq![ComponentView::Crate("json"@)],
        m.types.len() == 1,
        m.types[0].item@ == json_name("Error"@),
        m.types[0].hash == <JsonError as TypeOf>::hash(),
        has_free(m, json_name("from_bytes"@), json::FROM_BYTES),
        has_free(m, json_name("from_string"@), json::FROM_STRING),
        has_free(m, json_name("to_string"@), json::TO_STRING),
        has_free(m, json_name("to_bytes"@), json::TO_BYTES),
        has_method(
            m,
            <JsonError as TypeOf>::hash(),
            AssociatedKindView::Protocol(ident_hash("DISPLAY_FMT"@)),
            json::DISPLAY,
        ),
        has_method(
            m,
            <JsonError as TypeOf>::hash(),
            AssociatedKindView::Protocol(ident_hash("DEBUG_FMT"@)),
            json::DEBUG,
        ),
{
    let (start, metas) = choose|start: ModuleState, metas: Seq<FunctionMeta>|
        #![trigger json::is_start(start), json::are_functions(metas)]
        json::is_start(start) && json::are_functions(metas) && all_registered(
            start,
            m,
            metas,
            0,
            Ok(()),
        );
    reveal(json::are_functions);
    lemma_registered_keeps(start, m, metas, 0);
    lemma_json_function(start, m, metas, 2, "from_bytes"@, json::FROM_BYTES);
    lemma_json_function(start, m, metas, 3, "from_string"@, json::FROM_STRING);
    lemma_json_function(start, m, metas, 4, "to_string"@, json::TO_STRING);
    lemma_json_function(start, m, metas, 5, "to_bytes"@, json::TO_BYTES);
    reveal(is_annotated_protocol_function);
    lemma_registered_at(start, m, metas, 0, 0);
    lemma_registered_at(start, m, metas, 0, 1);
}

/// The numbers of the functions for JSON are different from each other, and so are
/// those of the macros for testing.
pub proof fn lemma_numbers()
    ensures
        seq![
            json::DISPLAY,
            json::DEBUG,
            json::FROM_BYTES,
            json::FROM_STRING,
            json::TO_STRING,
            json::TO_BYTES,
        ].no_duplicates(),
        seq![test_macros::ASSERT, test_macros::ASSERT_EQ, test_macros::ASSERT_NE].no_duplicates(),
{
}

/// Test if something is a macro of the module for testing with a name and a handler.
pub open spec fn is_test_macro(x: ModuleItem, name: Seq<char>, handler: u64) -> bool {
    &&& x.item@ == seq![
        ComponentView::Crate("std"@),
        ComponentView::Str("test"@),
        ComponentView::Str(name),
    ]
    &&& x.hash == type_hash(x.item@)
    &&& x.kind == ModuleItemKind::Macro(MacroHandler(handler))
}

/// The module for testing holds the three macros, the type for benchmarks, and its
/// function that runs one.
pub proof fn lemma_test_module(m: ModuleState)
    requires
        crate::modules::test::is_module(m),
    ensures
        m.unique == Some("std::test"),
        m.items.len() == 3,
        is_test_macro(m.items[0], "assert"@, test_macros::ASSERT),
        is_test_macro(m.items[1], "assert_eq"@, test_macros::ASSERT_EQ),
        is_test_macro(m.items[2], "assert_ne"@, test_macros::ASSERT_NE),
        m.types.len() == 1,
        m.types[0].hash == <Bencher as TypeOf>::hash(),
        m.associated.len() == 1,
        is_method(
            m.associated[0],
            <Bencher as TypeOf>::hash(),
            AssociatedKindView::Instance("iter"@),
            crate::modules::test::ITER,
        ),
{
    reveal(crate::modules::test::is_start);
    reveal(crate::modules::test::has_macro);
    reveal(crate::modules::test::has_bencher);
    reveal(is_function);
}

} // verus!
