//! Testing and benchmarking.

use vstd::prelude::*;
use crate::hash::{type_hash, Hash64, EMPTY};
use crate::hash_laws::{lemma_test_assert, lemma_test_assert_eq, lemma_test_assert_ne};
use crate::item::{ComponentView, ItemBuf};
use crate::module::{
    item_name, ContextError, ContextErrorView, FunctionHandler, FunctionMeta, InstallWith, Module,
    ModuleItem, ModuleMeta, ModuleState, ModuleType, NameView,
};
use crate::modules::native::{
    function, is_documented, is_function, is_macro, meta_registered, register_macro, register_type,
    Argument,
};
use crate::modules::test_macros::{ASSERT, ASSERT_EQ, ASSERT_NE};
use crate::runtime::{Named, TypeInfo, TypeOf, TUPLE_HASH};
use crate::text::{lines, split_lines, texts};

verus! {

/// Documentation of the module.
pub const MODULE_DOCS: &'static str = " Testing and benchmarking.";

/// Documentation of `assert!`.
pub const ASSERT_DOCS: &'static str = " Assert that the expression provided as an argument is true, or cause a vm
 panic.

 The second argument can optionally be used to format a panic message.

 This is useful when writing test cases.

 # Examples

 ```rune
 let value = 42;

 assert!(value == 42, \"Value was not what was expected, instead it was {}\", value);
 ```";

/// Documentation of `assert_eq!`.
pub const ASSERT_EQ_DOCS: &'static str = " Assert that the two arguments provided are equal, or cause a vm panic.

 The third argument can optionally be used to format a panic message.

 # Examples

 ```rune
 let value = 42;

 assert_eq!(value, 42, \"Value was not 42, instead it was {}\", value);
 ```";

/// Documentation of `assert_ne!`.
pub const ASSERT_NE_DOCS: &'static str = " Assert that the two arguments provided are not equal, or cause a vm panic.

 The third argument can optionally be used to format a panic message.

 # Examples

 ```rune
 let value = 42;

 assert_ne!(value, 10, \"Value was 10\");
 ```";

/// Documentation of [`Bencher`].
pub const BENCHER_DOCS: &'static str = " A type to perform benchmarks.

 This is the type of the argument to any function which is annotated with `#[bench]`";

/// Documentation of [`Bencher::iter`].
pub const ITER_DOCS: &'static str = " Run a benchmark using the given closure.";

/// A function of a script, by its hash.
#[derive(Debug, Clone, Copy, PartialEq, Eq, Structural)]
pub struct Function(pub Hash64);

/// A helper type to capture benchmarks.
#[derive(Debug)]
pub struct Bencher {
    fns: Vec<Function>,
}

impl View for Bencher {
    type V = Seq<Function>;

    /// The functions that have been captured, first to last.
    closed spec fn view(&self) -> Seq<Function> {
        self.fns@
    }
}

impl Default for Bencher {
    fn default() -> (bencher: Self)
        ensures
            bencher@ == Seq::<Function>::empty(),
    {
        Bencher { fns: Vec::new() }
    }
}

impl Bencher {
    /// The functions that have been captured, first to last.
    pub fn into_functions(self) -> (fns: Vec<Function>)
        ensures
            fns@ == self@,
    {
        self.fns
    }

    /// Run a benchmark using the given closure.
    pub fn iter(&mut self, f: Function)
        ensures
            final(self)@ == old(self)@.push(f),
    {
        self.fns.push(f);
    }
}

/// The number of [`Bencher::iter`].
pub const ITER: u64 = 0;

/// Call the function on a bencher that is registered under a number. Tells whether
/// there is one.
pub fn call(handler: FunctionHandler, bencher: &mut Bencher, f: Function) -> (r: bool)
    ensures
        r == (handler.0 == ITER),
        final(bencher)@ == (if r {
            old(bencher)@.push(f)
        } else {
            old(bencher)@
        }),
{
    if handler.0 == ITER {
        bencher.iter(f);
        true
    } else {
        false
    }
}

impl TypeOf for Bencher {
    open spec fn hash() -> Hash64 {
        type_hash(<Bencher as Named>::item())
    }

    open spec fn parameters() -> Hash64 {
        Hash64(EMPTY)
    }

    open spec fn info() -> TypeInfo {
        TypeInfo { hash: <Bencher as TypeOf>::hash(), name: "::std::test::Bencher" }
    }

    fn type_hash() -> (hash: Hash64) {
        Hash64::type_hash(&Bencher::named_item())
    }

    fn type_parameters() -> (hash: Hash64) {
        Hash64(EMPTY)
    }

    fn type_info() -> (info: TypeInfo) {
        TypeInfo { hash: Bencher::type_hash(), name: "::std::test::Bencher" }
    }
}

/// The name of something in the module.
pub open spec fn test_item(name: Seq<char>) -> Seq<ComponentView> {
    seq![
        ComponentView::Crate("std"@),
        ComponentView::Str("test"@),
        ComponentView::Str(name),
    ]
}

impl Named for Bencher {
    open spec fn item() -> Seq<ComponentView> {
        test_item("Bencher"@)
    }

    open spec fn shown() -> Seq<char> {
        "::std::test::Bencher"@
    }

    fn named_item() -> (item: ItemBuf) {
        let item = ItemBuf::with_crate_item("std", vec!["test", "Bencher"]);
        assert(item@ =~= <Bencher as Named>::item());
        item
    }

    fn display() -> (name: String) {
        "::std::test::Bencher".to_owned()
    }
}

impl InstallWith for Bencher {
    open spec fn installed(
        before: ModuleState,
        after: ModuleState,
        r: Result<(), ContextError>,
    ) -> bool {
        after == before && r is Ok
    }

    fn install_with(module: &mut Module) -> (r: Result<(), ContextError>) {
        Ok(())
    }
}

/// The module before anything is registered in it.
#[verifier::opaque]
pub open spec fn is_start(m: ModuleState) -> bool {
    &&& m == (ModuleState {
        unique: Some("std::test"),
        ..ModuleState::empty(
            seq![ComponentView::Crate("std"@), ComponentView::Str("test"@)],
            m.common,
        )
    })
    &&& texts(m.common.docs.docs@) == lines(MODULE_DOCS@)
    &&& m.common.docs.arguments is None
    &&& m.common.deprecated is None
}

/// Test if everything is registered in the module.
pub open spec fn is_module(m: ModuleState) -> bool {
    exists|start: ModuleState|
        {
            &&& #[trigger] is_start(start)
            &&& m.items.len() == 3
            &&& has_macro(m.items[0], ASSERT, "assert"@, ASSERT_DOCS@)
            &&& has_macro(m.items[1], ASSERT_EQ, "assert_eq"@, ASSERT_EQ_DOCS@)
            &&& has_macro(m.items[2], ASSERT_NE, "assert_ne"@, ASSERT_NE_DOCS@)
            &&& has_bencher(
                start.with_item(m.items[0]).with_item(m.items[1]).with_item(m.items[2]),
                m,
            )
        }
}

/// Test if the type for benchmarks and its function are registered.
#[verifier::opaque]
pub open spec fn has_bencher(before: ModuleState, after: ModuleState) -> bool {
    &&& after.items == before.items
    &&& exists|ty: ModuleType, meta: FunctionMeta| #[trigger]
        is_documented::<Bencher>(ty, BENCHER_DOCS@) && #[trigger] is_iter(meta) && meta_registered(
            before.with_type(ty),
            after,
            meta,
            Ok(()),
        )
}

/// Test if these are the annotations of [`Bencher::iter`].
pub open spec fn is_iter(meta: FunctionMeta) -> bool {
    let ty = <Bencher as TypeOf>::info();
    is_function(
        meta,
        ty,
        "iter"@,
        ITER,
        seq![("self", ty.hash.0), ("f", EMPTY)],
        TUPLE_HASH,
        ITER_DOCS@,
    )
}

/// The error of registering a macro whose name is taken.
pub open spec fn conflicting_macro(name: Seq<char>) -> ContextErrorView {
    ContextErrorView::ConflictingMacroName {
        item: test_item(name),
        hash: test_hash(name),
    }
}

/// Test if nothing is registered in the module.
pub open spec fn is_empty(m: ModuleState) -> bool {
    &&& m.item == seq![ComponentView::Crate("std"@), ComponentView::Str("test"@)]
    &&& m.names.len() == 0
    &&& m.items.len() == 0
    &&& m.associated.len() == 0
}

/// The module with nothing registered in it.
fn start() -> (r: Result<Module, ContextError>)
    ensures
        r matches Ok(m) && is_start(m@) && m@.wf() && is_empty(m@),
{
    proof {
        reveal(is_start);
    }
    let item = ItemBuf::with_crate_item("std", vec!["test"]);
    assert(item@ =~= seq![ComponentView::Crate("std"@), ComponentView::Str("test"@)]);
    let m = Module::from_meta(ModuleMeta { item, docs: split_lines(MODULE_DOCS) })?;
    Ok(m.with_unique("std::test"))
}

/// The hash of the name of something in the module.
#[verifier::opaque]
pub open spec fn test_hash(name: Seq<char>) -> Hash64 {
    type_hash(test_item(name))
}

/// Test if an item is a macro of the module.
#[verifier::opaque]
pub open spec fn has_macro(x: ModuleItem, handler: u64, name: Seq<char>, docs: Seq<char>) -> bool {
    is_macro(x, test_item(name), handler, docs)
}

/// Register a macro of the module.
fn register(m: &mut Module, name: &'static str, handler: u64, docs: &'static str) -> (r: Result<
    (),
    ContextError,
>)
    requires
        old(m)@.wf(),
        old(m)@.item == seq![ComponentView::Crate("std"@), ComponentView::Str("test"@)],
    ensures
        match r {
            Err(e) => old(m)@.names.contains(NameView::Macro(test_hash(name@))) && e@
                == conflicting_macro(name@),
            Ok(_) => {
                let x = final(m)@.items.last();
                &&& !old(m)@.names.contains(NameView::Macro(test_hash(name@)))
                &&& final(m)@ == old(m)@.with_item(x)
                &&& item_name(x) == NameView::Macro(test_hash(name@))
                &&& has_macro(x, handler, name@, docs@)
            },
        },
        final(m)@.wf(),
{
    proof {
        reveal(test_hash);
        reveal(has_macro);
        assert(old(m)@.item.push(ComponentView::Str(name@)) =~= test_item(name@));
    }
    register_macro(m, name, handler, docs)
}

/// Register the type for benchmarks and its function.
#[verifier::spinoff_prover]
fn register_bencher(m: &mut Module) -> (r: Result<(), ContextError>)
    requires
        old(m)@.wf(),
        old(m)@.associated.len() == 0,
        forall|name: NameView|
            #![trigger old(m)@.names.contains(name)]
            old(m)@.names.contains(name) ==> name is Macro,
    ensures
        r is Ok,
        has_bencher(old(m)@, final(m)@),
        final(m)@.items == old(m)@.items,
        final(m)@.wf(),
{
    proof {
        reveal(has_bencher);
    }
    register_type::<Bencher>(m, BENCHER_DOCS)?;
    let ghost middle = m@;
    let ghost x = choose|x: ModuleType| #[trigger]
        is_documented::<Bencher>(x, BENCHER_DOCS@) && middle == old(m)@.with_type(x);

    let ty = Bencher::type_info();
    let arguments: Vec<Argument> = vec![("self", ty.hash.0), ("f", EMPTY)];
    assert(arguments@ =~= seq![("self", ty.hash.0), ("f", EMPTY)]);
    let meta = function(ty, "iter", ITER, arguments, TUPLE_HASH, ITER_DOCS);
    let ghost annotated = meta;
    assert(is_iter(annotated));
    proof {
        reveal(is_function);
        assert forall|name: NameView| middle.names.contains(name) implies !(name is Associated) by {
            let i = choose|i: int| 0 <= i < middle.names.len() && middle.names[i] == name;
            if i < old(m)@.names.len() {
                assert(old(m)@.names.contains(name));
            }
        }
    }

    match m.function_meta(meta) {
        Ok(_) => {},
        Err(e) => return Err(e),
    }

    assert(meta_registered(old(m)@.with_type(x), m@, annotated, Ok(())));
    Ok(())
}

/// The hashes of the names of the macros tell them apart.
proof fn lemma_hashes()
    ensures
        test_hash("assert"@) != test_hash("assert_eq"@),
        test_hash("assert"@) != test_hash("assert_ne"@),
        test_hash("assert_eq"@) != test_hash("assert_ne"@),
{
    reveal(test_hash);
    lemma_test_assert();
    lemma_test_assert_eq();
    lemma_test_assert_ne();
}

/// Testing and benchmarking.
#[verifier::spinoff_prover]
pub fn module() -> (r: Result<Module, ContextError>)
    ensures
        r matches Ok(m) && is_module(m@) && m@.wf(),
{
    proof {
        lemma_hashes();
    }
    let mut m = start()?;
    let ghost empty = m@;

    register(&mut m, "assert", ASSERT, ASSERT_DOCS)?;
    let ghost first = m@;
    let ghost a = NameView::Macro(test_hash("assert"@));
    let ghost b = NameView::Macro(test_hash("assert_eq"@));
    let ghost c = NameView::Macro(test_hash("assert_ne"@));
    assert(first.names =~= seq![a]);
    assert(first.names[0] == a);

    register(&mut m, "assert_eq", ASSERT_EQ, ASSERT_EQ_DOCS)?;
    let ghost second = m@;
    assert(second.names =~= seq![a, b]);
    assert(second.names[0] == a && second.names[1] == b);

    register(&mut m, "assert_ne", ASSERT_NE, ASSERT_NE_DOCS)?;
    let ghost third = m@;
    assert(third.names =~= seq![a, b, c]);
    assert(third.items =~= seq![first.items[0], second.items[1], third.items[2]]);

    register_bencher(&mut m)?;
    assert(third == empty.with_item(m@.items[0]).with_item(m@.items[1]).with_item(m@.items[2]));
    assert(is_start(empty));
    Ok(m)
}

} // verus!
