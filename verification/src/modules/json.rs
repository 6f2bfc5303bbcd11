//! Processing JSON.

use vstd::prelude::*;
use vstd::string::*;
use crate::hash::{ident_hash, type_hash, Hash64, EMPTY};
use crate::hash_laws::{
    lemma_debug_fmt, lemma_display_fmt, lemma_json_error, lemma_json_from_bytes,
    lemma_json_from_string, lemma_json_to_bytes, lemma_json_to_string,
};
use crate::item::{ComponentView, ItemBuf};
use crate::module::{
    AssociatedKindView, ContextError, FunctionHandler, FunctionMeta, InstallWith, Module, ModuleMeta,
    ModuleState, ModuleType, NameView,
};
use crate::modules::native::{
    all_free, all_registered, annotated_protocol_function, free_function,
    is_annotated_protocol_function, is_documented, is_free_function, lemma_all_registered,
    meta_name, register_all, register_type, result, Argument,
};
use crate::runtime::{Named, TypeInfo, TypeOf, STRING_HASH, TUPLE_HASH};
use crate::text::{lines, split_lines, texts};

verus! {

/// Documentation of the module.
pub const MODULE_DOCS: &'static str = " Module for processing JSON.

 # Examples

 ```rune
 let object = #{\"number\": 42, \"string\": \"Hello World\"};
 let object = json::from_string(json::to_string(object)?)?;
 assert_eq!(object, #{\"number\": 42, \"string\": \"Hello World\"});
 ```";

/// Documentation of `from_bytes`.
pub const FROM_BYTES_DOCS: &'static str = " Convert JSON bytes into a rune value.

 # Examples

 ```rune
 let object = json::from_bytes(b\"{\\\"number\\\": 42, \\\"string\\\": \\\"Hello World\\\"}\")?;
 assert_eq!(object, #{\"number\": 42, \"string\": \"Hello World\"});
 ```";

/// Documentation of `from_string`.
pub const FROM_STRING_DOCS: &'static str = " Convert a JSON string into a rune value.

 # Examples

 ```rune
 let object = json::from_string(\"{\\\"number\\\": 42, \\\"string\\\": \\\"Hello World\\\"}\")?;
 assert_eq!(object, #{\"number\": 42, \"string\": \"Hello World\"});
 ```";

/// Documentation of `to_string`.
pub const TO_STRING_DOCS: &'static str = " Convert any value to a json string.

 # Examples

 ```rune
 let object = #{\"number\": 42, \"string\": \"Hello World\"};
 let object = json::from_string(json::to_string(object)?)?;
 assert_eq!(object, #{\"number\": 42, \"string\": \"Hello World\"});
 ```";

/// Documentation of `to_bytes`.
pub const TO_BYTES_DOCS: &'static str = " Convert any value to json bytes.

 # Examples

 ```rune
 let object = #{\"number\": 42, \"string\": \"Hello World\"};
 let object = json::from_bytes(json::to_bytes(object)?)?;
 assert_eq!(object, #{\"number\": 42, \"string\": \"Hello World\"});
 ```";

/// The error of the parser.
#[verifier::external_type_specification]
#[verifier::external_body]
pub struct ExJsonError(serde_json::Error);

/// Whether an error comes from reading or writing, in which case how it is shown
/// is up to the system.
pub uninterp spec fn is_io(error: serde_json::Error) -> bool;

/// How an error is shown to users.
pub uninterp spec fn error_text(error: serde_json::Error) -> Seq<char>;

/// How an error is shown for debugging.
pub uninterp spec fn error_debug(error: serde_json::Error) -> Seq<char>;

/// Test if an error is one of reading or writing, which is what
/// [`serde_json::Error::is_io`] tells by what the error was made of.
#[verifier::external_body]
fn error_is_io(error: &serde_json::Error) -> (r: bool)
    ensures
        r == is_io(*error),
{
    error.is_io()
}

/// Show an error to users, which is what the `Display` of
/// [`serde_json::Error`] writes: what went wrong and, unless the line is zero,
/// where it did. It depends on the error alone, unless it is one of reading or
/// writing.
#[verifier::external_body]
fn display_error(error: &serde_json::Error) -> (r: String)
    ensures
        !is_io(*error) ==> r@ == error_text(*error),
{
    format!("{}", error)
}

/// Show an error for debugging, which is what the `Debug` of
/// [`serde_json::Error`] writes: what went wrong and where it did. It depends on
/// the error alone, unless it is one of reading or writing.
#[verifier::external_body]
fn debug_error(error: &serde_json::Error) -> (r: String)
    ensures
        !is_io(*error) ==> r@ == error_debug(*error),
{
    format!("{:?}", error)
}

/// The error of converting from or to JSON.
pub struct JsonError {
    /// The error of the parser.
    pub error: serde_json::Error,
}

impl JsonError {
    /// Test if the error is one of reading or writing. How any other error is
    /// written depends on the error alone.
    pub fn is_io(&self) -> (r: bool)
        ensures
            r == is_io(self.error),
    {
        error_is_io(&self.error)
    }

    /// Write the error to users.
    pub fn display(&self, f: &mut String)
        ensures
            exists|text: Seq<char>| #[trigger] appended(old(f)@, text, final(f)@) && (!is_io(
                self.error,
            ) ==> text == error_text(self.error)),
    {
        let text = display_error(&self.error);
        f.append(text.as_str());
        assert(appended(old(f)@, text@, f@));
    }

    /// Write the error for debugging.
    pub fn debug(&self, f: &mut String)
        ensures
            exists|text: Seq<char>| #[trigger] appended(old(f)@, text, final(f)@) && (!is_io(
                self.error,
            ) ==> text == error_debug(self.error)),
    {
        let text = debug_error(&self.error);
        f.append(text.as_str());
        assert(appended(old(f)@, text@, f@));
    }
}

/// Call the function on an error that is registered under a number. Tells whether
/// there is one.
pub fn call(handler: FunctionHandler, error: &JsonError, f: &mut String) -> (r: bool)
    ensures
        r == (handler.0 == DISPLAY || handler.0 == DEBUG),
        !r ==> final(f)@ == old(f)@,
        r ==> exists|text: Seq<char>| #[trigger]
            appended(old(f)@, text, final(f)@) && (!is_io(error.error) ==> text == (if handler.0
                == DISPLAY {
                error_text(error.error)
            } else {
                error_debug(error.error)
            })),
{
    if handler.0 == DISPLAY {
        error.display(f);
        true
    } else if handler.0 == DEBUG {
        error.debug(f);
        true
    } else {
        false
    }
}

/// Test if a text is put behind another one.
pub open spec fn appended(before: Seq<char>, text: Seq<char>, after: Seq<char>) -> bool {
    after == before + text
}

impl From<serde_json::Error> for JsonError {
    fn from(error: serde_json::Error) -> (r: Self) {
        JsonError { error }
    }
}

impl vstd::std_specs::convert::FromSpecImpl<serde_json::Error> for JsonError {
    open spec fn obeys_from_spec() -> bool {
        true
    }

    open spec fn from_spec(error: serde_json::Error) -> Self {
        JsonError { error }
    }
}

impl TypeOf for JsonError {
    open spec fn hash() -> Hash64 {
        type_hash(<JsonError as Named>::item())
    }

    open spec fn parameters() -> Hash64 {
        Hash64(EMPTY)
    }

    open spec fn info() -> TypeInfo {
        TypeInfo { hash: <JsonError as TypeOf>::hash(), name: "::json::Error" }
    }

    fn type_hash() -> (hash: Hash64) {
        Hash64::type_hash(&JsonError::named_item())
    }

    fn type_parameters() -> (hash: Hash64) {
        Hash64(EMPTY)
    }

    fn type_info() -> (info: TypeInfo) {
        TypeInfo { hash: JsonError::type_hash(), name: "::json::Error" }
    }
}

impl Named for JsonError {
    open spec fn item() -> Seq<ComponentView> {
        seq![ComponentView::Crate("json"@), ComponentView::Str("Error"@)]
    }

    open spec fn shown() -> Seq<char> {
        "::json::Error"@
    }

    fn named_item() -> (item: ItemBuf) {
        let item = ItemBuf::with_crate_item("json", vec!["Error"]);
        assert(item@ =~= <JsonError as Named>::item());
        item
    }

    fn display() -> (name: String) {
        "::json::Error".to_owned()
    }
}

impl InstallWith for JsonError {
    open spec fn installed(
        before: ModuleState,
        after: ModuleState,
        r: Result<(), ContextError>,
    ) -> bool {
        after == before && r is Ok
    }

    fn install_with(module: &mut Module) -> (r: Result<(), ContextError>) {
        Ok(())
    }
}

/// The number of [`JsonError::display`].
pub const DISPLAY: u64 = 0;

/// The number of [`JsonError::debug`].
pub const DEBUG: u64 = 1;

/// The number of `from_bytes`.
pub const FROM_BYTES: u64 = 2;

/// The number of `from_string`.
pub const FROM_STRING: u64 = 3;

/// The number of `to_string`.
pub const TO_STRING: u64 = 4;

/// The number of `to_bytes`.
pub const TO_BYTES: u64 = 5;

/// The hash of the type of bytes.
pub const BYTES_HASH: u64 = 0x1efb_480a_162a_0e08;

/// The hash of the type of results.
pub const RESULT_HASH: u64 = 0x1c20_76a3_e3f1_f948;

/// Test if these are the annotations of the functions of the module, in the
/// order in which they are registered.
#[verifier::opaque]
pub open spec fn are_functions(metas: Seq<FunctionMeta>) -> bool {
    let ty = <JsonError as TypeOf>::info();
    let error = ty.hash.0;
    let shows = seq![("self", error), ("f", EMPTY)];
    &&& metas.len() == 6
    &&& is_annotated_protocol_function(metas[0], ty, "DISPLAY_FMT", DISPLAY, shows, TUPLE_HASH)
    &&& is_annotated_protocol_function(metas[1], ty, "DEBUG_FMT", DEBUG, shows, TUPLE_HASH)
    &&& is_free_function(
        metas[2],
        "from_bytes"@,
        FROM_BYTES,
        seq![("bytes", BYTES_HASH)],
        RESULT_HASH,
        FROM_BYTES_DOCS@,
    )
    &&& is_free_function(
        metas[3],
        "from_string"@,
        FROM_STRING,
        seq![("string", STRING_HASH)],
        RESULT_HASH,
        FROM_STRING_DOCS@,
    )
    &&& is_free_function(
        metas[4],
        "to_string"@,
        TO_STRING,
        seq![("value", EMPTY)],
        RESULT_HASH,
        TO_STRING_DOCS@,
    )
    &&& is_free_function(
        metas[5],
        "to_bytes"@,
        TO_BYTES,
        seq![("value", EMPTY)],
        RESULT_HASH,
        TO_BYTES_DOCS@,
    )
}

/// A single argument.
fn single(name: &'static str, ty: u64) -> (arguments: Vec<Argument>)
    ensures
        arguments@ == seq![(name, ty)],
{
    let mut arguments: Vec<Argument> = Vec::new();
    arguments.push((name, ty));
    assert(arguments@ =~= seq![(name, ty)]);
    arguments
}

/// The arguments of a function that shows an error.
fn shows(error: u64) -> (arguments: Vec<Argument>)
    ensures
        arguments@ == seq![("self", error), ("f", EMPTY)],
{
    let mut arguments: Vec<Argument> = Vec::new();
    arguments.push(("self", error));
    arguments.push(("f", EMPTY));
    assert(arguments@ =~= seq![("self", error), ("f", EMPTY)]);
    arguments
}

/// Annotate the functions of the module.
fn functions() -> (metas: Vec<FunctionMeta>)
    ensures
        are_functions(metas@),
{
    proof {
        reveal(are_functions);
    }
    let ty = JsonError::type_info();
    let error: u64 = ty.hash.0;
    let mut metas: Vec<FunctionMeta> = Vec::new();
    metas.push(annotated_protocol_function(ty, "DISPLAY_FMT", DISPLAY, shows(error), TUPLE_HASH));
    metas.push(annotated_protocol_function(ty, "DEBUG_FMT", DEBUG, shows(error), TUPLE_HASH));
    metas.push(
        free_function("from_bytes", FROM_BYTES, single("bytes", BYTES_HASH), RESULT_HASH, FROM_BYTES_DOCS),
    );
    metas.push(
        free_function(
            "from_string",
            FROM_STRING,
            single("string", STRING_HASH),
            RESULT_HASH,
            FROM_STRING_DOCS,
        ),
    );
    metas.push(free_function("to_string", TO_STRING, single("value", EMPTY), RESULT_HASH, TO_STRING_DOCS));
    metas.push(free_function("to_bytes", TO_BYTES, single("value", EMPTY), RESULT_HASH, TO_BYTES_DOCS));
    metas
}

/// Test if this is the module before its functions are registered: its error
/// type is.
pub open spec fn is_start(m: ModuleState) -> bool {
    exists|empty: ModuleState, ty: ModuleType|
        #![trigger is_empty(empty), is_documented::<JsonError>(ty, ""@)]
        is_empty(empty) && is_documented::<JsonError>(ty, ""@) && m == empty.with_type(ty)
}

/// Test if nothing is registered in the module.
pub open spec fn is_empty(m: ModuleState) -> bool {
    &&& m == ModuleState::empty(seq![ComponentView::Crate("json"@)], m.common)
    &&& texts(m.common.docs.docs@) == lines(MODULE_DOCS@)
    &&& m.common.docs.arguments is None
    &&& m.common.deprecated is None
}

/// Test if this is the module: the type and the functions are registered one
/// after the other.
pub open spec fn is_module(m: ModuleState) -> bool {
    exists|start: ModuleState, metas: Seq<FunctionMeta>|
        #![trigger is_start(start), are_functions(metas)]
        is_start(start) && are_functions(metas) && all_registered(start, m, metas, 0, Ok(()))
}

/// Where a name stands among those of the functions of the module.
spec fn place(name: NameView) -> int {
    match name {
        NameView::Associated(_, AssociatedKindView::Protocol(hash), _) => if hash == ident_hash(
            "DISPLAY_FMT"@,
        ) {
            0
        } else {
            1
        },
        NameView::Item(hash) => if hash == json_hash("from_bytes"@) {
            2
        } else if hash == json_hash("from_string"@) {
            3
        } else if hash == json_hash("to_string"@) {
            4
        } else if hash == json_hash("to_bytes"@) {
            5
        } else {
            6
        },
        _ => 6,
    }
}

/// The hash of the name of something in the module.
#[verifier::opaque]
spec fn json_hash(name: Seq<char>) -> Hash64 {
    type_hash(seq![ComponentView::Crate("json"@), ComponentView::Str(name)])
}

/// The hashes of what is in the module tell it apart.
proof fn lemma_hashes()
    ensures
        ident_hash("DISPLAY_FMT"@) != ident_hash("DEBUG_FMT"@),
        place(NameView::Item(json_hash("from_bytes"@))) == 2,
        place(NameView::Item(json_hash("from_string"@))) == 3,
        place(NameView::Item(json_hash("to_string"@))) == 4,
        place(NameView::Item(json_hash("to_bytes"@))) == 5,
        place(NameView::Item(json_hash("Error"@))) == 6,
{
    reveal(json_hash);
    lemma_display_fmt();
    lemma_debug_fmt();
    lemma_json_from_bytes();
    lemma_json_from_string();
    lemma_json_to_string();
    lemma_json_to_bytes();
    lemma_json_error();
}

/// Every function takes a name of its own, which stands where the function does.
#[verifier::spinoff_prover]
proof fn lemma_names(metas: Seq<FunctionMeta>)
    requires
        are_functions(metas),
    ensures
        metas.len() == 6,
        forall|i: int|
            0 <= i < 6 ==> place(
                #[trigger] meta_name(seq![ComponentView::Crate("json"@)], metas[i]),
            ) == i,
{
    let item = seq![ComponentView::Crate("json"@)];
    assert forall|name: Seq<char>| #[trigger]
        type_hash(item + seq![ComponentView::Str(name)]) == json_hash(name) by {
        reveal(json_hash);
        assert(item + seq![ComponentView::Str(name)] =~= seq![
            ComponentView::Crate("json"@),
            ComponentView::Str(name),
        ]);
    }
    reveal(are_functions);
    reveal(is_annotated_protocol_function);
    reveal(is_free_function);
    lemma_hashes();
}

/// The names of the functions of the module are free when they are registered.
proof fn lemma_free(start: ModuleState, metas: Seq<FunctionMeta>)
    requires
        is_start(start),
        are_functions(metas),
    ensures
        all_free(start, metas, 0),
{
    lemma_names(metas);
    lemma_hashes();
    reveal(json_hash);
    assert(start.names =~= seq![NameView::Item(json_hash("Error"@))]);
}

/// The module with nothing but its type.
fn start() -> (r: Result<Module, ContextError>)
    ensures
        r matches Ok(m) && is_start(m@) && m@.wf(),
{
    let item = ItemBuf::with_crate("json");
    let mut m = Module::from_meta(ModuleMeta { item, docs: split_lines(MODULE_DOCS) })?;
    assert(is_empty(m@));
    register_type::<JsonError>(&mut m, "")?;
    Ok(m)
}

/// Module for processing JSON.
#[verifier::spinoff_prover]
pub fn module(_stdio: bool) -> (r: Result<Module, ContextError>)
    ensures
        r matches Ok(m) && is_module(m@) && m@.wf(),
{
    let mut m = start()?;
    let ghost before = m@;
    let metas = functions();
    let ghost all = metas@;
    let r = register_all(&mut m, metas);
    proof {
        lemma_free(before, all);
        lemma_all_registered(before, m@, all, 0, result(r));
        assert(is_start(before) && are_functions(all));
    }

    match r {
        Ok(_) => Ok(m),
        Err(e) => Err(e),
    }
}

} // verus!
