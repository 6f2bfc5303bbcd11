//! The rules by which single nodes of a syntax tree are lowered, once the nodes
//! inside of them are.

use vstd::prelude::*;
use crate::ast;
use crate::compile::error::{error, ConstError, CompileError, ErrorKind};
use crate::hash::{function_parameters_hash, ident_hash, index_hash, Hash64, EMPTY};
use crate::hir;
use crate::hir::ctxt::{Diagnostic, Env, Lowered, Needs, State};
use crate::hir::scopes::Layer;
use crate::hir::{Name, Variable};
use crate::list::{list_of, List};
use crate::query::{FieldMeta, Fields, GenericsParameters, ItemId, Kind, Meta, Named};
use crate::runtime::{ConstValue, Inline, Type, OBJECT_HASH, OWNED_TUPLE_HASH, TUPLE_HASH, VEC_HASH};
use crate::span::Span;
use crate::text::{capitalized, sorted};

verus! {

impl State {
    /// With the innermost layer of scope taken off.
    pub open spec fn popped(self, span: Span) -> Lowered<Layer> {
        let (scopes, r) = self.scopes.popped(span);
        (State { scopes, ..self }, r)
    }

    /// With a variable defined in the innermost layer of scope.
    pub open spec fn defined(self, name: Name, span: Span) -> Lowered<Variable> {
        let (scopes, r) = self.scopes.defined(name, span);
        (State { scopes, ..self }, r)
    }

    /// With a variable defined by the current pattern.
    pub open spec fn bound(self, name: Name, span: Span) -> Lowered<Variable> {
        match self.defined(name, span) {
            (st, Ok(variable)) => (
                State { bindings: st.bindings.push(variable), ..st },
                Ok(variable),
            ),
            (st, Err(e)) => (st, Err(e)),
        }
    }

    /// The variable that a name refers to, and with it captured.
    pub open spec fn found(self, name: Name) -> (State, Option<Variable>) {
        let (scopes, r) = self.scopes.found(name);
        (State { scopes, ..self }, r)
    }
}

/// The text of a label, if there is one.
#[verifier::opaque]
pub open spec fn label_text(label: Option<ast::Label>) -> Result<Option<String>, CompileError> {
    match label {
        Some(label) => match label.resolved() {
            Ok(text) => Ok(Some(text)),
            Err(e) => Err(e),
        },
        None => Ok(None),
    }
}

/// The literal that an integer with a suffix is, if it is in range.
#[verifier::opaque]
pub open spec fn integer(value: int, suffix: Option<ast::NumberSuffix>, span: Span) -> Result<
    hir::Lit,
    CompileError,
> {
    match suffix {
        Some(ast::NumberSuffix::Unsigned(_, size)) => if 0 <= value <= size.unsigned_max() {
            Ok(hir::Lit::Unsigned(value as u64))
        } else {
            Err(error(span, ErrorKind::BadUnsignedOutOfBounds { size }))
        },
        Some(ast::NumberSuffix::Signed(_, size)) => if -size.signed_max() - 1 <= value
            <= size.signed_max() {
            Ok(hir::Lit::Signed(value as i64))
        } else {
            Err(error(span, ErrorKind::BadSignedOutOfBounds { size }))
        },
        _ => if i64::MIN <= value <= i64::MAX {
            Ok(hir::Lit::Signed(value as i64))
        } else {
            Err(error(span, ErrorKind::BadSignedOutOfBounds { size: ast::NumberSize::S64 }))
        },
    }
}

/// The literal that a token stands for.
#[verifier::opaque]
pub open spec fn lit(in_template: bool, ast: ast::Lit) -> Result<hir::Lit, CompileError> {
    match ast {
        ast::Lit::Bool(lit) => Ok(hir::Lit::Bool(lit.value)),
        ast::Lit::Number(lit) => match lit.number {
            Err(e) => Err(error(lit.span, ErrorKind::Resolve(e))),
            Ok(number) => match number.value {
                ast::NumberValue::Float(n) => Ok(hir::Lit::Float(n)),
                ast::NumberValue::Integer(n) => integer(n.value(), number.suffix, lit.span),
            },
        },
        ast::Lit::Byte(lit) => match lit.value {
            Ok(b) => Ok(hir::Lit::Unsigned(b as u64)),
            Err(e) => Err(error(lit.span, ErrorKind::Resolve(e))),
        },
        ast::Lit::Char(lit) => match lit.value {
            Ok(c) => Ok(hir::Lit::Char(c)),
            Err(e) => Err(error(lit.span, ErrorKind::Resolve(e))),
        },
        ast::Lit::Str(lit) => match if in_template {
            lit.resolved_template()
        } else {
            lit.resolved()
        } {
            Ok(text) => Ok(hir::Lit::Str(text)),
            Err(e) => Err(e),
        },
        ast::Lit::ByteStr(lit) => match lit.value {
            Ok(bytes) => Ok(hir::Lit::ByteStr(bytes)),
            Err(e) => Err(error(lit.span, ErrorKind::Resolve(e))),
        },
    }
}

/// The literal that the negation of a number token stands for.
#[verifier::opaque]
pub open spec fn negated(ast: ast::LitNumber, span: Span) -> Result<hir::Lit, CompileError> {
    match ast.number {
        Err(e) => Err(error(ast.span, ErrorKind::Resolve(e))),
        Ok(number) => match number.value {
            ast::NumberValue::Float(n) => Ok(hir::Lit::Float(n.negated())),
            ast::NumberValue::Integer(n) => integer(-n.value(), number.suffix, span),
        },
    }
}

/// The number literal that an expression is, if it is one.
#[verifier::opaque]
pub open spec fn number_token(ast: ast::Expr) -> Option<ast::LitNumber> {
    match ast {
        ast::Expr::Lit(lit) => match lit.lit {
            ast::Lit::Number(n) => Some(n),
            _ => None,
        },
        _ => None,
    }
}

/// The key of an object, and where it is.
#[verifier::opaque]
pub open spec fn object_key(ast: ast::ObjectKey) -> Result<(Span, String), CompileError> {
    match ast {
        ast::ObjectKey::LitStr(lit) => match lit.resolved() {
            Ok(text) => Ok((lit.span, text)),
            Err(e) => Err(e),
        },
        ast::ObjectKey::Path(path) => match path.ident() {
            Some(ident) => match ident.resolved() {
                Ok(text) => Ok((ident.span, text)),
                Err(e) => Err(e),
            },
            None => Err(error(path.span, ErrorKind::Expected { expected: "object key" })),
        },
    }
}

/// The index of the first `..` from `i` on which is not the last item, or the
/// number of items.
pub open spec fn inner_rest(items: Seq<ast::Pat>, i: int) -> int
    decreases items.len() - i,
{
    if i < 0 || i >= items.len() - 1 {
        items.len() as int
    } else if items[i] is Rest {
        i
    } else {
        inner_rest(items, i + 1)
    }
}

/// Whether a sequence of patterns ends in `..`, and the number of patterns
/// without it. There can be no `..` before.
#[verifier::opaque]
pub open spec fn pat_items_count(items: Seq<ast::Pat>) -> Result<(bool, usize), CompileError> {
    let inner = inner_rest(items, 0);

    if inner < items.len() {
        Err(error(ast::pat_span(items[inner]), ErrorKind::UnsupportedPatternRest))
    } else if items.len() > 0 && items.last() is Rest {
        Ok((true, (items.len() - 1) as usize))
    } else {
        Ok((false, items.len() as usize))
    }
}

/// What is matched by a pattern of the struct or variant.
#[verifier::opaque]
pub open spec fn struct_kind(meta: Meta, enum_hash: Hash64) -> hir::PatSequenceKind {
    if enum_hash.0 != EMPTY {
        hir::PatSequenceKind::Type { hash: enum_hash, variant_hash: meta.hash }
    } else {
        hir::PatSequenceKind::Type { hash: meta.hash, variant_hash: Hash64(EMPTY) }
    }
}

/// The number of fields of a type in a tuple pattern, and what it matches.
#[verifier::opaque]
pub open spec fn tuple_match_for(meta: Meta) -> Option<(usize, hir::PatSequenceKind)> {
    match meta.kind {
        Kind::Struct { fields: Fields::Unnamed(args), enum_hash, .. } => Some(
            (args, struct_kind(meta, enum_hash)),
        ),
        Kind::Struct { fields: Fields::Empty, enum_hash, .. } => Some(
            (0, struct_kind(meta, enum_hash)),
        ),
        _ => None,
    }
}

/// Test if `name` is among the names.
pub open spec fn has_name(names: Seq<String>, name: Seq<char>) -> bool {
    exists|i: int| 0 <= i < names.len() && #[trigger] names[i]@ == name
}

/// The distinct names of the first `n` fields, in order.
#[verifier::opaque]
pub open spec fn field_names(fields: Seq<FieldMeta>, n: nat) -> Seq<String>
    decreases n,
{
    if n == 0 {
        Seq::empty()
    } else {
        let names = field_names(fields, (n - 1) as nat);

        if has_name(names, fields[n - 1].name@) {
            names
        } else {
            names.push(fields[n - 1].name)
        }
    }
}

/// The names of the fields of a type in a struct pattern, and what it matches.
///
/// A pattern which is only `..` matches types that have no named fields too.
#[verifier::opaque]
pub open spec fn struct_match_for(meta: Meta, open: bool) -> Option<
    (Seq<String>, hir::PatSequenceKind),
> {
    match meta.kind {
        Kind::Struct { fields: Fields::Named(fields), enum_hash, .. } => Some(
            (field_names(fields@, fields@.len()), struct_kind(meta, enum_hash)),
        ),
        Kind::Struct { enum_hash, .. } => if open {
            Some((Seq::empty(), struct_kind(meta, enum_hash)))
        } else {
            None
        },
        Kind::Type => if open {
            Some((Seq::empty(), struct_kind(meta, Hash64(EMPTY))))
        } else {
            None
        },
        _ => None,
    }
}

/// What a path to an item is lowered to.
#[verifier::opaque]
pub open spec fn expr_path_meta(needs: Needs, meta: Meta, span: Span) -> Result<
    hir::ExprKind,
    CompileError,
> {
    match needs {
        Needs::Value => match meta.kind {
            Kind::Struct { fields: Fields::Empty, .. } => Ok(call_of(meta.hash)),
            Kind::Struct { fields: Fields::Unnamed(args), .. } => if args == 0 {
                Ok(call_of(meta.hash))
            } else {
                Ok(hir::ExprKind::Fn(meta.hash))
            },
            Kind::Function => Ok(hir::ExprKind::Fn(meta.hash)),
            Kind::Const => Ok(hir::ExprKind::Const(meta.hash)),
            Kind::Struct { .. } | Kind::Type | Kind::Enum => Ok(
                hir::ExprKind::Type(Type { hash: meta.hash }),
            ),
            _ => Err(
                error(
                    span,
                    ErrorKind::ExpectedMeta {
                        meta: meta.described(),
                        expected: "something that can be used as a value",
                    },
                ),
            ),
        },
        Needs::Type => match meta.type_hash() {
            Some(hash) => Ok(hir::ExprKind::Type(Type { hash })),
            None => Err(
                error(
                    span,
                    ErrorKind::ExpectedMeta {
                        meta: meta.described(),
                        expected: "something that has a type",
                    },
                ),
            ),
        },
    }
}

/// A call of an item without arguments.
#[verifier::opaque]
pub open spec fn call_of(hash: Hash64) -> hir::ExprKind {
    hir::ExprKind::Call(
        Box::new(hir::ExprCall { call: hir::Call::Meta { hash }, args: List::Nil }),
    )
}

/// The error for a path to an item that does not exist. A single name which is
/// used as a value, and which is not capitalized, is taken for a variable.
#[verifier::opaque]
pub open spec fn missing_path(
    span: Span,
    local: Option<String>,
    capitalized: bool,
    item: ItemId,
    parameters: GenericsParameters,
) -> CompileError {
    match local {
        Some(name) => if capitalized {
            error(span, ErrorKind::MissingItemParameters { item, parameters })
        } else {
            error(span, ErrorKind::MissingLocal { name })
        },
        None => error(span, ErrorKind::MissingItemParameters { item, parameters }),
    }
}

/// A pattern for a literal value.
#[verifier::opaque]
pub open spec fn const_lit(lit: hir::Lit, span: Span) -> hir::Pat {
    hir::Pat {
        span,
        kind: hir::PatKind::Lit(Box::new(hir::Expr { span, kind: hir::ExprKind::Lit(lit) })),
    }
}

/// A pattern for a sequence of exactly the given items.
#[verifier::opaque]
pub open spec fn const_sequence(hash: u64, items: Seq<hir::Pat>, span: Span) -> hir::Pat {
    hir::Pat {
        span,
        kind: hir::PatKind::Sequence(
            hir::PatSequence {
                kind: hir::PatSequenceKind::Sequence {
                    hash: Hash64(hash),
                    count: items.len() as usize,
                    is_open: false,
                },
                items: list_of(items),
            },
        ),
    }
}

/// A pattern for an object of exactly the given keys.
#[verifier::opaque]
pub open spec fn const_object(bindings: Seq<hir::Binding>, span: Span) -> hir::Pat {
    hir::Pat {
        span,
        kind: hir::PatKind::Object(
            hir::PatObject {
                kind: hir::PatSequenceKind::Sequence {
                    hash: Hash64(OBJECT_HASH),
                    count: bindings.len() as usize,
                    is_open: false,
                },
                bindings: list_of(bindings),
            },
        ),
    }
}

/// The error for a constant that no pattern can stand for.
#[verifier::opaque]
pub open spec fn unsupported_const(span: Span) -> CompileError {
    error(span, ErrorKind::Msg("Unsupported constant value in pattern"))
}

/// The pattern that a constant value stands for.
pub open spec fn pat_const_value(value: ConstValue, span: Span) -> Result<hir::Pat, CompileError>
    decreases value, 0nat,
{
    match value {
        ConstValue::Inline(value) => match value {
            Inline::Unit => Ok(const_sequence(TUPLE_HASH, Seq::empty(), span)),
            Inline::Bool(b) => Ok(const_lit(hir::Lit::Bool(b), span)),
            Inline::Char(c) => Ok(const_lit(hir::Lit::Char(c), span)),
            Inline::Unsigned(n) => Ok(const_lit(hir::Lit::Unsigned(n), span)),
            Inline::Signed(n) => Ok(const_lit(hir::Lit::Signed(n), span)),
            _ => Err(unsupported_const(span)),
        },
        ConstValue::String(string) => Ok(const_lit(hir::Lit::Str(string), span)),
        ConstValue::Bytes(bytes) => Ok(const_lit(hir::Lit::ByteStr(bytes), span)),
        ConstValue::Instance(instance) => if instance.variant_hash != Hash64(EMPTY) {
            Err(unsupported_const(span))
        } else if instance.hash == Hash64(VEC_HASH) || instance.hash == Hash64(OWNED_TUPLE_HASH) {
            match const_pats(instance.fields@, span, 0, Seq::empty()) {
                Ok(items) => Ok(const_sequence(VEC_HASH, items, span)),
                Err(e) => Err(e),
            }
        } else if instance.hash == Hash64(OBJECT_HASH) {
            match const_bindings(instance.fields@, span, 0, Seq::empty()) {
                Ok(bindings) => Ok(const_object(bindings, span)),
                Err(e) => Err(e),
            }
        } else {
            Err(unsupported_const(span))
        },
    }
}

/// The patterns that constant values from index `i` on stand for, behind those
/// in `items`.
pub open spec fn const_pats(
    values: Seq<ConstValue>,
    span: Span,
    i: int,
    items: Seq<hir::Pat>,
) -> Result<Seq<hir::Pat>, CompileError>
    decreases values, values.len() - i,
{
    if i < 0 || i >= values.len() {
        Ok(items)
    } else {
        match pat_const_value(values[i], span) {
            Ok(item) => const_pats(values, span, i + 1, items.push(item)),
            Err(e) => Err(e),
        }
    }
}

/// The bindings that constant pairs of a key and a value stand for.
pub open spec fn const_bindings(
    values: Seq<ConstValue>,
    span: Span,
    i: int,
    bindings: Seq<hir::Binding>,
) -> Result<Seq<hir::Binding>, CompileError>
    decreases values, values.len() - i,
{
    if i < 0 || i >= values.len() {
        Ok(bindings)
    } else if !values[i].is_pair() {
        Err(error(span, ErrorKind::Const(ConstError::ExpectedPair)))
    } else {
        match values[i]->Instance_0.fields@[0] {
            ConstValue::String(key) => match pat_const_value(
                values[i]->Instance_0.fields@[1],
                span,
            ) {
                Ok(pat) => const_bindings(
                    values,
                    span,
                    i + 1,
                    bindings.push(hir::Binding::Binding(span, key, Box::new(pat))),
                ),
                Err(e) => Err(e),
            },
            _ => Err(error(span, ErrorKind::Const(ConstError::ExpectedString))),
        }
    }
}

/// The index of the first binding from `i` on with the given key, or the
/// number of bindings.
pub open spec fn binding_index(bindings: Seq<hir::Binding>, key: Seq<char>, i: int) -> int
    decreases bindings.len() - i,
{
    if i < 0 || i >= bindings.len() {
        bindings.len() as int
    } else if bindings[i].key_of()@ == key {
        i
    } else {
        binding_index(bindings, key, i + 1)
    }
}

/// The index of the first assignment from `i` on with the given key, or the
/// number of assignments.
pub open spec fn assignment_index(assigns: Seq<hir::FieldAssign>, key: Seq<char>, i: int) -> int
    decreases assigns.len() - i,
{
    if i < 0 || i >= assigns.len() {
        assigns.len() as int
    } else if assigns[i].key.1@ == key {
        i
    } else {
        assignment_index(assigns, key, i + 1)
    }
}

/// The names which are not the key of a binding from index `i` on, or the
/// first such key which is not a name.
pub open spec fn unbound(names: Seq<String>, bindings: Seq<hir::Binding>, i: int) -> Result<
    Seq<String>,
    String,
>
    decreases bindings.len() - i,
{
    if i < 0 || i >= bindings.len() {
        Ok(names)
    } else {
        let at = name_index(names, bindings[i].key_of()@, 0);

        if at >= names.len() {
            Err(bindings[i].key_of())
        } else {
            unbound(names.remove(at), bindings, i + 1)
        }
    }
}

/// The index of a name from `i` on, or the number of names.
pub open spec fn name_index(names: Seq<String>, name: Seq<char>, i: int) -> int
    decreases names.len() - i,
{
    if i < 0 || i >= names.len() {
        names.len() as int
    } else if names[i]@ == name {
        i
    } else {
        name_index(names, name, i + 1)
    }
}

/// What a struct pattern of a type matches, if it can be one.
#[verifier::opaque]
pub open spec fn object_pat_kind(
    meta: Meta,
    is_open: bool,
    count: usize,
    bindings: Seq<hir::Binding>,
    path_span: Span,
    span: Span,
) -> Result<hir::PatSequenceKind, CompileError> {
    match struct_match_for(meta, is_open && count == 0) {
        None => Err(
            error(
                path_span,
                ErrorKind::ExpectedMeta {
                    meta: meta.described(),
                    expected: "type that can be used in a struct pattern",
                },
            ),
        ),
        Some((names, kind)) => match unbound(names, bindings, 0) {
            Err(field) => Err(
                error(
                    span,
                    ErrorKind::LitObjectNotField { field, item: meta.item_meta.item },
                ),
            ),
            Ok(names) => if !is_open && names.len() > 0 {
                Err(
                    error(
                        span,
                        ErrorKind::PatternMissingFields {
                            item: meta.item_meta.item,
                            fields: list_of(sorted(names, names.len())),
                        },
                    ),
                )
            } else {
                Ok(kind)
            },
        },
    }
}

/// What a tuple pattern of a type matches, if it can be one.
#[verifier::opaque]
pub open spec fn tuple_pat_kind(meta: Meta, is_open: bool, count: usize, span: Span) -> Result<
    hir::PatSequenceKind,
    CompileError,
> {
    match tuple_match_for(meta) {
        None => Err(
            error(
                span,
                ErrorKind::ExpectedMeta {
                    meta: meta.described(),
                    expected: "type that can be used in a tuple pattern",
                },
            ),
        ),
        Some((args, kind)) => if args == count || (count < args && is_open) {
            Ok(kind)
        } else {
            Err(error(span, ErrorKind::BadArgumentCount { expected: args, actual: count }))
        },
    }
}

/// The position of the last of the first `n` fields with the given name.
pub open spec fn position_of(fields: Seq<FieldMeta>, name: Seq<char>, n: nat) -> Option<usize>
    decreases n,
{
    if n == 0 {
        None
    } else if fields[n - 1].name@ == name {
        Some(fields[n - 1].position)
    } else {
        position_of(fields, name, (n - 1) as nat)
    }
}

/// The index of the first field from `i` on which is not assigned to, or the
/// number of fields.
pub open spec fn unassigned(
    fields: Seq<FieldMeta>,
    assigns: Seq<hir::FieldAssign>,
    i: int,
) -> int
    decreases fields.len() - i,
{
    if i < 0 || i >= fields.len() {
        fields.len() as int
    } else if assignment_index(assigns, fields[i].name@, 0) >= assigns.len() {
        i
    } else {
        unassigned(fields, assigns, i + 1)
    }
}

/// The index of the first assignment from `i` on whose key is no field, or is
/// one that is already assigned to. The number of assignments if there is none.
pub open spec fn unknown_field(
    fields: Seq<FieldMeta>,
    assigns: Seq<hir::FieldAssign>,
    i: int,
) -> int
    decreases assigns.len() - i,
{
    if i < 0 || i >= assigns.len() {
        assigns.len() as int
    } else if position_of(fields, assigns[i].key.1@, fields.len()) is None || assignment_index(
        assigns,
        assigns[i].key.1@,
        0,
    ) < i {
        i
    } else {
        unknown_field(fields, assigns, i + 1)
    }
}

/// The assignments with the positions of their fields. Every key has to be a
/// field, and every field has to be assigned to once.
#[verifier::opaque]
pub open spec fn check_object_fields(
    fields: Seq<FieldMeta>,
    assigns: Seq<hir::FieldAssign>,
    item: ItemId,
    span: Span,
) -> Result<Seq<hir::FieldAssign>, CompileError> {
    let unknown = unknown_field(fields, assigns, 0);
    let missing = unassigned(fields, assigns, 0);

    if unknown < assigns.len() {
        Err(
            error(
                assigns[unknown].key.0,
                ErrorKind::LitObjectNotField { field: assigns[unknown].key.1, item },
            ),
        )
    } else if missing < fields.len() {
        Err(error(span, ErrorKind::LitObjectMissingField { field: fields[missing].name, item }))
    } else {
        Ok(
            Seq::new(
                assigns.len(),
                |i: int|
                    hir::FieldAssign {
                        position: position_of(fields, assigns[i].key.1@, fields.len()),
                        ..assigns[i]
                    },
            ),
        )
    }
}

/// What an object literal of a type builds, and its assignments with the
/// positions of their fields.
#[verifier::opaque]
pub open spec fn object_kind(meta: Meta, assigns: Seq<hir::FieldAssign>, span: Span) -> Result<
    (hir::ExprObjectKind, Seq<hir::FieldAssign>),
    CompileError,
> {
    let item = meta.item_meta.item;

    match meta.kind {
        Kind::Struct { fields: Fields::Empty, constructor, .. } => match check_object_fields(
            Seq::empty(),
            assigns,
            item,
            span,
        ) {
            Ok(assigns) => Ok((constructed(meta.hash, constructor, 0), assigns)),
            Err(e) => Err(e),
        },
        Kind::Struct { fields: Fields::Named(fields), constructor, .. } => match check_object_fields(
            fields@,
            assigns,
            item,
            span,
        ) {
            Ok(assigns) => Ok(
                (constructed(meta.hash, constructor, fields@.len() as usize), assigns),
            ),
            Err(e) => Err(e),
        },
        _ => Err(error(span, ErrorKind::UnsupportedLitObject { meta: meta.described() })),
    }
}

/// What builds a value of a type: its native constructor, if it has one.
#[verifier::opaque]
pub open spec fn constructed(hash: Hash64, constructor: bool, args: usize) -> hir::ExprObjectKind {
    if constructor {
        hir::ExprObjectKind::ExternalType { hash, args }
    } else {
        hir::ExprObjectKind::Struct { hash }
    }
}

/// What the call of an item with the given number of arguments is.
#[verifier::opaque]
pub open spec fn call_meta(
    env: Env,
    st: State,
    meta: Meta,
    ast: ast::ExprCall,
    path_span: Span,
    callee_span: Span,
) -> Lowered<hir::Call> {
    let actual = ast.args@.len() as usize;

    match meta.kind {
        Kind::Struct { fields: Fields::Empty, .. } => if actual != 0 {
            (
                st,
                Err(error(ast.args_span, ErrorKind::BadArgumentCount { expected: 0, actual })),
            )
        } else {
            (st, Ok(hir::Call::Meta { hash: meta.hash }))
        },
        Kind::Struct { fields: Fields::Unnamed(args), .. } => if actual != args {
            (
                st,
                Err(error(ast.args_span, ErrorKind::BadArgumentCount { expected: args, actual })),
            )
        } else if args == 0 {
            (
                st.telling(
                    Diagnostic::RemoveTupleCallParens {
                        source_id: env.source_id,
                        span: ast.args_span,
                        variant: path_span,
                    },
                ),
                Ok(hir::Call::Meta { hash: meta.hash }),
            )
        } else {
            (st, Ok(hir::Call::Meta { hash: meta.hash }))
        },
        Kind::Function => match env.db.deprecation_of(meta.hash) {
            Some(message) => (
                st.telling(
                    Diagnostic::UsedDeprecated {
                        source_id: env.source_id,
                        span: callee_span,
                        message,
                    },
                ),
                Ok(hir::Call::Meta { hash: meta.hash }),
            ),
            None => (st, Ok(hir::Call::Meta { hash: meta.hash })),
        },
        Kind::ConstFn => match env.db.item_of("lowering constant function", ast.id, ast.span) {
            Ok(from) => (
                st,
                Ok(
                    hir::Call::ConstFn {
                        from_module: from.module,
                        from_item: from.item,
                        id: meta.item_meta.item,
                    },
                ),
            ),
            Err(e) => (st, Err(e)),
        },
        _ => (
            st,
            Err(
                error(
                    ast.span,
                    ErrorKind::ExpectedMeta {
                        meta: meta.described(),
                        expected: "something that can be called as a function",
                    },
                ),
            ),
        ),
    }
}

/// What the call of a field of a value is. Names of fields are made known to
/// a debugger.
#[verifier::opaque]
pub open spec fn call_field(st: State, access: hir::ExprFieldAccess) -> (State, hir::Call) {
    let target = access.expr;

    match access.expr_field {
        hir::ExprField::Index(index) => (
            st,
            hir::Call::Associated { target, hash: index_hash(index as u64) },
        ),
        hir::ExprField::Ident(ident) => (
            st.naming(ident),
            hir::Call::Associated { target, hash: ident_hash(ident@) },
        ),
        hir::ExprField::IdentGenerics(ident, parameters) => (
            st.naming(ident),
            hir::Call::Associated {
                target,
                hash: function_parameters_hash(ident_hash(ident@), parameters),
            },
        ),
    }
}

} // verus!
