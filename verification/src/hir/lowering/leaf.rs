//! Lowering of single nodes, once the nodes inside of them are lowered.

use vstd::prelude::*;
use crate::ast;
use crate::compile::error::{CompileError, ErrorKind};
use crate::hash::{Hash64, EMPTY};
use crate::hir;
use crate::hir::ctxt::{Ctxt, Diagnostic, Lowered, State, Needs};
use crate::hir::model;
use crate::hir::rules;
use crate::integer::Integer;
use crate::list::List;
use crate::query::{FieldMeta, Fields, GenericsParameters, ItemId, Kind, Meta};
use crate::runtime::{ConstValue, Inline, Type, OBJECT_HASH, OWNED_TUPLE_HASH, TUPLE_HASH, VEC_HASH};
use crate::span::Span;
use crate::text::sort;

verus! {

broadcast use crate::hir::frame::group_follows;

/// Test if a step of lowering ends in a state and gives a result.
pub open spec fn gives<T>(st: State, r: Result<T, CompileError>, expected: Lowered<T>) -> bool {
    st == expected.0 && r == expected.1
}

/// A result of several items, with the items taken as a sequence.
pub open spec fn viewed<T>(r: Result<Vec<T>, CompileError>) -> Result<Seq<T>, CompileError> {
    match r {
        Ok(items) => Ok(items@),
        Err(e) => Err(e),
    }
}

impl<'a> Ctxt<'a> {
    /// What every step of lowering keeps. A successful one also leaves no
    /// statements behind, and leads back to where it came from.
    pub open spec fn kept(self, before: Ctxt<'a>, ok: bool) -> bool {
        &&& self.env() == before.env()
        &&& ok ==> self.statements@ == before.statements@ && self.st().follows(before.st())
    }

    /// What every statement keeps. A successful one leaves what it lowers to in
    /// the buffer.
    pub open spec fn stated(self, before: Ctxt<'a>, ok: bool) -> bool {
        &&& self.env() == before.env()
        &&& ok ==> self.statements@ == before.statements@ && self.st().states(before.st())
    }
}

/// The text of a label, if there is one.
pub(crate) fn label_text(label: &Option<ast::Label>) -> (r: Result<Option<String>, CompileError>)
    ensures
        r == rules::label_text(*label),
{
    proof {
        reveal(rules::label_text);
    }
    match label {
        Some(label) => Ok(Some(label.resolve()?)),
        None => Ok(None),
    }
}

/// Copy the text of a label.
pub(crate) fn copy_label(label: &Option<String>) -> (r: Option<String>)
    ensures
        r == *label,
{
    match label {
        Some(label) => Some(label.clone()),
        None => None,
    }
}

/// The number literal that an expression is, if it is one.
pub(crate) fn number_token(ast: &ast::Expr) -> (r: Option<&ast::LitNumber>)
    ensures
        match r {
            Some(lit) => rules::number_token(*ast) == Some(*lit),
            None => rules::number_token(*ast) is None,
        },
{
    proof {
        reveal(rules::number_token);
    }
    match ast {
        ast::Expr::Lit(lit) => match &lit.lit {
            ast::Lit::Number(n) => Some(n),
            _ => None,
        },
        _ => None,
    }
}

/// Lower the negation of a number.
pub(crate) fn negated(ast: &ast::LitNumber, span: Span) -> (r: Result<hir::Lit, CompileError>)
    ensures
        r == rules::negated(*ast, span),
{
    proof {
        reveal(rules::negated);
    }
    match &ast.number {
        Err(e) => Err(CompileError::new(ast.span, ErrorKind::Resolve(*e))),
        Ok(number) => match &number.value {
            ast::NumberValue::Float(n) => Ok(hir::Lit::Float(n.neg())),
            ast::NumberValue::Integer(n) => integer(&n.neg(), number.suffix, span),
        },
    }
}

/// Lower an integer with a suffix.
pub(crate) fn integer(n: &Integer, suffix: Option<ast::NumberSuffix>, span: Span) -> (r: Result<
    hir::Lit,
    CompileError,
>)
    ensures
        r == rules::integer(n.value(), suffix, span),
{
    proof {
        reveal(rules::integer);
    }
    match suffix {
        Some(ast::NumberSuffix::Unsigned(_, size)) => {
            if let Some(n) = n.to_u64() {
                if size.unsigned_in(n) {
                    return Ok(hir::Lit::Unsigned(n));
                }
            }

            Err(CompileError::new(span, ErrorKind::BadUnsignedOutOfBounds { size }))
        },
        Some(ast::NumberSuffix::Signed(_, size)) => {
            if let Some(n) = n.to_i64() {
                if size.signed_in(n) {
                    return Ok(hir::Lit::Signed(n));
                }
            }

            Err(CompileError::new(span, ErrorKind::BadSignedOutOfBounds { size }))
        },
        _ => match n.to_i64() {
            Some(n) => Ok(hir::Lit::Signed(n)),
            None => Err(
                CompileError::new(
                    span,
                    ErrorKind::BadSignedOutOfBounds { size: ast::NumberSize::S64 },
                ),
            ),
        },
    }
}

/// Lower a literal.
pub fn lit(in_template: bool, ast: &ast::Lit) -> (r: Result<hir::Lit, CompileError>)
    ensures
        r == rules::lit(in_template, *ast),
{
    proof {
        reveal(rules::lit);
    }
    match ast {
        ast::Lit::Bool(lit) => Ok(hir::Lit::Bool(lit.value)),
        ast::Lit::Number(lit) => match &lit.number {
            Err(e) => Err(CompileError::new(lit.span, ErrorKind::Resolve(*e))),
            Ok(number) => match &number.value {
                ast::NumberValue::Float(n) => Ok(hir::Lit::Float(*n)),
                ast::NumberValue::Integer(n) => integer(n, number.suffix, lit.span),
            },
        },
        ast::Lit::Byte(lit) => match lit.value {
            Ok(b) => Ok(hir::Lit::Unsigned(b as u64)),
            Err(e) => Err(CompileError::new(lit.span, ErrorKind::Resolve(e))),
        },
        ast::Lit::Char(lit) => match lit.value {
            Ok(c) => Ok(hir::Lit::Char(c)),
            Err(e) => Err(CompileError::new(lit.span, ErrorKind::Resolve(e))),
        },
        ast::Lit::Str(lit) => {
            let text = if in_template {
                lit.resolve_template_string()?
            } else {
                lit.resolve_string()?
            };

            Ok(hir::Lit::Str(text))
        },
        ast::Lit::ByteStr(lit) => match &lit.value {
            Ok(bytes) => Ok(hir::Lit::ByteStr(bytes.copy())),
            Err(e) => Err(CompileError::new(lit.span, ErrorKind::Resolve(*e))),
        },
    }
}

/// Queue something to be built later. Tells whether that can be done.
pub(crate) fn queue(cx: &mut Ctxt<'_>, entry: hir::SecondaryBuildEntry) -> (r: bool)
    ensures
        final(cx).kept(*old(cx), true),
        final(cx).st() == old(cx).st().building(entry),
        r == (old(cx).st().builds is Some),
{
    match &mut cx.secondary_builds {
        Some(builds) => {
            builds.push(entry);
            true
        },
        None => false,
    }
}

/// A result of an object and its assignments, with these taken as a sequence.
pub open spec fn viewed_object(
    r: Result<(hir::ExprObjectKind, Vec<hir::FieldAssign>), CompileError>,
) -> Result<(hir::ExprObjectKind, Seq<hir::FieldAssign>), CompileError> {
    match r {
        Ok((kind, assigns)) => Ok((kind, assigns@)),
        Err(e) => Err(e),
    }
}

/// What an object literal of a type builds.
pub fn object_kind(meta: &Meta, assigns: Vec<hir::FieldAssign>, span: Span) -> (r: Result<
    (hir::ExprObjectKind, Vec<hir::FieldAssign>),
    CompileError,
>)
    ensures
        viewed_object(r) == rules::object_kind(*meta, assigns@, span),
{
    proof {
        reveal(rules::object_kind);
    }
    let item = meta.item_meta.item;

    match &meta.kind {
        Kind::Struct { fields: Fields::Empty, constructor, .. } => {
            let fields: Vec<FieldMeta> = Vec::new();
            let assigns = check_object_fields(&fields, assigns, item, span)?;
            Ok((constructed(meta.hash, *constructor, 0), assigns))
        },
        Kind::Struct { fields: Fields::Named(fields), constructor, .. } => {
            let assigns = check_object_fields(fields, assigns, item, span)?;
            Ok((constructed(meta.hash, *constructor, fields.len()), assigns))
        },
        _ => Err(CompileError::new(span, ErrorKind::UnsupportedLitObject { meta: meta.info() })),
    }
}

/// What builds a value of a type.
pub(crate) fn constructed(hash: Hash64, constructor: bool, args: usize) -> (r: hir::ExprObjectKind)
    ensures
        r == rules::constructed(hash, constructor, args),
{
    proof {
        reveal(rules::constructed);
    }
    if constructor {
        hir::ExprObjectKind::ExternalType { hash, args }
    } else {
        hir::ExprObjectKind::Struct { hash }
    }
}

/// Find the position of the last field with the given name.
pub(crate) fn find_position(fields: &Vec<FieldMeta>, name: &String) -> (r: Option<usize>)
    ensures
        r == rules::position_of(fields@, name@, fields@.len()),
{
    let mut n: usize = fields.len();

    while n > 0
        invariant
            n <= fields@.len(),
            rules::position_of(fields@, name@, fields@.len()) == rules::position_of(
                fields@,
                name@,
                n as nat,
            ),
        decreases n,
    {
        if fields[n - 1].name == *name {
            return Some(fields[n - 1].position);
        }

        n -= 1;
    }

    None
}

/// Find an assignment by its key.
pub(crate) fn find_assignment(assigns: &Vec<hir::FieldAssign>, key: &String) -> (r: usize)
    ensures
        r == rules::assignment_index(assigns@, key@, 0),
        r <= assigns@.len(),
{
    let mut i: usize = 0;

    while i < assigns.len()
        invariant
            i <= assigns@.len(),
            rules::assignment_index(assigns@, key@, 0) == rules::assignment_index(
                assigns@,
                key@,
                i as int,
            ),
        decreases assigns@.len() - i,
    {
        if assigns[i].key.1 == *key {
            return i;
        }

        i += 1;
    }

    i
}

/// Check the assignments of an object literal against the fields of its type,
/// and note the positions of the fields.
pub fn check_object_fields(
    fields: &Vec<FieldMeta>,
    assigns: Vec<hir::FieldAssign>,
    item: ItemId,
    span: Span,
) -> (r: Result<Vec<hir::FieldAssign>, CompileError>)
    ensures
        viewed(r) == rules::check_object_fields(fields@, assigns@, item, span),
{
    proof {
        reveal(rules::check_object_fields);
    }
    let mut i: usize = 0;

    while i < assigns.len()
        invariant
            i <= assigns@.len(),
            rules::unknown_field(fields@, assigns@, 0) == rules::unknown_field(
                fields@,
                assigns@,
                i as int,
            ),
        decreases assigns@.len() - i,
    {
        proof {
            reveal(rules::check_object_fields);
        }
        if find_position(fields, &assigns[i].key.1).is_none() || find_assignment(
            &assigns,
            &assigns[i].key.1,
        ) < i {
            return Err(
                CompileError::new(
                    assigns[i].key.0,
                    ErrorKind::LitObjectNotField { field: assigns[i].key.1.clone(), item },
                ),
            );
        }

        i += 1;
    }

    i = 0;

    while i < fields.len()
        invariant
            i <= fields@.len(),
            rules::unknown_field(fields@, assigns@, 0) == assigns@.len(),
            rules::unassigned(fields@, assigns@, 0) == rules::unassigned(
                fields@,
                assigns@,
                i as int,
            ),
        decreases fields@.len() - i,
    {
        proof {
            reveal(rules::check_object_fields);
        }
        if find_assignment(&assigns, &fields[i].name) >= assigns.len() {
            return Err(
                CompileError::new(
                    span,
                    ErrorKind::LitObjectMissingField { field: fields[i].name.clone(), item },
                ),
            );
        }

        i += 1;
    }

    let mut rest = assigns;
    let mut positioned: Vec<hir::FieldAssign> = Vec::new();
    let ghost all = assigns@;

    while rest.len() > 0
        invariant
            rest@ =~= all.take(rest@.len() as int),
            rest@.len() + positioned@.len() == all.len(),
            forall|j: int|
                0 <= j < positioned@.len() ==> #[trigger] positioned@[j] == positioned_assign(
                    fields@,
                    all[all.len() - 1 - j],
                ),
        decreases rest.len(),
    {
        proof {
            reveal(rules::check_object_fields);
        }
        if let Some(assign) = rest.pop() {
            let position = find_position(fields, &assign.key.1);
            positioned.push(hir::FieldAssign { key: assign.key, assign: assign.assign, position });
        }
    }

    let mut r: Vec<hir::FieldAssign> = Vec::new();

    while positioned.len() > 0
        invariant
            positioned@.len() + r@.len() == all.len(),
            forall|j: int|
                0 <= j < positioned@.len() ==> #[trigger] positioned@[j] == positioned_assign(
                    fields@,
                    all[all.len() - 1 - j],
                ),
            forall|j: int|
                0 <= j < r@.len() ==> #[trigger] r@[j] == positioned_assign(fields@, all[j]),
        decreases positioned.len(),
    {
        proof {
            reveal(rules::check_object_fields);
        }
        if let Some(assign) = positioned.pop() {
            r.push(assign);
        }
    }

    assert(r@ =~= Seq::new(all.len(), |j: int| positioned_assign(fields@, all[j])));
    assert(rules::check_object_fields(fields@, all, item, span)->Ok_0 =~= r@);
    Ok(r)
}

/// An assignment with the position of its field.
pub open spec fn positioned_assign(
    fields: Seq<FieldMeta>,
    assign: hir::FieldAssign,
) -> hir::FieldAssign {
    hir::FieldAssign {
        position: rules::position_of(fields, assign.key.1@, fields.len()),
        ..assign
    }
}

/// The key of an object, and where it is.
pub(crate) fn object_key(ast: &ast::ObjectKey) -> (r: Result<(Span, String), CompileError>)
    ensures
        r == rules::object_key(*ast),
{
    proof {
        reveal(rules::object_key);
    }
    match ast {
        ast::ObjectKey::LitStr(lit) => Ok((lit.span, lit.resolve_string()?)),
        ast::ObjectKey::Path(path) => match path.try_as_ident() {
            Some(ident) => Ok((ident.span, ident.resolve()?)),
            None => Err(
                CompileError::new(path.span, ErrorKind::Expected { expected: "object key" }),
            ),
        },
    }
}

/// Test if one of the patterns is `..`.
pub(crate) fn has_rest(items: &Vec<ast::Pat>) -> (r: bool)
    ensures
        r == model::has_rest(items@),
{
    let mut i: usize = 0;

    while i < items.len()
        invariant
            i <= items@.len(),
            forall|j: int| 0 <= j < i ==> !(#[trigger] items@[j] is Rest),
        decreases items@.len() - i,
    {
        if let ast::Pat::Rest(_) = &items[i] {
            return true;
        }

        i += 1;
    }

    false
}

/// The local that binds one part of an unpacked one.
pub(crate) fn unpacked(pat: hir::PatBinding, expr: hir::Expr) -> (r: hir::Stmt)
    ensures
        r == model::unpacked(pat, expr),
{
    hir::Stmt::Local(Box::new(hir::Local { span: pat.pat.span.join(expr.span), pat, expr }))
}

/// Test if a sequence of patterns ends in `..`, and count the others.
pub fn pat_items_count(items: &Vec<ast::Pat>) -> (r: Result<(bool, usize), CompileError>)
    ensures
        r == rules::pat_items_count(items@),
{
    proof {
        reveal(rules::pat_items_count);
    }
    if items.len() == 0 {
        return Ok((false, 0));
    }

    let mut i: usize = 0;

    while i < items.len() - 1
        invariant
            items@.len() > 0,
            i <= items@.len() - 1,
            rules::inner_rest(items@, 0) == rules::inner_rest(items@, i as int),
        decreases items@.len() - i,
    {
        proof {
            reveal(rules::pat_items_count);
        }
        if let ast::Pat::Rest(_) = &items[i] {
            return Err(CompileError::new(items[i].span(), ErrorKind::UnsupportedPatternRest));
        }

        i += 1;
    }

    match &items[i] {
        ast::Pat::Rest(_) => Ok((true, i)),
        _ => Ok((false, i + 1)),
    }
}

/// What a tuple pattern of a type matches.
pub fn tuple_pat_kind(meta: &Meta, is_open: bool, count: usize, span: Span) -> (r: Result<
    hir::PatSequenceKind,
    CompileError,
>)
    ensures
        r == rules::tuple_pat_kind(*meta, is_open, count, span),
{
    proof {
        reveal(rules::tuple_pat_kind);
    }
    match tuple_match_for(meta) {
        None => Err(
            CompileError::new(
                span,
                ErrorKind::ExpectedMeta {
                    meta: meta.info(),
                    expected: "type that can be used in a tuple pattern",
                },
            ),
        ),
        Some((args, kind)) => {
            if !(args == count || (count < args && is_open)) {
                return Err(
                    CompileError::new(
                        span,
                        ErrorKind::BadArgumentCount { expected: args, actual: count },
                    ),
                );
            }

            Ok(kind)
        },
    }
}

/// What is matched by a pattern of the struct or variant.
pub(crate) fn struct_kind(meta: &Meta, enum_hash: Hash64) -> (r: hir::PatSequenceKind)
    ensures
        r == rules::struct_kind(*meta, enum_hash),
{
    proof {
        reveal(rules::struct_kind);
    }
    if enum_hash.0 != EMPTY {
        hir::PatSequenceKind::Type { hash: enum_hash, variant_hash: meta.hash }
    } else {
        hir::PatSequenceKind::Type { hash: meta.hash, variant_hash: Hash64(EMPTY) }
    }
}

/// The number of fields of a type in a tuple pattern, and what it matches.
pub fn tuple_match_for(meta: &Meta) -> (r: Option<(usize, hir::PatSequenceKind)>)
    ensures
        r == rules::tuple_match_for(*meta),
{
    proof {
        reveal(rules::tuple_match_for);
    }
    match &meta.kind {
        Kind::Struct { fields, enum_hash, .. } => match fields {
            Fields::Unnamed(args) => Some((*args, struct_kind(meta, *enum_hash))),
            Fields::Empty => Some((0, struct_kind(meta, *enum_hash))),
            Fields::Named(_) => None,
        },
        _ => None,
    }
}

/// Test if a name is among names.
pub(crate) fn find_name(names: &Vec<String>, name: &String) -> (r: usize)
    ensures
        r == rules::name_index(names@, name@, 0),
        r <= names@.len(),
        (r < names@.len()) == rules::has_name(names@, name@),
{
    let mut i: usize = 0;

    while i < names.len()
        invariant
            i <= names@.len(),
            rules::name_index(names@, name@, 0) == rules::name_index(names@, name@, i as int),
            forall|j: int| 0 <= j < i ==> #[trigger] names@[j]@ != name@,
        decreases names@.len() - i,
    {
        if names[i] == *name {
            return i;
        }

        i += 1;
    }

    i
}

/// The distinct names of fields, in order.
pub(crate) fn field_names(fields: &Vec<FieldMeta>) -> (names: Vec<String>)
    ensures
        names@ == rules::field_names(fields@, fields@.len()),
{
    proof {
        reveal(rules::field_names);
    }
    let mut names: Vec<String> = Vec::new();
    let mut n: usize = 0;

    while n < fields.len()
        invariant
            n <= fields@.len(),
            names@ == rules::field_names(fields@, n as nat),
        decreases fields@.len() - n,
    {
        proof {
            reveal(rules::field_names);
        }
        if find_name(&names, &fields[n].name) >= names.len() {
            names.push(fields[n].name.clone());
        }

        n += 1;
    }

    names
}

/// The names of the fields of a type in a struct pattern, and what it matches.
pub fn struct_match_for(meta: &Meta, open: bool) -> (r: Option<
    (Vec<String>, hir::PatSequenceKind),
>)
    ensures
        match r {
            Some((names, kind)) => rules::struct_match_for(*meta, open) == Some((names@, kind)),
            None => rules::struct_match_for(*meta, open) is None,
        },
{
    proof {
        reveal(rules::struct_match_for);
    }
    match &meta.kind {
        Kind::Struct { fields, enum_hash, .. } => match fields {
            Fields::Named(fields) => Some((field_names(fields), struct_kind(meta, *enum_hash))),
            _ => if open {
                Some((Vec::new(), struct_kind(meta, *enum_hash)))
            } else {
                None
            },
        },
        Kind::Type => if open {
            Some((Vec::new(), struct_kind(meta, Hash64(EMPTY))))
        } else {
            None
        },
        _ => None,
    }
}

/// What a struct pattern of a type matches.
pub fn object_pat_kind(
    meta: &Meta,
    is_open: bool,
    count: usize,
    bindings: &Vec<hir::Binding>,
    path_span: Span,
    span: Span,
) -> (r: Result<hir::PatSequenceKind, CompileError>)
    ensures
        r == rules::object_pat_kind(*meta, is_open, count, bindings@, path_span, span),
{
    proof {
        reveal(rules::object_pat_kind);
    }
    let (names, kind) = match struct_match_for(meta, is_open && count == 0) {
        Some((names, kind)) => (names, kind),
        None => return Err(
            CompileError::new(
                path_span,
                ErrorKind::ExpectedMeta {
                    meta: meta.info(),
                    expected: "type that can be used in a struct pattern",
                },
            ),
        ),
    };

    let ghost all = names@;
    let mut names = names;
    let mut i: usize = 0;

    while i < bindings.len()
        invariant
            i <= bindings@.len(),
            rules::struct_match_for(*meta, is_open && count == 0) == Some((all, kind)),
            rules::unbound(all, bindings@, 0) == rules::unbound(names@, bindings@, i as int),
        decreases bindings@.len() - i,
    {
        proof {
            reveal(rules::object_pat_kind);
        }
        let at = find_name(&names, bindings[i].key());

        if at >= names.len() {
            return Err(
                CompileError::new(
                    span,
                    ErrorKind::LitObjectNotField {
                        field: bindings[i].key().clone(),
                        item: meta.item_meta.item,
                    },
                ),
            );
        }

        names.remove(at);
        i += 1;
    }

    if !is_open && names.len() > 0 {
        return Err(
            CompileError::new(
                span,
                ErrorKind::PatternMissingFields {
                    item: meta.item_meta.item,
                    fields: List::from_vec(sort(names)),
                },
            ),
        );
    }

    Ok(kind)
}

/// Find a binding by its key.
pub(crate) fn find_binding(bindings: &Vec<hir::Binding>, key: &String) -> (r: usize)
    ensures
        r == rules::binding_index(bindings@, key@, 0),
        r <= bindings@.len(),
{
    let mut i: usize = 0;

    while i < bindings.len()
        invariant
            i <= bindings@.len(),
            rules::binding_index(bindings@, key@, 0) == rules::binding_index(
                bindings@,
                key@,
                i as int,
            ),
        decreases bindings@.len() - i,
    {
        if *bindings[i].key() == *key {
            return i;
        }

        i += 1;
    }

    i
}

/// Construct a pattern for a literal value.
pub(crate) fn const_lit(lit: hir::Lit, span: Span) -> (r: hir::Pat)
    ensures
        r == rules::const_lit(lit, span),
{
    proof {
        reveal(rules::const_lit);
    }
    hir::Pat {
        span,
        kind: hir::PatKind::Lit(Box::new(hir::Expr { span, kind: hir::ExprKind::Lit(lit) })),
    }
}

/// Construct a pattern for a sequence of exactly the given items.
pub(crate) fn const_sequence(hash: u64, items: Vec<hir::Pat>, span: Span) -> (r: hir::Pat)
    ensures
        r == rules::const_sequence(hash, items@, span),
{
    proof {
        reveal(rules::const_sequence);
    }
    let count: usize = items.len();

    hir::Pat {
        span,
        kind: hir::PatKind::Sequence(
            hir::PatSequence {
                kind: hir::PatSequenceKind::Sequence { hash: Hash64(hash), count, is_open: false },
                items: List::from_vec(items),
            },
        ),
    }
}

/// Construct a pattern from a constant value.
pub fn pat_const_value(value: &ConstValue, span: Span) -> (r: Result<hir::Pat, CompileError>)
    ensures
        r == rules::pat_const_value(*value, span),
    decreases value, 0nat,
{
    proof {
        reveal(rules::const_object);
    }
    let lit = match value {
        ConstValue::Inline(value) => match value {
            Inline::Unit => return Ok(const_sequence(TUPLE_HASH, Vec::new(), span)),
            Inline::Bool(b) => hir::Lit::Bool(*b),
            Inline::Char(c) => hir::Lit::Char(*c),
            Inline::Unsigned(n) => hir::Lit::Unsigned(*n),
            Inline::Signed(n) => hir::Lit::Signed(*n),
            _ => return Err(unsupported_const(span)),
        },
        ConstValue::String(string) => hir::Lit::Str(string.clone()),
        ConstValue::Bytes(bytes) => hir::Lit::ByteStr(bytes.copy()),
        ConstValue::Instance(instance) => {
            if instance.variant_hash != Hash64(EMPTY) {
                return Err(unsupported_const(span));
            }

            if instance.hash == Hash64(VEC_HASH) || instance.hash == Hash64(OWNED_TUPLE_HASH) {
                let items = const_pats(&instance.fields, span)?;
                return Ok(const_sequence(VEC_HASH, items, span));
            }

            if instance.hash == Hash64(OBJECT_HASH) {
                let bindings = const_bindings(&instance.fields, span)?;
                let count: usize = bindings.len();

                return Ok(
                    hir::Pat {
                        span,
                        kind: hir::PatKind::Object(
                            hir::PatObject {
                                kind: hir::PatSequenceKind::Sequence {
                                    hash: Hash64(OBJECT_HASH),
                                    count,
                                    is_open: false,
                                },
                                bindings: List::from_vec(bindings),
                            },
                        ),
                    },
                );
            }

            return Err(unsupported_const(span));
        },
    };

    Ok(const_lit(lit, span))
}

/// The error for a constant that no pattern can stand for.
pub(crate) fn unsupported_const(span: Span) -> (e: CompileError)
    ensures
        e == rules::unsupported_const(span),
{
    proof {
        reveal(rules::unsupported_const);
    }
    CompileError::new(span, ErrorKind::Msg("Unsupported constant value in pattern"))
}

/// Construct patterns from constant values.
pub(crate) fn const_pats(values: &Vec<ConstValue>, span: Span) -> (r: Result<
    Vec<hir::Pat>,
    CompileError,
>)
    ensures
        viewed(r) == rules::const_pats(values@, span, 0, Seq::empty()),
    decreases values@, values@.len() + 1,
{
    let mut items: Vec<hir::Pat> = Vec::new();
    let mut i: usize = 0;

    while i < values.len()
        invariant
            i <= values@.len(),
            rules::const_pats(values@, span, 0, Seq::empty()) == rules::const_pats(
                values@,
                span,
                i as int,
                items@,
            ),
        decreases values@.len() - i,
    {
        let item = pat_const_value(&values[i], span)?;
        items.push(item);
        i += 1;
    }

    Ok(items)
}

/// Construct bindings from constant pairs of a key and a value.
pub(crate) fn const_bindings(values: &Vec<ConstValue>, span: Span) -> (r: Result<
    Vec<hir::Binding>,
    CompileError,
>)
    ensures
        viewed(r) == rules::const_bindings(values@, span, 0, Seq::empty()),
    decreases values@, values@.len() + 1,
{
    let mut bindings: Vec<hir::Binding> = Vec::new();
    let mut i: usize = 0;

    while i < values.len()
        invariant
            i <= values@.len(),
            rules::const_bindings(values@, span, 0, Seq::empty()) == rules::const_bindings(
                values@,
                span,
                i as int,
                bindings@,
            ),
        decreases values@.len() - i,
    {
        let (key, value) = match values[i].as_pair() {
            Ok(pair) => pair,
            Err(e) => return Err(CompileError::new(span, ErrorKind::Const(e))),
        };

        let key = match key.as_string() {
            Ok(key) => key.clone(),
            Err(e) => return Err(CompileError::new(span, ErrorKind::Const(e))),
        };

        let pat = pat_const_value(value, span)?;
        bindings.push(hir::Binding::Binding(span, key, Box::new(pat)));
        i += 1;
    }

    Ok(bindings)
}

/// The error for a path to an item that does not exist.
pub fn missing_path(
    span: Span,
    local: Option<String>,
    capitalized: bool,
    item: ItemId,
    parameters: GenericsParameters,
) -> (e: CompileError)
    ensures
        e == rules::missing_path(span, local, capitalized, item, parameters),
{
    proof {
        reveal(rules::missing_path);
    }
    match local {
        Some(name) if !capitalized => CompileError::new(span, ErrorKind::MissingLocal { name }),
        _ => CompileError::new(span, ErrorKind::MissingItemParameters { item, parameters }),
    }
}

/// Lower a path to a known item.
pub fn expr_path_meta(needs: Needs, meta: &Meta, span: Span) -> (r: Result<
    hir::ExprKind,
    CompileError,
>)
    ensures
        r == rules::expr_path_meta(needs, *meta, span),
{
    proof {
        reveal(rules::expr_path_meta);
    }
    if let Needs::Value = needs {
        match &meta.kind {
            Kind::Struct { fields, .. } => match fields {
                Fields::Empty => Ok(call_of(meta.hash)),
                Fields::Unnamed(args) => if *args == 0 {
                    Ok(call_of(meta.hash))
                } else {
                    Ok(hir::ExprKind::Fn(meta.hash))
                },
                Fields::Named(_) => Ok(hir::ExprKind::Type(Type { hash: meta.hash })),
            },
            Kind::Function => Ok(hir::ExprKind::Fn(meta.hash)),
            Kind::Const => Ok(hir::ExprKind::Const(meta.hash)),
            Kind::Type | Kind::Enum => Ok(hir::ExprKind::Type(Type { hash: meta.hash })),
            _ => Err(
                CompileError::new(
                    span,
                    ErrorKind::ExpectedMeta {
                        meta: meta.info(),
                        expected: "something that can be used as a value",
                    },
                ),
            ),
        }
    } else {
        match meta.type_hash_of() {
            Some(hash) => Ok(hir::ExprKind::Type(Type { hash })),
            None => Err(
                CompileError::new(
                    span,
                    ErrorKind::ExpectedMeta {
                        meta: meta.info(),
                        expected: "something that has a type",
                    },
                ),
            ),
        }
    }
}

/// A call of an item without arguments.
pub(crate) fn call_of(hash: Hash64) -> (r: hir::ExprKind)
    ensures
        r == rules::call_of(hash),
{
    proof {
        reveal(rules::call_of);
    }
    hir::ExprKind::Call(
        Box::new(hir::ExprCall { call: hir::Call::Meta { hash }, args: List::Nil }),
    )
}

/// Lower the call of an item.
pub(crate) fn call_meta(
    cx: &mut Ctxt<'_>,
    meta: &Meta,
    ast: &ast::ExprCall,
    path_span: Span,
    callee_span: Span,
) -> (r: Result<hir::Call, CompileError>)
    ensures
        final(cx).kept(*old(cx), r is Ok),
        gives(
            final(cx).st(),
            r,
            rules::call_meta(old(cx).env(), old(cx).st(), *meta, *ast, path_span, callee_span),
        ),
{
    proof {
        reveal(State::follows);
        reveal(rules::call_meta);
    }
    let actual: usize = ast.args.len();

    match &meta.kind {
        Kind::Struct { fields: Fields::Empty, .. } => {
            if actual != 0 {
                return Err(
                    CompileError::new(
                        ast.args_span,
                        ErrorKind::BadArgumentCount { expected: 0, actual },
                    ),
                );
            }
        },
        Kind::Struct { fields: Fields::Unnamed(args), .. } => {
            if *args != actual {
                return Err(
                    CompileError::new(
                        ast.args_span,
                        ErrorKind::BadArgumentCount { expected: *args, actual },
                    ),
                );
            }

            if *args == 0 {
                cx.diagnostics.push(
                    Diagnostic::RemoveTupleCallParens {
                        source_id: cx.source_id,
                        span: ast.args_span,
                        variant: path_span,
                    },
                );
            }
        },
        Kind::Function => {
            if let Some(message) = cx.db.lookup_deprecation(meta.hash) {
                let message = message.clone();
                cx.diagnostics.push(
                    Diagnostic::UsedDeprecated {
                        source_id: cx.source_id,
                        span: callee_span,
                        message,
                    },
                );
            }
        },
        Kind::ConstFn => {
            let from = cx.db.item_for("lowering constant function", ast.id, ast.span)?;

            return Ok(
                hir::Call::ConstFn {
                    from_module: from.module,
                    from_item: from.item,
                    id: meta.item_meta.item,
                },
            );
        },
        _ => return Err(
            CompileError::new(
                ast.span,
                ErrorKind::ExpectedMeta {
                    meta: meta.info(),
                    expected: "something that can be called as a function",
                },
            ),
        ),
    }

    Ok(hir::Call::Meta { hash: meta.hash })
}

/// Lower the call of a field of a value.
pub(crate) fn call_field(cx: &mut Ctxt<'_>, access: hir::ExprFieldAccess) -> (r: hir::Call)
    ensures
        final(cx).kept(*old(cx), true),
        final(cx).st() == rules::call_field(old(cx).st(), access).0,
        r == rules::call_field(old(cx).st(), access).1,
{
    proof {
        reveal(rules::call_field);
    }
    let target = access.expr;

    let hash = match access.expr_field {
        hir::ExprField::Index(index) => Hash64::index(index),
        hir::ExprField::Ident(ident) => {
            let hash = Hash64::ident(ident.as_str());
            cx.idents.push(ident);
            hash
        },
        hir::ExprField::IdentGenerics(ident, parameters) => {
            let hash = Hash64::ident(ident.as_str()).with_function_parameters(parameters);
            cx.idents.push(ident);
            hash
        },
    };

    hir::Call::Associated { target, hash }
}

} // verus!
