use rune::ast;
use rune::ast::ExprRangeLimits::{Closed, HalfOpen};
use rune::ast::{BinOp, Float, NumberSize, NumberSuffix, NumberValue, UnOp};
use rune::compile::error::{CompileError, ConstError, ErrorKind, ResolveError};
use rune::hash::{Hash64, ParametersBuilder, EMPTY};
use rune::hir;
use rune::hir::ctxt::{Ctxt, Diagnostic, Needs};
use rune::hir::lowering::{
    block, check_object_fields, empty_fn, expr, expr_path_meta, item_fn, lit, object_kind, pat,
    pat_const_value, pat_items_count, struct_match_for, tuple_match_for,
};
use rune::hir::{ExprKind, PatKind, PatPathKind, PatSequenceKind, Variable};
use rune::integer::Integer;
use rune::list::List;
use rune::query::{
    Call, Database, FieldMeta, Fields, GenericsParameters, Id, ItemId, ItemMeta, Kind, Meta,
    MetaEntry, MetaInfo, MetaInfoKind, Named, QueryError,
};
use rune::runtime::{
    ConstInstance, ConstValue, Inline, Type, OBJECT_HASH, OWNED_TUPLE_HASH, TUPLE_HASH, VEC_HASH,
};
use rune::span::Span;

fn at(start: u32) -> Span {
    Span::new(start, start + 1)
}

fn empty_database() -> Database {
    Database {
        items: Vec::new(),
        paths: Vec::new(),
        metas: Vec::new(),
        constants: Vec::new(),
        deprecated: Vec::new(),
    }
}

fn parameters(first: Option<Hash64>) -> GenericsParameters {
    GenericsParameters { trailing: 0, first, second: None }
}

fn meta(item: u64, kind: Kind) -> Meta {
    let item_meta = ItemMeta { item: ItemId(item), module: ItemId(0) };
    Meta { hash: Hash64(item * 1000), item_meta, kind }
}

/// A database in which the path and the node with the id of each item are it.
fn database(metas: Vec<(u64, Kind)>) -> Database {
    let mut db = empty_database();

    for (item, kind) in metas {
        let meta = meta(item, kind);
        db.items.push((item, meta.item_meta));
        db.paths.push((item, Ok(Named { item: ItemId(item), trailing: 0 })));
        let parameters = parameters(None);
        db.metas.push(MetaEntry { item: ItemId(item), parameters, meta: Ok(meta) });
    }

    db
}

fn fields(names: &[&str]) -> Vec<FieldMeta> {
    let field = |(position, name): (usize, &&str)| FieldMeta { name: name.to_string(), position };
    names.iter().enumerate().map(field).collect()
}

fn structure(fields: Fields) -> Kind {
    Kind::Struct { fields, constructor: false, enum_hash: Hash64(EMPTY) }
}

fn variant(fields: Fields) -> Kind {
    Kind::Struct { fields, constructor: false, enum_hash: Hash64(7) }
}

fn segment(name: &str, start: u32) -> ast::PathSegment {
    ast::PathSegment::Ident(ast::Ident { span: at(start), text: Ok(name.to_string()) })
}

fn path_of(first: ast::PathSegment, id: u64, start: u32) -> ast::Path {
    let (rest, trailing, global) = (Vec::new(), false, false);
    ast::Path { span: at(start), id: Id(id), global, first, rest, trailing }
}

fn path(name: &str, id: u64, start: u32) -> ast::Path {
    path_of(segment(name, start), id, start)
}

fn name(name: &str, start: u32) -> ast::Expr {
    ast::Expr::Path(path(name, 0, start))
}

fn named(name: &str, id: u64, start: u32) -> ast::Expr {
    ast::Expr::Path(path(name, id, start))
}

fn lit_number(value: NumberValue, suffix: Option<NumberSuffix>, start: u32) -> ast::Lit {
    let number = Ok(ast::Number { value, suffix });
    ast::Lit::Number(ast::LitNumber { span: at(start), number })
}

fn lit_bytes(bytes: Vec<u8>, suffix: Option<NumberSuffix>, start: u32) -> ast::Lit {
    lit_number(NumberValue::Integer(Integer::from_bytes(bytes)), suffix, start)
}

fn lit_expr(lit: ast::Lit, start: u32) -> ast::Expr {
    ast::Expr::Lit(Box::new(ast::ExprLit { span: at(start), lit }))
}

fn number(n: u8, start: u32) -> ast::Expr {
    lit_expr(lit_bytes(vec![n, 0], None, start), start)
}

fn string(text: &str, start: u32) -> ast::LitStr {
    let template = Ok(format!("{} in a template", text));
    ast::LitStr { span: at(start), string: Ok(text.to_string()), template }
}

fn pat_name(name: &str, id: u64, start: u32) -> ast::Pat {
    ast::Pat::Path(ast::PatPath { span: at(start), path: path(name, id, start) })
}

fn block_of(statements: Vec<ast::Stmt>, start: u32) -> ast::Block {
    ast::Block { span: at(start), id: Id(0), statements }
}

fn local(pat: ast::Pat, expr: ast::Expr, start: u32) -> ast::Stmt {
    ast::Stmt::Local(Box::new(ast::Local { span: at(start), attributes: false, pat, expr }))
}

fn unary(op: UnOp, expr: ast::Expr, start: u32) -> ast::Expr {
    ast::Expr::Unary(Box::new(ast::ExprUnary { span: at(start), op, expr }))
}

fn binary(lhs: ast::Expr, op: BinOp, rhs: ast::Expr, start: u32) -> ast::Expr {
    ast::Expr::Binary(Box::new(ast::ExprBinary { span: at(start), lhs, op, rhs }))
}

fn tuple(items: Vec<ast::Expr>, start: u32) -> ast::Expr {
    ast::Expr::Tuple(Box::new(ast::ExprItems { span: at(start), items }))
}

fn call(expr: ast::Expr, args: Vec<ast::Expr>, start: u32) -> ast::Expr {
    let (span, id, args_span) = (at(start), Id(50), at(start + 1));
    ast::Expr::Call(Box::new(ast::ExprCall { span, id, expr, args_span, args }))
}

fn field(expr: ast::Expr, expr_field: ast::ExprField, start: u32) -> ast::Expr {
    ast::Expr::FieldAccess(Box::new(ast::ExprFieldAccess { span: at(start), expr, expr_field }))
}

fn object(ident: ast::ObjectIdent, keys: Vec<(&str, Option<ast::Expr>)>, start: u32) -> ast::Expr {
    let mut assignments = Vec::new();

    for (i, (key, assign)) in keys.into_iter().enumerate() {
        let key = ast::ObjectKey::LitStr(string(key, 100 + i as u32));
        assignments.push(ast::FieldAssign { span: at(200 + i as u32), key, assign });
    }

    ast::Expr::Object(Box::new(ast::ExprObject { span: at(start), ident, assignments }))
}

fn signed(n: i64, start: u32) -> hir::Expr {
    hir::Expr { span: at(start), kind: ExprKind::Lit(hir::Lit::Signed(n)) }
}

fn variable(n: u64, start: u32) -> hir::Expr {
    hir::Expr { span: at(start), kind: ExprKind::Variable(Variable(n)) }
}

fn bound(n: u64, start: u32) -> hir::PatBinding {
    let kind = PatKind::Path(PatPathKind::Ident(Variable(n)));
    hir::PatBinding { pat: hir::Pat { span: at(start), kind }, names: vars(&[n]) }
}

fn vars(ids: &[u64]) -> List<Variable> {
    List::from_vec(ids.iter().map(|id| Variable(*id)).collect())
}

fn error(span: Span, kind: ErrorKind) -> CompileError {
    CompileError { span, kind }
}

fn info(kind: MetaInfoKind, item: u64) -> MetaInfo {
    MetaInfo { kind, hash: Hash64(item * 1000), item: ItemId(item) }
}

fn lower(db: &Database, ast: ast::Expr) -> Result<ExprKind, CompileError> {
    expr(&mut Ctxt::with_query(db, 0, 0), &ast).map(|hir| hir.kind)
}

fn lower_pat(db: &Database, ast: ast::Pat) -> Result<PatKind, CompileError> {
    pat(&mut Ctxt::with_query(db, 0, 0), &ast).map(|hir| hir.kind)
}

#[test]
fn numbers_have_bounds() {
    let unsigned = |size| Some(NumberSuffix::Unsigned(at(9), size));
    let sign = |size| Some(NumberSuffix::Signed(at(9), size));
    let l = |bytes: &[u8], suffix| lit(false, &lit_bytes(bytes.to_vec(), suffix, 3));
    assert_eq!(l(&[255, 0], unsigned(NumberSize::S8)), Ok(hir::Lit::Unsigned(255)));
    let size = NumberSize::S8;
    let bounds = error(at(3), ErrorKind::BadUnsignedOutOfBounds { size });
    assert_eq!(l(&[0, 1], unsigned(size)), Err(bounds));
    assert_eq!(l(&[127], sign(size)), Ok(hir::Lit::Signed(127)));
    let bounds = error(at(3), ErrorKind::BadSignedOutOfBounds { size });
    assert_eq!(l(&[128, 0], sign(size)), Err(bounds));
    let max = [255, 255, 255, 255, 255, 255, 255, 127];
    assert_eq!(l(&max, None), Ok(hir::Lit::Signed(i64::MAX)));
    let more = [0, 0, 0, 0, 0, 0, 0, 128, 0];
    let size = NumberSize::S64;
    let bounds = error(at(3), ErrorKind::BadSignedOutOfBounds { size });
    assert_eq!(l(&more, None), Err(bounds));
    assert_eq!(l(&more, unsigned(size)), Ok(hir::Lit::Unsigned(1 << 63)));
    let n = Float { bits: 1.5f64.to_bits() };
    let float = lit_number(NumberValue::Float(n), None, 3);
    assert_eq!(lit(false, &float), Ok(hir::Lit::Float(n)));
}

#[test]
fn negated_numbers_have_bounds_of_their_own() {
    let db = empty_database();
    let suffix = Some(NumberSuffix::Signed(at(9), NumberSize::S8));
    let operand = lit_expr(lit_bytes(vec![128, 0], suffix, 3), 3);
    let lowered = lower(&db, unary(UnOp::Neg, operand, 2));
    assert_eq!(lowered, Ok(ExprKind::Lit(hir::Lit::Signed(-128))));
    let suffix = Some(NumberSuffix::Unsigned(at(9), NumberSize::S8));
    let operand = lit_expr(lit_bytes(vec![1], suffix, 3), 3);
    let bounds = ErrorKind::BadUnsignedOutOfBounds { size: NumberSize::S8 };
    assert_eq!(lower(&db, unary(UnOp::Neg, operand, 2)), Err(error(at(2), bounds)));
    let operand = lit_expr(lit_bytes(vec![0, 0, 0, 0, 0, 0, 0, 128, 0], None, 3), 3);
    let lowered = lower(&db, unary(UnOp::Neg, operand, 2));
    assert_eq!(lowered, Ok(ExprKind::Lit(hir::Lit::Signed(i64::MIN))));
    let n = Float { bits: 1.5f64.to_bits() };
    let operand = lit_expr(lit_number(NumberValue::Float(n), None, 3), 3);
    let negated = Float { bits: (-1.5f64).to_bits() };
    let lowered = lower(&db, unary(UnOp::Neg, operand, 2));
    assert_eq!(lowered, Ok(ExprKind::Lit(hir::Lit::Float(negated))));
    let lowered = lower(&db, unary(UnOp::Not, number(1, 3), 2));
    let unary_not = hir::ExprUnary { op: UnOp::Not, expr: signed(1, 3) };
    assert_eq!(lowered, Ok(ExprKind::Unary(Box::new(unary_not))));
    let lowered = lower(&db, unary(UnOp::BorrowRef, number(1, 3), 2));
    assert_eq!(lowered, Err(error(at(2), ErrorKind::UnsupportedRef)));
}

#[test]
fn other_literals_are_resolved() {
    let byte = ast::Lit::Byte(ast::LitByte { span: at(3), value: Ok(7) });
    assert_eq!(lit(false, &byte), Ok(hir::Lit::Unsigned(7)));
    let char = ast::Lit::Char(ast::LitChar { span: at(3), value: Err(ResolveError::BadEscape) });
    let bad = error(at(3), ErrorKind::Resolve(ResolveError::BadEscape));
    assert_eq!(lit(false, &char), Err(bad));
    let text = ast::Lit::Str(string("a", 3));
    assert_eq!(lit(false, &text), Ok(hir::Lit::Str("a".to_string())));
    assert_eq!(lit(true, &text), Ok(hir::Lit::Str("a in a template".to_string())));
    let bytes = || List::from_vec(vec![1u8, 2]);
    let byte_str = ast::Lit::ByteStr(ast::LitByteStr { span: at(3), value: Ok(bytes()) });
    assert_eq!(lit(false, &byte_str), Ok(hir::Lit::ByteStr(bytes())));
}

#[test]
fn templates_change_how_strings_are_read() {
    let db = empty_database();
    let part = lit_expr(ast::Lit::Str(string("a", 3)), 3);
    let template = ast::BuiltInTemplate { span: at(4), from_literal: true, exprs: vec![part] };
    let expanded = Some(ast::BuiltInMacro::Template(template));
    let macro_call = ast::MacroCall { span: at(2), id: Some(Id(1)), expanded };
    let mut cx = Ctxt::with_query(&db, 0, 0);
    let lowered = expr(&mut cx, &ast::Expr::MacroCall(Box::new(macro_call))).unwrap();
    let kind = ExprKind::Lit(hir::Lit::Str("a in a template".to_string()));
    let exprs = List::from_vec(vec![hir::Expr { span: at(3), kind }]);
    let template = hir::BuiltInTemplate { span: at(4), from_literal: true, exprs };
    assert_eq!(lowered.kind, ExprKind::Template(Box::new(template)));
    assert!(!cx.in_template);
    let macro_call = ast::MacroCall { span: at(2), id: None, expanded: None };
    let missing = error(at(2), ErrorKind::Msg("missing expanded macro id"));
    assert_eq!(lower(&db, ast::Expr::MacroCall(Box::new(macro_call))), Err(missing));
}

#[test]
fn locals_are_seen_behind_their_statement() {
    let db = database(vec![]);
    let mut db = db;
    db.paths.push((0, Ok(Named { item: ItemId(1), trailing: 0 })));
    let statements = vec![
        local(pat_name("a", 0, 1), number(1, 2), 3),
        local(pat_name("a", 0, 4), name("a", 5), 6),
        ast::Stmt::Semi(name("a", 7)),
        ast::Stmt::Item(at(8)),
        ast::Stmt::Expr(name("a", 9)),
    ];
    let ast = block_of(statements, 10);
    let mut cx = Ctxt::with_query(&db, 0, 0);
    let lowered = block(&mut cx, &None, &ast).unwrap();
    let first = hir::Local { span: at(3), pat: bound(0, 1), expr: signed(1, 2) };
    let second = hir::Local { span: at(6), pat: bound(1, 4), expr: variable(0, 5) };
    let statements = List::from_vec(vec![
        hir::Stmt::Local(Box::new(first)),
        hir::Stmt::Local(Box::new(second)),
        hir::Stmt::Expr(Box::new(variable(1, 7))),
    ]);
    let value = Some(Box::new(variable(1, 9)));
    let (span, drop) = (at(10), vars(&[1, 0]));
    assert_eq!(lowered, hir::Block { span, label: None, statements, value, drop });
    let gone = expr(&mut cx, &name("a", 11)).unwrap_err();
    assert_eq!(gone, error(at(11), ErrorKind::MissingLocal { name: "a".to_string() }));
}

#[test]
fn values_without_a_semicolon_become_statements() {
    let db = empty_database();
    let statements = vec![
        ast::Stmt::Expr(number(1, 1)),
        ast::Stmt::Expr(number(2, 2)),
        ast::Stmt::Semi(number(3, 3)),
    ];
    let ast = ast::EmptyBlock { statements };
    let mut cx = Ctxt::with_query(&db, 0, 0);
    let lowered = empty_fn(&mut cx, &ast, at(9)).unwrap();
    assert_eq!(lowered.args, List::Nil);
    assert_eq!(lowered.span, at(9));
    assert_eq!(lowered.body.value, None);
    let stmt = |n, start| hir::Stmt::Expr(Box::new(signed(n, start)));
    let statements = List::from_vec(vec![stmt(1, 1), stmt(2, 2), stmt(3, 3)]);
    assert_eq!(lowered.body.statements, statements);
}

#[test]
fn tuples_are_unpacked_when_optimized() {
    let mut db = empty_database();
    db.paths.push((0, Ok(Named { item: ItemId(1), trailing: 0 })));
    let ast = || {
        let items = vec![pat_name("a", 0, 1), pat_name("b", 0, 2)];
        let pat = ast::Pat::Tuple(ast::PatTuple { span: at(3), path: None, items });
        block_of(vec![local(pat, tuple(vec![number(1, 4), number(2, 5)], 6), 7)], 8)
    };
    let lowered = block(&mut Ctxt::with_query(&db, 1, 0), &None, &ast()).unwrap();
    let first = hir::Local { span: Span::new(1, 5), pat: bound(0, 1), expr: signed(1, 4) };
    let second = hir::Local { span: Span::new(2, 6), pat: bound(1, 2), expr: signed(2, 5) };
    let statements = List::from_vec(vec![
        hir::Stmt::Local(Box::new(first)),
        hir::Stmt::Local(Box::new(second)),
    ]);
    assert_eq!(lowered.statements, statements);

    let lowered = block(&mut Ctxt::with_query(&db, 0, 0), &None, &ast()).unwrap();
    let hash = Hash64(TUPLE_HASH);
    let kind = PatSequenceKind::Sequence { hash, count: 2, is_open: false };
    let items = List::from_vec(vec![bound(0, 1).pat, bound(1, 2).pat]);
    let kind = PatKind::Sequence(hir::PatSequence { kind, items });
    let pat = hir::PatBinding { pat: hir::Pat { span: at(3), kind }, names: vars(&[0, 1]) };
    let items = List::from_vec(vec![signed(1, 4), signed(2, 5)]);
    let expr = hir::Expr { span: at(6), kind: ExprKind::Tuple(items) };
    let packed = hir::Stmt::Local(Box::new(hir::Local { span: at(7), pat, expr }));
    assert_eq!(lowered.statements, List::from_vec(vec![packed]));
}

#[test]
fn functions_bind_their_arguments() {
    let mut db = empty_database();
    db.paths.push((0, Ok(Named { item: ItemId(1), trailing: 0 })));
    let this = path_of(ast::PathSegment::SelfValue(at(5)), 0, 5);
    let value = tuple(vec![ast::Expr::Path(this), name("a", 6)], 7);
    let args = vec![ast::FnArg::SelfValue(at(1)), ast::FnArg::Pat(pat_name("a", 0, 2))];
    let body = block_of(vec![ast::Stmt::Expr(value)], 8);
    let ast = ast::ItemFn { span: at(9), args, body };
    let lowered = item_fn(&mut Ctxt::with_query(&db, 0, 0), &ast).unwrap();
    let args = List::from_vec(vec![
        hir::FnArg::SelfValue(at(1), Variable(0)),
        hir::FnArg::Pat(Box::new(bound(1, 2))),
    ]);
    assert_eq!(lowered.args, args);
    let items = List::from_vec(vec![variable(0, 5), variable(1, 6)]);
    let value = hir::Expr { span: at(7), kind: ExprKind::Tuple(items) };
    assert_eq!(lowered.body.value, Some(Box::new(value)));
    let this = path_of(ast::PathSegment::SelfValue(at(5)), 0, 5);
    let missing = Err(error(at(5), ErrorKind::MissingSelf));
    assert_eq!(lower(&db, ast::Expr::Path(this)), missing);
}

#[test]
fn paths_are_items() {
    let kinds = vec![
        (1, structure(Fields::Empty)),
        (2, structure(Fields::Unnamed(0))),
        (3, structure(Fields::Unnamed(1))),
        (4, Kind::Function),
        (5, Kind::Const),
        (6, Kind::Enum),
        (7, structure(Fields::Named(fields(&["a"])))),
        (8, Kind::Module),
    ];
    let mut db = database(kinds);
    let call = |item: u64| {
        let call = hir::Call::Meta { hash: Hash64(item * 1000) };
        ExprKind::Call(Box::new(hir::ExprCall { call, args: List::Nil }))
    };
    assert_eq!(lower(&db, named("a", 1, 3)), Ok(call(1)));
    assert_eq!(lower(&db, named("a", 2, 3)), Ok(call(2)));
    assert_eq!(lower(&db, named("a", 3, 3)), Ok(ExprKind::Fn(Hash64(3000))));
    assert_eq!(lower(&db, named("a", 4, 3)), Ok(ExprKind::Fn(Hash64(4000))));
    assert_eq!(lower(&db, named("a", 5, 3)), Ok(ExprKind::Const(Hash64(5000))));
    assert_eq!(lower(&db, named("a", 6, 3)), Ok(ExprKind::Type(Type { hash: Hash64(6000) })));
    assert_eq!(lower(&db, named("a", 7, 3)), Ok(ExprKind::Type(Type { hash: Hash64(7000) })));
    let expected = "something that can be used as a value";
    let kind = ErrorKind::ExpectedMeta { meta: info(MetaInfoKind::Module, 8), expected };
    assert_eq!(lower(&db, named("a", 8, 3)), Err(error(at(3), kind)));

    db.paths.push((9, Err(QueryError::Ambiguous)));
    let kind = ErrorKind::Query(QueryError::Ambiguous);
    assert_eq!(lower(&db, named("a", 9, 3)), Err(error(at(3), kind)));
    let kind = ErrorKind::MissingId { what: "path", id: Id(10) };
    assert_eq!(lower(&db, named("a", 10, 3)), Err(error(at(3), kind)));
}

#[test]
fn missing_names_are_variables_unless_capitalized() {
    let mut db = empty_database();
    db.paths.push((0, Ok(Named { item: ItemId(1), trailing: 0 })));
    let kind = ErrorKind::MissingLocal { name: "a".to_string() };
    assert_eq!(lower(&db, name("a", 3)), Err(error(at(3), kind)));
    let (item, parameters) = (ItemId(1), parameters(None));
    let kind = ErrorKind::MissingItemParameters { item, parameters };
    assert_eq!(lower(&db, name("A", 3)), Err(error(at(3), kind)));
    let kind = ErrorKind::MissingItemParameters { item, parameters };
    let typed = binary(number(1, 1), BinOp::Is, name("a", 3), 4);
    assert_eq!(lower(&db, typed), Err(error(at(3), kind)));
}

#[test]
fn operators_may_take_types() {
    let db = database(vec![(1, variant(Fields::Empty)), (2, Kind::Enum)]);
    let lowered = lower(&db, binary(number(1, 1), BinOp::Is, named("a", 2, 3), 4)).unwrap();
    let rhs = hir::Expr { span: at(3), kind: ExprKind::Type(Type { hash: Hash64(2000) }) };
    let is = hir::ExprBinary { lhs: signed(1, 1), op: BinOp::Is, rhs };
    assert_eq!(lowered, ExprKind::Binary(Box::new(is)));
    let expected = "something that has a type";
    let kind = ErrorKind::ExpectedMeta { meta: info(MetaInfoKind::Variant, 1), expected };
    let typed = binary(number(1, 1), BinOp::As, named("a", 1, 3), 4);
    assert_eq!(lower(&db, typed), Err(error(at(3), kind)));
    let value = expr_path_meta(Needs::Value, &meta(1, variant(Fields::Empty)), at(3));
    assert!(matches!(value, Ok(ExprKind::Call(_))));
}

#[test]
fn calls_are_checked() {
    let kinds = vec![
        (1, structure(Fields::Empty)),
        (2, structure(Fields::Unnamed(0))),
        (3, structure(Fields::Unnamed(1))),
        (4, Kind::Function),
        (5, Kind::ConstFn),
        (6, Kind::Enum),
    ];
    let mut db = database(kinds);
    db.deprecated.push((4000, "old".to_string()));
    db.items.push((50, ItemMeta { item: ItemId(9), module: ItemId(8) }));
    let mut cx = Ctxt::with_query(&db, 0, 3);
    let mut calls = |item, args| match expr(&mut cx, &call(named("a", item, 1), args, 2)) {
        Ok(hir::Expr { kind: ExprKind::Call(call), .. }) => Ok(*call),
        Ok(_) => panic!("not a call"),
        Err(e) => Err(e),
    };
    let meta_call = |item: u64| hir::Call::Meta { hash: Hash64(item * 1000) };
    assert_eq!(calls(1, vec![]).unwrap().call, meta_call(1));
    let kind = ErrorKind::BadArgumentCount { expected: 0, actual: 1 };
    assert_eq!(calls(1, vec![number(1, 5)]), Err(error(at(3), kind)));
    assert_eq!(calls(2, vec![]).unwrap().call, meta_call(2));
    let made = calls(3, vec![number(1, 5)]).unwrap();
    assert_eq!(made.call, meta_call(3));
    assert_eq!(made.args, List::from_vec(vec![signed(1, 5)]));
    let kind = ErrorKind::BadArgumentCount { expected: 1, actual: 0 };
    assert_eq!(calls(3, vec![]), Err(error(at(3), kind)));
    assert_eq!(calls(4, vec![]).unwrap().call, meta_call(4));
    let (from_module, from_item, id) = (ItemId(8), ItemId(9), ItemId(5));
    let const_fn = hir::Call::ConstFn { from_module, from_item, id };
    assert_eq!(calls(5, vec![]).unwrap().call, const_fn);
    let expected = "something that can be called as a function";
    let kind = ErrorKind::ExpectedMeta { meta: info(MetaInfoKind::Enum, 6), expected };
    assert_eq!(calls(6, vec![]), Err(error(at(2), kind)));
    let (source_id, message) = (3, "old".to_string());
    assert_eq!(
        cx.diagnostics,
        vec![
            Diagnostic::RemoveTupleCallParens { source_id, span: at(3), variant: at(1) },
            Diagnostic::UsedDeprecated { source_id, span: at(1), message },
        ]
    );
}

#[test]
fn fields_are_accessed_and_called() {
    let db = database(vec![(1, Kind::Enum)]);
    let index = |n| {
        let number = ast::Number {
            value: NumberValue::Integer(Integer::from_bytes(vec![n])),
            suffix: None,
        };
        ast::ExprField::LitNumber(ast::LitNumber { span: at(4), number: Ok(number) })
    };
    let lowered = lower(&db, field(number(1, 1), index(3), 2));
    let expr_field = hir::ExprField::Index(3);
    let access = hir::ExprFieldAccess { expr: signed(1, 1), expr_field };
    assert_eq!(lowered, Ok(ExprKind::FieldAccess(Box::new(access))));
    let number_value = NumberValue::Integer(Integer::from_bytes(vec![255]));
    let negative = ast::Number { value: number_value, suffix: None };
    let kind = ErrorKind::UnsupportedTupleIndex { number: negative };
    assert_eq!(lower(&db, field(number(1, 1), index(255), 2)), Err(error(at(4), kind)));

    let mut with_generics = path("f", 0, 4);
    let args = vec![named("a", 1, 5)];
    let generics = ast::Generics { span: at(6), args };
    with_generics.rest.push(ast::PathSegment::Generics(generics));
    let mut cx = Ctxt::with_query(&db, 0, 0);
    let callee = field(number(1, 1), ast::ExprField::Path(with_generics), 2);
    let lowered = expr(&mut cx, &call(callee, vec![], 7)).unwrap();
    let builder = ParametersBuilder::new().add(Hash64(1000)).unwrap();
    let hash = Hash64::ident("f").with_function_parameters(builder.finish());
    let associated = hir::Call::Associated { target: signed(1, 1), hash };
    let expected = hir::ExprCall { call: associated, args: List::Nil };
    assert_eq!(lowered.kind, ExprKind::Call(Box::new(expected)));
    assert_eq!(cx.idents, vec!["f".to_string()]);

    let mut longer = path("f", 0, 4);
    longer.rest.push(segment("g", 5));
    let access = field(number(1, 1), ast::ExprField::Path(longer), 2);
    assert_eq!(lower(&db, access), Err(error(at(4), ErrorKind::BadFieldAccess)));
}

#[test]
fn generic_arguments_have_to_be_types() {
    let mut db = database(vec![(1, Kind::Enum), (2, Kind::Function), (3, Kind::Function)]);
    let hash = ParametersBuilder::new().add(Hash64(1000)).unwrap().finish();
    db.metas[2].parameters = parameters(Some(hash));
    let with = |argument| {
        let mut path = path("f", 3, 4);
        let generics = ast::Generics { span: at(6), args: vec![named("a", argument, 7)] };
        path.rest.push(ast::PathSegment::Generics(generics));
        ast::Expr::Path(path)
    };
    assert_eq!(lower(&db, with(1)), Ok(ExprKind::Fn(Hash64(3000))));
    assert_eq!(lower(&db, with(2)), Err(error(at(7), ErrorKind::UnsupportedGenerics)));
}

#[test]
fn objects_are_checked_against_their_type() {
    let db = database(vec![
        (1, structure(Fields::Named(fields(&["a", "b"])))),
        (2, structure(Fields::Unnamed(1))),
    ]);
    let ident = |item| ast::ObjectIdent::Named(path("T", item, 1));
    let lowered = lower(
        &db,
        object(ident(1), vec![("b", Some(number(1, 3))), ("a", Some(number(2, 4)))], 2),
    );
    let assign = |key: &str, at_key, assign, position| hir::FieldAssign {
        key: (at(at_key), key.to_string()),
        assign,
        position,
    };
    let assignments = List::from_vec(vec![
        assign("b", 100, signed(1, 3), Some(1)),
        assign("a", 101, signed(2, 4), Some(0)),
    ]);
    let kind = hir::ExprObjectKind::Struct { hash: Hash64(1000) };
    let expected = hir::ExprObject { kind, assignments };
    assert_eq!(lowered, Ok(ExprKind::Object(Box::new(expected))));

    let item = ItemId(1);
    let kind = ErrorKind::LitObjectMissingField { field: "b".to_string(), item };
    let lowered = lower(&db, object(ident(1), vec![("a", Some(number(1, 3)))], 2));
    assert_eq!(lowered, Err(error(at(2), kind)));
    let kind = ErrorKind::LitObjectNotField { field: "c".to_string(), item };
    let lowered = lower(&db, object(ident(1), vec![("c", Some(number(1, 3)))], 2));
    assert_eq!(lowered, Err(error(at(100), kind)));
    let kind = ErrorKind::UnsupportedLitObject { meta: info(MetaInfoKind::Struct, 2) };
    assert_eq!(lower(&db, object(ident(2), vec![], 2)), Err(error(at(2), kind)));

    let twice = vec![("a", Some(number(1, 3))), ("a", Some(number(1, 4)))];
    let anonymous = ast::ObjectIdent::Anonymous(at(1));
    let kind = ErrorKind::DuplicateObjectKey { existing: at(100), object: at(101) };
    assert_eq!(lower(&db, object(anonymous, twice, 2)), Err(error(at(101), kind)));
    let anonymous = ast::ObjectIdent::Anonymous(at(1));
    let kind = ErrorKind::MissingLocal { name: "a".to_string() };
    let lowered = lower(&db, object(anonymous, vec![("a", None)], 2));
    assert_eq!(lowered, Err(error(at(100), kind)));

    let fields = Fields::Named(fields(&["a"]));
    let kind = Kind::Struct { fields, constructor: true, enum_hash: Hash64(EMPTY) };
    let assigns = vec![assign("a", 5, signed(1, 6), None)];
    let (kind, assigns) = object_kind(&meta(3, kind), assigns, at(2)).unwrap();
    assert_eq!(kind, hir::ExprObjectKind::ExternalType { hash: Hash64(3000), args: 1 });
    assert_eq!(assigns, vec![assign("a", 5, signed(1, 6), Some(0))]);
}

#[test]
fn fields_are_assigned_once() {
    let assign = |start| hir::FieldAssign {
        key: (at(start), "a".to_string()),
        assign: signed(1, 1),
        position: None,
    };
    let fields = fields(&["a"]);
    let checked = check_object_fields(&fields, vec![assign(5)], ItemId(1), at(2)).unwrap();
    assert_eq!(checked[0].position, Some(0));
    let kind = ErrorKind::LitObjectNotField { field: "a".to_string(), item: ItemId(1) };
    let twice = vec![assign(5), assign(6)];
    let refused = check_object_fields(&fields, twice, ItemId(1), at(2));
    assert_eq!(refused, Err(error(at(6), kind)));
}

#[test]
fn loops_are_left() {
    let mut db = empty_database();
    db.paths.push((0, Ok(Named { item: ItemId(1), trailing: 0 })));
    let label = |text: &str, start| {
        Some(ast::Label { span: at(start), text: Ok(text.to_string()) })
    };
    let stop = |label, expr| {
        ast::Expr::Break(Box::new(ast::ExprBreak { span: at(3), label, expr }))
    };
    let again = |label| ast::Expr::Continue(Box::new(ast::ExprContinue { span: at(3), label }));
    assert_eq!(lower(&db, stop(None, None)), Err(error(at(3), ErrorKind::BreakUnsupported)));
    assert_eq!(lower(&db, again(None)), Err(error(at(3), ErrorKind::ContinueUnsupported)));
    let kind = || ErrorKind::MissingLabel { label: "l".to_string() };
    assert_eq!(lower(&db, stop(label("l", 4), None)), Err(error(at(3), kind())));
    assert_eq!(lower(&db, again(label("l", 4))), Err(error(at(3), kind())));

    let statements = vec![
        local(pat_name("a", 0, 5), number(1, 6), 7),
        ast::Stmt::Semi(stop(label("l", 8), Some(name("a", 9)))),
    ];
    let body = block_of(statements, 10);
    let ast = ast::ExprLoop { span: at(11), label: label("l", 12), body };
    let lowered = lower(&db, ast::Expr::Loop(Box::new(ast))).unwrap();
    let first = hir::Local { span: at(7), pat: bound(0, 5), expr: signed(1, 6) };
    let stop = hir::ExprBreak {
        label: Some("l".to_string()),
        expr: Some(Box::new(variable(0, 9))),
        drop: vars(&[0]),
    };
    let stop = hir::Expr { span: at(3), kind: ExprKind::Break(Box::new(stop)) };
    let body = hir::Block {
        span: at(10),
        label: None,
        statements: List::from_vec(vec![
            hir::Stmt::Local(Box::new(first)),
            hir::Stmt::Expr(Box::new(stop)),
        ]),
        value: None,
        drop: vars(&[0]),
    };
    let label = Some("l".to_string());
    let expected = hir::ExprLoop { label, condition: None, body, drop: List::Nil };
    assert_eq!(lowered, ExprKind::Loop(Box::new(expected)));
}

#[test]
fn conditions_bind_in_their_branch() {
    let mut db = empty_database();
    db.paths.push((0, Ok(Named { item: ItemId(1), trailing: 0 })));
    let condition = ast::Condition::ExprLet(ast::ExprLet {
        span: at(2),
        pat: pat_name("a", 0, 3),
        expr: number(1, 4),
    });
    let ast = ast::ExprIf {
        span: at(5),
        if_: at(1),
        condition,
        block: block_of(vec![ast::Stmt::Expr(name("a", 6))], 7),
        expr_else_ifs: vec![],
        expr_else: Some(block_of(vec![], 8)),
    };
    let lowered = lower(&db, ast::Expr::If(Box::new(ast))).unwrap();
    let block = |start, value, drop| hir::Block {
        span: at(start),
        label: None,
        statements: List::Nil,
        value,
        drop,
    };
    let branch = hir::ConditionalBranch {
        span: Span::new(1, 8),
        condition: hir::Condition::ExprLet(hir::ExprLet {
            pat: bound(0, 3),
            expr: signed(1, 4),
        }),
        block: block(7, Some(Box::new(variable(0, 6))), List::Nil),
        drop: vars(&[0]),
    };
    let branches = List::from_vec(vec![branch]);
    let fallback = Some(block(8, None, List::Nil));
    let expected = hir::Conditional { branches, fallback };
    assert_eq!(lowered, ExprKind::If(Box::new(expected)));
}

#[test]
fn branches_of_a_match_have_scopes_of_their_own() {
    let mut db = empty_database();
    db.paths.push((0, Ok(Named { item: ItemId(1), trailing: 0 })));
    let branch = |start| ast::ExprMatchBranch {
        span: at(start),
        pat: pat_name("a", 0, start + 1),
        condition: None,
        body: name("a", start + 2),
    };
    let branches = vec![branch(10), branch(20)];
    let ast = ast::ExprMatch { span: at(1), expr: number(1, 2), branches };
    let lowered = lower(&db, ast::Expr::Match(Box::new(ast))).unwrap();
    let branch = |start, n| hir::ExprMatchBranch {
        span: at(start),
        pat: bound(n, start + 1),
        condition: None,
        body: variable(n, start + 2),
        drop: vars(&[n]),
    };
    let branches = List::from_vec(vec![branch(10, 0), branch(20, 1)]);
    let expected = hir::ExprMatch { expr: signed(1, 2), branches };
    assert_eq!(lowered, ExprKind::Match(Box::new(expected)));
}

#[test]
fn selects_have_one_default() {
    let db = empty_database();
    let default = |start| {
        ast::ExprSelectBranch::Default(ast::ExprInner { span: at(start), expr: number(1, 9) })
    };
    let select = |branches| {
        ast::Expr::Select(Box::new(ast::ExprSelect { span: at(1), branches }))
    };
    let lowered = lower(&db, select(vec![default(2)])).unwrap();
    let default_expr = Some(Box::new(signed(1, 9)));
    let (branches, exprs) = (List::Nil, List::Nil);
    let expected = hir::ExprSelect { branches, exprs, default: default_expr };
    assert_eq!(lowered, ExprKind::Select(Box::new(expected)));
    let lowered = lower(&db, select(vec![default(2), default(3)]));
    assert_eq!(lowered, Err(error(at(3), ErrorKind::SelectMultipleDefaults)));
}

#[test]
fn ranges_have_six_forms() {
    let db = empty_database();
    let range = |start: Option<u8>, limits, end: Option<u8>| {
        let start = start.map(|n| number(n, 1));
        let end = end.map(|n| number(n, 2));
        let ast = ast::ExprRange { span: at(3), start, limits, end };
        lower(&db, ast::Expr::Range(Box::new(ast)))
    };
    let ok = |range| Ok(ExprKind::Range(Box::new(range)));
    let (start, end) = (|| signed(1, 1), || signed(2, 2));
    assert_eq!(range(None, HalfOpen, None), ok(hir::ExprRange::RangeFull));
    let from = hir::ExprRange::RangeFrom { start: start() };
    assert_eq!(range(Some(1), HalfOpen, None), ok(from));
    let to = hir::ExprRange::RangeTo { end: end() };
    assert_eq!(range(None, HalfOpen, Some(2)), ok(to));
    let to = hir::ExprRange::RangeToInclusive { end: end() };
    assert_eq!(range(None, Closed, Some(2)), ok(to));
    let both = hir::ExprRange::Range { start: start(), end: end() };
    assert_eq!(range(Some(1), HalfOpen, Some(2)), ok(both));
    let both = hir::ExprRange::RangeInclusive { start: start(), end: end() };
    assert_eq!(range(Some(1), Closed, Some(2)), ok(both));
    let message = "Unsupported range, you probably want `..` instead of `..=`";
    let unsupported = error(at(3), ErrorKind::Msg(message));
    assert_eq!(range(None, Closed, None), Err(unsupported));
    let unsupported = error(at(3), ErrorKind::Msg(message));
    assert_eq!(range(Some(1), Closed, None), Err(unsupported));
}

#[test]
fn closures_capture_and_are_built_later() {
    let mut db = database(vec![(1, Kind::Closure { call: Call::Async, do_move: true })]);
    db.paths.push((0, Ok(Named { item: ItemId(9), trailing: 0 })));
    let closure = |id, args, body| {
        let ast = ast::ExprClosure { span: at(3), id: Id(id), args, body };
        ast::Expr::Closure(Box::new(ast))
    };
    let arg = || vec![ast::FnArg::Pat(pat_name("b", 0, 4))];
    let mut cx = Ctxt::with_query(&db, 0, 0);
    let lowered = expr(&mut cx, &closure(1, arg(), name("b", 5))).unwrap();
    assert_eq!(lowered.kind, ExprKind::Fn(Hash64(1000)));

    cx.scopes.define(hir::Name::Str("a".to_string()), at(0)).unwrap();
    let lowered = expr(&mut cx, &closure(1, arg(), name("a", 5))).unwrap();
    let (hash, do_move, captures) = (Hash64(1000), true, vars(&[1]));
    let used = hir::ExprCallClosure { hash, do_move, captures };
    assert_eq!(lowered.kind, ExprKind::CallClosure(Box::new(used)));
    let builds = cx.secondary_builds.unwrap();
    assert_eq!(builds.len(), 2);
    let args = List::from_vec(vec![hir::FnArg::Pat(Box::new(bound(2, 4)))]);
    let hir = hir::ExprClosure { args, body: variable(1, 5), captures: vars(&[1]) };
    let build = hir::SecondaryBuild::Closure { hir: Box::new(hir), call: Call::Async };
    let item_meta = ItemMeta { item: ItemId(1), module: ItemId(0) };
    assert_eq!(builds[1], hir::SecondaryBuildEntry { item_meta, build });
    assert_eq!(cx.used, vec![ItemId(1), ItemId(1)]);

    let mut cx = Ctxt::with_const(&db, 0, 0);
    let lowered = expr(&mut cx, &closure(1, arg(), name("b", 5)));
    assert_eq!(lowered, Err(error(at(3), ErrorKind::ClosureInConst)));
    let kind = ErrorKind::MissingId { what: "lowering closure call", id: Id(2) };
    assert_eq!(lower(&db, closure(2, arg(), name("b", 5))), Err(error(at(3), kind)));
}

#[test]
fn blocks_may_be_asynchronous_or_constant() {
    let mut db = database(vec![
        (1, Kind::AsyncBlock { call: Call::Async, do_move: false }),
        (2, Kind::Const),
        (3, Kind::Function),
    ]);
    db.paths.push((0, Ok(Named { item: ItemId(9), trailing: 0 })));
    let ast = |async_token, const_token, id, label: Option<&str>| {
        let block = ast::Block { span: at(4), id: Id(id), statements: vec![] };
        let text = |text: &str| ast::Label { span: at(5), text: Ok(text.to_string()) };
        let label = label.map(text);
        let ast = ast::ExprBlock { span: at(3), async_token, const_token, label, block };
        ast::Expr::Block(Box::new(ast))
    };
    let (hash, do_move, captures) = (Hash64(1000), false, List::Nil);
    let used = hir::ExprAsyncBlock { hash, do_move, captures };
    let lowered = lower(&db, ast(true, false, 1, None));
    assert_eq!(lowered, Ok(ExprKind::AsyncBlock(Box::new(used))));
    assert_eq!(lower(&db, ast(false, true, 2, None)), Ok(ExprKind::Const(Hash64(2000))));
    let lowered = lower(&db, ast(false, false, 0, Some("l"))).unwrap();
    assert!(matches!(lowered, ExprKind::Block(block) if block.label == Some("l".to_string())));
    let expected = "async or const block";
    let kind = ErrorKind::ExpectedMeta { meta: info(MetaInfoKind::Function, 3), expected };
    assert_eq!(lower(&db, ast(true, false, 3, None)), Err(error(at(3), kind)));
    let labelled = error(at(5), ErrorKind::Msg("Async blocks cannot be labelled"));
    assert_eq!(lower(&db, ast(true, false, 1, Some("l"))), Err(labelled));

    let mut in_const = |ast| expr(&mut Ctxt::with_const(&db, 0, 0), &ast);
    let message = "Only constant blocks are supported in this context";
    let unsupported = error(at(3), ErrorKind::Msg(message));
    assert_eq!(in_const(ast(true, false, 1, None)), Err(unsupported));
    let labelled = error(at(5), ErrorKind::Msg("Constant blocks cannot be labelled"));
    assert_eq!(in_const(ast(false, true, 2, Some("l"))), Err(labelled));
    assert!(matches!(in_const(ast(false, true, 2, None)).unwrap().kind, ExprKind::Block(_)));

    let mut cx = Ctxt::with_query(&db, 0, 0);
    cx.secondary_builds = None;
    let lowered = expr(&mut cx, &ast(true, false, 1, None));
    assert_eq!(lowered, Err(error(at(3), ErrorKind::AsyncBlockInConst)));
}

#[test]
fn patterns_are_counted() {
    let ignore = || ast::Pat::Ignore(at(1));
    let rest = || ast::Pat::Rest(at(2));
    assert_eq!(pat_items_count(&vec![]), Ok((false, 0)));
    assert_eq!(pat_items_count(&vec![rest()]), Ok((true, 0)));
    assert_eq!(pat_items_count(&vec![ignore(), ignore()]), Ok((false, 2)));
    assert_eq!(pat_items_count(&vec![ignore(), rest()]), Ok((true, 1)));
    let unsupported = error(at(2), ErrorKind::UnsupportedPatternRest);
    assert_eq!(pat_items_count(&vec![rest(), ignore()]), Err(unsupported));
}

#[test]
fn types_are_matched() {
    let named = |names| Fields::Named(fields(names));
    let of_type = |hash, variant_hash| PatSequenceKind::Type {
        hash: Hash64(hash),
        variant_hash: Hash64(variant_hash),
    };
    let kind = of_type(1000, EMPTY);
    let variant_kind = of_type(7, 1000);
    let unit = meta(1, structure(Fields::Empty));
    let pair = meta(1, variant(Fields::Unnamed(2)));
    let object = meta(1, structure(named(&["a", "b"])));
    assert_eq!(tuple_match_for(&unit), Some((0, kind)));
    assert_eq!(tuple_match_for(&pair), Some((2, variant_kind)));
    assert_eq!(tuple_match_for(&object), None);
    assert_eq!(tuple_match_for(&meta(1, Kind::Enum)), None);
    let names = vec!["a".to_string(), "b".to_string()];
    assert_eq!(struct_match_for(&object, false), Some((names, kind)));
    assert_eq!(struct_match_for(&pair, false), None);
    assert_eq!(struct_match_for(&pair, true), Some((vec![], variant_kind)));
    assert_eq!(struct_match_for(&meta(1, Kind::Type), true), Some((vec![], kind)));
    assert_eq!(struct_match_for(&meta(1, Kind::Type), false), None);
}

#[test]
fn tuple_patterns_are_checked() {
    let db = database(vec![(1, structure(Fields::Unnamed(2))), (2, Kind::Enum)]);
    let ast = |item, items| {
        let path = Some(path("T", item, 1));
        ast::Pat::Tuple(ast::PatTuple { span: at(2), path, items })
    };
    let ignore = || ast::Pat::Ignore(at(3));
    let rest = || ast::Pat::Rest(at(4));
    let ignored = || hir::Pat { span: at(3), kind: PatKind::Ignore };
    let (hash, variant_hash) = (Hash64(1000), Hash64(EMPTY));
    let kind = PatSequenceKind::Type { hash, variant_hash };
    let open = hir::PatSequence { kind, items: List::from_vec(vec![ignored()]) };
    assert_eq!(lower_pat(&db, ast(1, vec![ignore(), rest()])), Ok(PatKind::Sequence(open)));
    let kind = ErrorKind::BadArgumentCount { expected: 2, actual: 1 };
    assert_eq!(lower_pat(&db, ast(1, vec![ignore()])), Err(error(at(1), kind)));
    let expected = "type that can be used in a tuple pattern";
    let kind = ErrorKind::ExpectedMeta { meta: info(MetaInfoKind::Enum, 2), expected };
    assert_eq!(lower_pat(&db, ast(2, vec![])), Err(error(at(1), kind)));
    let unsupported = error(at(4), ErrorKind::UnsupportedPatternExpr);
    assert_eq!(lower_pat(&db, rest()), Err(unsupported));

    let items = vec![ignore(), rest()];
    let vector = ast::Pat::Vec(ast::PatVec { span: at(2), items });
    let hash = Hash64(VEC_HASH);
    let kind = PatSequenceKind::Sequence { hash, count: 1, is_open: true };
    let expected = hir::PatSequence { kind, items: List::from_vec(vec![ignored()]) };
    assert_eq!(lower_pat(&db, vector), Ok(PatKind::Sequence(expected)));
}

#[test]
fn object_patterns_are_checked() {
    let mut db = database(vec![
        (1, structure(Fields::Named(fields(&["b", "a", "c"])))),
        (2, structure(Fields::Unnamed(1))),
    ]);
    db.paths.push((0, Ok(Named { item: ItemId(9), trailing: 0 })));
    let ast = |item, items| {
        let ident = ast::ObjectIdent::Named(path("T", item, 1));
        ast::Pat::Object(ast::PatObject { span: at(2), ident, items })
    };
    let key = |name: &str, start| {
        let key = ast::ObjectKey::LitStr(string(name, start));
        let pat = Box::new(ast::Pat::Ignore(at(start)));
        ast::Pat::Binding(ast::PatBinding { span: at(start + 1), key, pat })
    };
    let rest = || ast::Pat::Rest(at(4));
    let ignored = |start| Box::new(hir::Pat { span: at(start), kind: PatKind::Ignore });
    let (hash, variant_hash) = (Hash64(1000), Hash64(EMPTY));
    let kind = PatSequenceKind::Type { hash, variant_hash };
    let bindings = List::from_vec(vec![
        hir::Binding::Ident(at(10), "a".to_string(), Variable(0)),
        hir::Binding::Binding(at(20), "b".to_string(), ignored(20)),
    ]);
    let lowered = lower_pat(&db, ast(1, vec![pat_name("a", 0, 10), key("b", 20), rest()]));
    assert_eq!(lowered, Ok(PatKind::Object(hir::PatObject { kind, bindings })));
    let missing = List::from_vec(vec!["a".to_string(), "c".to_string()]);
    let kind = ErrorKind::PatternMissingFields { item: ItemId(1), fields: missing };
    assert_eq!(lower_pat(&db, ast(1, vec![key("b", 20)])), Err(error(at(2), kind)));
    let kind = ErrorKind::LitObjectNotField { field: "d".to_string(), item: ItemId(1) };
    assert_eq!(lower_pat(&db, ast(1, vec![key("d", 20), rest()])), Err(error(at(2), kind)));
    let kind = ErrorKind::DuplicateObjectKey { existing: at(21), object: at(31) };
    let twice = ast(1, vec![key("b", 20), key("b", 30)]);
    assert_eq!(lower_pat(&db, twice), Err(error(at(31), kind)));
    let expected = "type that can be used in a struct pattern";
    let kind = ErrorKind::ExpectedMeta { meta: info(MetaInfoKind::Struct, 2), expected };
    assert_eq!(lower_pat(&db, ast(2, vec![])), Err(error(at(1), kind)));
    assert!(lower_pat(&db, ast(2, vec![rest()])).is_ok());
    let unsupported = error(at(6), ErrorKind::UnsupportedPatternExpr);
    let lowered = lower_pat(&db, ast(1, vec![ast::Pat::Ignore(at(6))]));
    assert_eq!(lowered, Err(unsupported));
}

#[test]
fn path_patterns_bind_or_match() {
    let mut db = database(vec![
        (1, structure(Fields::Empty)),
        (2, structure(Fields::Unnamed(1))),
        (3, Kind::Const),
        (4, Kind::Const),
    ]);
    db.constants.push((3000, ConstValue::Inline(Inline::Signed(5))));
    let (hash, variant_hash) = (Hash64(1000), Hash64(EMPTY));
    let kind = PatPathKind::Kind(PatSequenceKind::Type { hash, variant_hash });
    assert_eq!(lower_pat(&db, pat_name("a", 1, 5)), Ok(PatKind::Path(kind)));
    let kind = PatPathKind::Ident(Variable(0));
    assert_eq!(lower_pat(&db, pat_name("a", 2, 5)), Ok(PatKind::Path(kind)));
    let kind = PatKind::Lit(Box::new(signed(5, 5)));
    assert_eq!(lower_pat(&db, pat_name("a", 3, 5)), Ok(kind));
    let kind = ErrorKind::MissingConstant { hash: Hash64(4000) };
    assert_eq!(lower_pat(&db, pat_name("a", 4, 5)), Err(error(at(5), kind)));
    db.paths.push((9, Ok(Named { item: ItemId(9), trailing: 0 })));
    let mut longer = path("a", 9, 5);
    longer.rest.push(segment("b", 6));
    let ast = ast::Pat::Path(ast::PatPath { span: at(5), path: longer });
    assert_eq!(lower_pat(&db, ast), Err(error(at(5), ErrorKind::UnsupportedBinding)));
}

#[test]
fn constants_are_patterns() {
    let instance = |hash, fields| {
        let (hash, variant_hash) = (Hash64(hash), Hash64(EMPTY));
        ConstValue::Instance(Box::new(ConstInstance { hash, variant_hash, fields }))
    };
    let one = || ConstValue::Inline(Inline::Unsigned(1));
    let lit = |lit| hir::Expr { span: at(3), kind: ExprKind::Lit(lit) };
    let one_pat = || hir::Pat { span: at(3), kind: PatKind::Lit(Box::new(lit(hir::Lit::Unsigned(1)))) };
    let of = |value| pat_const_value(&value, at(3)).map(|pat| pat.kind);
    let sequence = |hash, items: Vec<hir::Pat>| {
        let count = items.len();
        let kind = PatSequenceKind::Sequence { hash: Hash64(hash), count, is_open: false };
        PatKind::Sequence(hir::PatSequence { kind, items: List::from_vec(items) })
    };
    assert_eq!(of(ConstValue::Inline(Inline::Unit)), Ok(sequence(TUPLE_HASH, vec![])));
    assert_eq!(of(one()), Ok(one_pat().kind));
    let text = ConstValue::String("a".to_string());
    let text_lit = PatKind::Lit(Box::new(lit(hir::Lit::Str("a".to_string()))));
    assert_eq!(of(text), Ok(text_lit));
    let vector = instance(VEC_HASH, vec![one()]);
    assert_eq!(of(vector), Ok(sequence(VEC_HASH, vec![one_pat()])));
    let tuple = instance(OWNED_TUPLE_HASH, vec![one(), one()]);
    assert_eq!(of(tuple), Ok(sequence(VEC_HASH, vec![one_pat(), one_pat()])));
    let pair = |key| instance(OWNED_TUPLE_HASH, vec![key, one()]);
    let object = instance(OBJECT_HASH, vec![pair(ConstValue::String("k".to_string()))]);
    let hash = Hash64(OBJECT_HASH);
    let kind = PatSequenceKind::Sequence { hash, count: 1, is_open: false };
    let binding = hir::Binding::Binding(at(3), "k".to_string(), Box::new(one_pat()));
    let bindings = List::from_vec(vec![binding]);
    assert_eq!(of(object), Ok(PatKind::Object(hir::PatObject { kind, bindings })));
    let bad = instance(OBJECT_HASH, vec![one()]);
    assert_eq!(of(bad), Err(error(at(3), ErrorKind::Const(ConstError::ExpectedPair))));
    let bad = instance(OBJECT_HASH, vec![pair(one())]);
    assert_eq!(of(bad), Err(error(at(3), ErrorKind::Const(ConstError::ExpectedString))));
    let message = "Unsupported constant value in pattern";
    let bad = instance(5, vec![]);
    assert_eq!(of(bad), Err(error(at(3), ErrorKind::Msg(message))));
}

#[test]
fn no_statements_are_left_in_the_buffer() {
    let mut db = empty_database();
    db.paths.push((0, Ok(Named { item: ItemId(1), trailing: 0 })));
    let statements = vec![
        local(pat_name("a", 0, 1), number(1, 2), 3),
        ast::Stmt::Semi(number(2, 4)),
        ast::Stmt::Expr(number(3, 5)),
    ];

    let ast = block_of(statements, 10);

    for lowering in [0, 1] {
        let mut cx = Ctxt::with_query(&db, lowering, 0);
        block(&mut cx, &None, &ast).unwrap();
        assert!(cx.statement_buffer.is_empty());
        assert!(cx.statements.is_empty());
    }
}
