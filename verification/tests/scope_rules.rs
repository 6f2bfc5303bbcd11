use rune::compile::error::ErrorKind;
use rune::hir::scopes::{LayerKind, Scopes};
use rune::hir::{Name, Variable};
use rune::list::List;
use rune::span::Span;

fn name(text: &str) -> Name {
    Name::Str(text.to_string())
}

fn span() -> Span {
    Span::new(0, 0)
}

fn vars(ids: &[u64]) -> List<Variable> {
    List::from_vec(ids.iter().map(|id| Variable(*id)).collect())
}

#[test]
fn names_refer_to_the_latest_definition() {
    let mut scopes = Scopes::new();
    assert_eq!(scopes.get(&name("a")), None);
    assert_eq!(scopes.define(name("a"), span()), Ok(Variable(0)));
    assert_eq!(scopes.define(name("b"), span()), Ok(Variable(1)));
    assert_eq!(scopes.get(&name("a")), Some(Variable(0)));
    scopes.push_kind(LayerKind::Block(None));
    assert_eq!(scopes.define(name("a"), span()), Ok(Variable(2)));
    assert_eq!(scopes.get(&name("a")), Some(Variable(2)));
    assert_eq!(scopes.get(&name("b")), Some(Variable(1)));
    let layer = scopes.pop(span()).unwrap();
    assert_eq!(layer.into_drop_order(), vars(&[2]));
    assert_eq!(scopes.get(&name("a")), Some(Variable(0)));
    assert_eq!(scopes.define(Name::SelfValue, span()), Ok(Variable(3)));
    assert_eq!(scopes.get(&Name::SelfValue), Some(Variable(3)));
}

#[test]
fn variables_are_dropped_latest_first() {
    let mut scopes = Scopes::new();
    scopes.define(name("a"), span()).unwrap();
    scopes.define(name("b"), span()).unwrap();
    assert_eq!(scopes.pop(span()).unwrap().into_drop_order(), vars(&[1, 0]));
    let error = scopes.pop(span()).unwrap_err();
    assert_eq!(error.kind, ErrorKind::Msg("Missing scope to pop"));
    let error = scopes.define(name("a"), span()).unwrap_err();
    assert_eq!(error.kind, ErrorKind::Msg("Missing scope"));
}

#[test]
fn variables_from_outside_are_captured_once() {
    let mut scopes = Scopes::new();
    scopes.define(name("a"), span()).unwrap();
    scopes.define(name("b"), span()).unwrap();
    scopes.push_kind(LayerKind::Captures);
    scopes.define(name("c"), span()).unwrap();
    scopes.get(&name("b"));
    scopes.get(&name("a"));
    scopes.get(&name("b"));
    scopes.get(&name("c"));
    let layer = scopes.pop(span()).unwrap();
    assert_eq!(layer.captures(), vars(&[1, 0]));
    assert_eq!(layer.into_drop_order(), vars(&[2]));
}

#[test]
fn leaving_a_loop_drops_what_is_inside() {
    let mut scopes = Scopes::new();
    scopes.push_kind(LayerKind::Loop(Some("outer".to_string())));
    scopes.define(name("a"), span()).unwrap();
    scopes.push_kind(LayerKind::Loop(None));
    scopes.define(name("b"), span()).unwrap();
    scopes.push_kind(LayerKind::Block(Some("block".to_string())));
    scopes.define(name("c"), span()).unwrap();
    scopes.define(name("d"), span()).unwrap();
    assert_eq!(scopes.loop_drop(&None), Some(vars(&[3, 2])));
    assert_eq!(scopes.loop_drop(&Some("outer".to_string())), Some(vars(&[3, 2, 1])));
    assert_eq!(scopes.loop_drop(&Some("block".to_string())), Some(List::Nil));
    assert_eq!(scopes.loop_drop(&Some("missing".to_string())), None);
    scopes.push_kind(LayerKind::Captures);
    assert_eq!(scopes.loop_drop(&None), None);
}
