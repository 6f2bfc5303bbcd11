//! The variables that are in scope.

use vstd::prelude::*;
use crate::compile::error::{error, CompileError, ErrorKind};
use crate::hir::{Name, Variable};
use crate::list::{list_append, List};
use crate::span::Span;

verus! {

/// The kind of a layer.
#[derive(Debug, PartialEq, Eq)]
pub enum LayerKind {
    /// A block, with its label.
    Block(Option<String>),
    /// A loop, with its label.
    Loop(Option<String>),
    /// The body of a closure or an asynchronous block.
    Captures,
}

/// One layer of scope.
#[derive(Debug, PartialEq, Eq)]
pub struct Layer {
    /// The kind of the layer.
    pub kind: LayerKind,
    /// The variables that the layer defines, the latest one first.
    pub variables: List<(Name, Variable)>,
    /// The variables from outside that are used inside, in the order of their
    /// first use. Only layers for captures have any.
    pub captures: List<(Name, Variable)>,
}

/// The layers of scope, from the outermost to the innermost.
#[derive(Debug, PartialEq, Eq)]
pub struct Scopes {
    /// The layers.
    pub layers: Vec<Layer>,
    /// The next variable.
    pub next: u64,
}

/// The mathematical value of [`Scopes`].
#[verifier::ext_equal]
pub struct ScopesView {
    /// The layers.
    pub layers: Seq<Layer>,
    /// The next variable.
    pub next: u64,
}

/// Test if two names are the same.
pub open spec fn same_name(a: Name, b: Name) -> bool {
    match (a, b) {
        (Name::SelfValue, Name::SelfValue) => true,
        (Name::Str(a), Name::Str(b)) => a@ == b@,
        _ => false,
    }
}

/// The latest variable with the given name.
pub open spec fn bound(variables: List<(Name, Variable)>, name: Name) -> Option<Variable>
    decreases variables,
{
    match variables {
        List::Nil => None,
        List::Cons(head, tail) => if same_name(head.0, name) {
            Some(head.1)
        } else {
            bound(*tail, name)
        },
    }
}

/// The variables of a list of named ones.
pub open spec fn only_variables(variables: List<(Name, Variable)>) -> List<Variable>
    decreases variables,
{
    match variables {
        List::Nil => List::Nil,
        List::Cons(head, tail) => List::Cons(
            Box::new(head.1),
            Box::new(only_variables(*tail)),
        ),
    }
}

/// Test if a list of named variables holds a name with a variable.
pub open spec fn captured(captures: List<(Name, Variable)>, name: Name, variable: Variable) -> bool
    decreases captures,
{
    match captures {
        List::Nil => false,
        List::Cons(head, tail) => (same_name(head.0, name) && head.1 == variable) || captured(
            *tail,
            name,
            variable,
        ),
    }
}

impl Layer {
    /// A layer without variables.
    pub open spec fn empty(kind: LayerKind) -> Layer {
        Layer { kind, variables: List::Nil, captures: List::Nil }
    }

    /// The layer with one more variable.
    pub open spec fn with_variable(self, name: Name, variable: Variable) -> Layer {
        Layer {
            variables: List::Cons(Box::new((name, variable)), Box::new(self.variables)),
            ..self
        }
    }

    /// The layer once the variable is used inside of it.
    pub open spec fn with_capture(self, name: Name, variable: Variable) -> Layer {
        if !(self.kind is Captures) || captured(self.captures, name, variable) {
            self
        } else {
            Layer { captures: list_append(self.captures, (name, variable)), ..self }
        }
    }

    /// The variables of the layer in the order in which they are dropped: the
    /// latest one first.
    #[verifier::opaque]
    pub open spec fn drop_order(self) -> List<Variable> {
        only_variables(self.variables)
    }

    /// The variables that the layer captures.
    #[verifier::opaque]
    pub open spec fn captured_variables(self) -> List<Variable> {
        only_variables(self.captures)
    }
}

/// Test if a `break` or `continue` with the given label refers to a layer.
pub open spec fn is_target(kind: LayerKind, label: Option<String>) -> bool {
    match (kind, label) {
        (LayerKind::Loop(_), None) => true,
        (LayerKind::Loop(Some(name)), Some(label)) => name@ == label@,
        (LayerKind::Block(Some(name)), Some(label)) => name@ == label@,
        _ => false,
    }
}

/// One list behind another.
pub open spec fn concat<T>(a: List<T>, b: List<T>) -> List<T>
    decreases a,
{
    match a {
        List::Nil => b,
        List::Cons(head, tail) => List::Cons(head, Box::new(concat(*tail, b))),
    }
}

impl ScopesView {
    /// With a layer put inside of all others.
    #[verifier::opaque]
    pub open spec fn pushed(self, kind: LayerKind) -> ScopesView {
        ScopesView { layers: self.layers.push(Layer::empty(kind)), ..self }
    }

    /// With the innermost layer taken off.
    #[verifier::opaque]
    pub open spec fn popped(self, span: Span) -> (ScopesView, Result<Layer, CompileError>) {
        if self.layers.len() == 0 {
            (self, Err(error(span, ErrorKind::Msg("Missing scope to pop"))))
        } else {
            (ScopesView { layers: self.layers.drop_last(), ..self }, Ok(self.layers.last()))
        }
    }

    /// With a variable defined in the innermost layer.
    #[verifier::opaque]
    pub open spec fn defined(self, name: Name, span: Span) -> (
        ScopesView,
        Result<Variable, CompileError>,
    ) {
        if self.layers.len() == 0 {
            (self, Err(error(span, ErrorKind::Msg("Missing scope"))))
        } else if self.next == u64::MAX {
            (self, Err(error(span, ErrorKind::Msg("Too many variables"))))
        } else {
            let variable = Variable(self.next);
            (
                ScopesView {
                    layers: self.layers.drop_last().push(
                        self.layers.last().with_variable(name, variable),
                    ),
                    next: (self.next + 1) as u64,
                },
                Ok(variable),
            )
        }
    }

    /// One more than the index of the innermost of the first `n` layers that
    /// has a variable with the given name, or zero.
    pub open spec fn owner(self, name: Name, n: int) -> int
        decreases n,
    {
        if n <= 0 || n > self.layers.len() {
            0
        } else if bound(self.layers[n - 1].variables, name) is Some {
            n
        } else {
            self.owner(name, n - 1)
        }
    }

    /// The variable that a name refers to. Every layer for captures that is
    /// between the use and the definition captures the variable.
    #[verifier::opaque]
    pub open spec fn found(self, name: Name) -> (ScopesView, Option<Variable>) {
        let n = self.owner(name, self.layers.len() as int);

        if n == 0 {
            (self, None)
        } else {
            let variable = bound(self.layers[n - 1].variables, name)->0;
            (
                ScopesView {
                    layers: Seq::new(
                        self.layers.len(),
                        |i: int|
                            if i >= n {
                                self.layers[i].with_capture(name, variable)
                            } else {
                                self.layers[i]
                            },
                    ),
                    ..self
                },
                Some(variable),
            )
        }
    }

    /// The variables that are dropped by leaving the innermost of the first `n`
    /// layers to which the label refers, the latest one first. The body of a
    /// closure or an asynchronous block cannot be left.
    #[verifier::opaque]
    pub open spec fn dropped(self, label: Option<String>, n: int) -> Option<List<Variable>>
        decreases n,
    {
        if n <= 0 || n > self.layers.len() {
            None
        } else if is_target(self.layers[n - 1].kind, label) {
            Some(List::Nil)
        } else if self.layers[n - 1].kind is Captures {
            None
        } else {
            match self.dropped(label, n - 1) {
                Some(outer) => Some(concat(self.layers[n - 1].drop_order(), outer)),
                None => None,
            }
        }
    }

    /// Test if the layers are the same as before, but for new variables in the
    /// innermost one and new captures.
    pub open spec fn extends(self, before: ScopesView) -> bool {
        &&& self.layers.len() == before.layers.len()
        &&& self.next >= before.next
        &&& forall|i: int|
            0 <= i < self.layers.len() ==> (#[trigger] self.layers[i]).kind == before.layers[i].kind
        &&& forall|i: int|
            0 <= i < self.layers.len() - 1 ==> (#[trigger] self.layers[i]).variables
                == before.layers[i].variables
    }
}

impl View for Scopes {
    type V = ScopesView;

    open spec fn view(&self) -> ScopesView {
        ScopesView { layers: self.layers@, next: self.next }
    }
}

/// Test if two names are the same.
fn name_eq(a: &Name, b: &Name) -> (r: bool)
    ensures
        r == same_name(*a, *b),
{
    match (a, b) {
        (Name::SelfValue, Name::SelfValue) => true,
        (Name::Str(a), Name::Str(b)) => *a == *b,
        _ => false,
    }
}

/// Copy a name.
fn copy_name(name: &Name) -> (r: Name)
    ensures
        r == *name,
{
    match name {
        Name::SelfValue => Name::SelfValue,
        Name::Str(name) => Name::Str(name.clone()),
    }
}

/// Find the latest variable with the given name.
fn find_bound(variables: &List<(Name, Variable)>, name: &Name) -> (r: Option<Variable>)
    ensures
        r == bound(*variables, *name),
    decreases variables,
{
    match variables {
        List::Nil => None,
        List::Cons(head, tail) => if name_eq(&head.0, name) {
            Some(head.1)
        } else {
            find_bound(tail, name)
        },
    }
}

/// Test if a list of named variables holds a name with a variable.
fn is_captured(captures: &List<(Name, Variable)>, name: &Name, variable: Variable) -> (r: bool)
    ensures
        r == captured(*captures, *name, variable),
    decreases captures,
{
    match captures {
        List::Nil => false,
        List::Cons(head, tail) => (name_eq(&head.0, name) && head.1 == variable) || is_captured(
            tail,
            name,
            variable,
        ),
    }
}

/// Put the variables of a list of named ones in front of a list.
fn variables_before(variables: &List<(Name, Variable)>, rest: List<Variable>) -> (r: List<Variable>)
    ensures
        r == concat(only_variables(*variables), rest),
    decreases variables,
{
    match variables {
        List::Nil => rest,
        List::Cons(head, tail) => {
            let tail = variables_before(tail, rest);
            List::Cons(Box::new(head.1), Box::new(tail))
        },
    }
}

/// Nothing put behind a list is the list.
proof fn lemma_concat_nil<T>(list: List<T>)
    ensures
        concat(list, List::Nil) == list,
    decreases list,
{
    if let List::Cons(_, tail) = list {
        lemma_concat_nil(*tail);
    }
}

impl Layer {
    /// The variables of the layer in the order in which they are dropped.
    pub fn into_drop_order(&self) -> (r: List<Variable>)
        ensures
            r == self.drop_order(),
    {
        proof {
            reveal(Layer::drop_order);
            lemma_concat_nil(only_variables(self.variables));
        }
        variables_before(&self.variables, List::Nil)
    }

    /// The variables that the layer captures.
    pub fn captures(&self) -> (r: List<Variable>)
        ensures
            r == self.captured_variables(),
    {
        proof {
            reveal(Layer::captured_variables);
            lemma_concat_nil(only_variables(self.captures));
        }
        variables_before(&self.captures, List::Nil)
    }

    /// Note that a variable is used inside of the layer.
    fn capture(self, name: &Name, variable: Variable) -> (layer: Layer)
        ensures
            layer == self.with_capture(*name, variable),
    {
        if let LayerKind::Captures = &self.kind {
            if !is_captured(&self.captures, name, variable) {
                return Layer {
                    kind: self.kind,
                    variables: self.variables,
                    captures: self.captures.append((copy_name(name), variable)),
                };
            }
        }

        self
    }
}

impl Scopes {
    /// Construct scopes with a single outermost layer.
    pub fn new() -> (scopes: Self)
        ensures
            scopes@ == (ScopesView {
                layers: seq![Layer::empty(LayerKind::Block(None))],
                next: 0,
            }),
    {
        let mut layers: Vec<Layer> = Vec::new();
        layers.push(
            Layer { kind: LayerKind::Block(None), variables: List::Nil, captures: List::Nil },
        );
        Scopes { layers, next: 0 }
    }

    /// Put a layer inside of all others.
    pub fn push_kind(&mut self, kind: LayerKind)
        ensures
            final(self)@ == old(self)@.pushed(kind),
    {
        proof {
            reveal(ScopesView::pushed);
        }
        self.layers.push(Layer { kind, variables: List::Nil, captures: List::Nil });
    }

    /// Take the innermost layer off.
    pub fn pop(&mut self, span: Span) -> (r: Result<Layer, CompileError>)
        ensures
            (final(self)@, r) == old(self)@.popped(span),
    {
        proof {
            reveal(ScopesView::popped);
        }
        match self.layers.pop() {
            Some(layer) => Ok(layer),
            None => Err(CompileError::new(span, ErrorKind::Msg("Missing scope to pop"))),
        }
    }

    /// Define a variable in the innermost layer.
    pub fn define(&mut self, name: Name, span: Span) -> (r: Result<Variable, CompileError>)
        ensures
            (final(self)@, r) == old(self)@.defined(name, span),
    {
        proof {
            reveal(ScopesView::defined);
        }
        if self.layers.len() == 0 {
            return Err(CompileError::new(span, ErrorKind::Msg("Missing scope")));
        }

        if self.next == u64::MAX {
            return Err(CompileError::new(span, ErrorKind::Msg("Too many variables")));
        }

        let variable = Variable(self.next);
        self.next = self.next + 1;

        if let Some(layer) = self.layers.pop() {
            self.layers.push(
                Layer {
                    kind: layer.kind,
                    variables: List::Cons(Box::new((name, variable)), Box::new(layer.variables)),
                    captures: layer.captures,
                },
            );
        }

        Ok(variable)
    }

    /// Look up the variable that a name refers to.
    pub fn get(&mut self, name: &Name) -> (r: Option<Variable>)
        ensures
            (final(self)@, r) == old(self)@.found(*name),
    {
        proof {
            reveal(ScopesView::found);
        }
        let len: usize = self.layers.len();
        let mut n: usize = len;

        while n > 0
            invariant
                n <= len,
                len == self.layers@.len(),
                *self == *old(self),
                self@.owner(*name, len as int) == self@.owner(*name, n as int),
            decreases n,
        {
            proof {
                reveal(ScopesView::found);
            }
            if let Some(variable) = find_bound(&self.layers[n - 1].variables, name) {
                self.capture(name, variable, n);
                return Some(variable);
            }

            n -= 1;
        }

        None
    }

    /// Note that a variable is used inside of every layer from index `n` on.
    fn capture(&mut self, name: &Name, variable: Variable, n: usize)
        requires
            n <= old(self).layers@.len(),
        ensures
            final(self).next == old(self).next,
            final(self).layers@ =~= Seq::new(
                old(self).layers@.len(),
                |i: int|
                    if i >= n {
                        old(self).layers@[i].with_capture(*name, variable)
                    } else {
                        old(self).layers@[i]
                    },
            ),
    {
        let mut inner: Vec<Layer> = self.layers.split_off(n);
        let mut done: Vec<Layer> = Vec::new();
        let ghost all = inner@;

        while inner.len() > 0
            invariant
                inner@.len() + done@.len() == all.len(),
                inner@ =~= all.take(inner@.len() as int),
                forall|i: int|
                    0 <= i < done@.len() ==> #[trigger] done@[i] == all[all.len() - 1
                        - i].with_capture(*name, variable),
            decreases inner.len(),
        {
            if let Some(layer) = inner.pop() {
                done.push(layer.capture(name, variable));
            }
        }

        let ghost outer = self.layers@;

        while done.len() > 0
            invariant
                self.next == old(self).next,
                outer.len() == n,
                outer.len() + all.len() == old(self).layers@.len(),
                self.layers@.len() + done@.len() == outer.len() + all.len(),
                done@.len() <= all.len(),
                self.layers@.take(outer.len() as int) =~= outer,
                forall|i: int|
                    0 <= i < done@.len() ==> #[trigger] done@[i] == all[all.len() - 1
                        - i].with_capture(*name, variable),
                forall|i: int|
                    outer.len() <= i < self.layers@.len() ==> #[trigger] self.layers@[i] == all[i
                        - outer.len()].with_capture(*name, variable),
            decreases done.len(),
        {
            let ghost before = self.layers@;
            if let Some(layer) = done.pop() {
                self.layers.push(layer);
            }
            proof {
                assert forall|i: int| 0 <= i < outer.len() implies self.layers@[i] == outer[i] by {
                    assert(before.take(outer.len() as int)[i] == outer[i]);
                }
            }
        }

        proof {
            assert forall|i: int| 0 <= i < old(self).layers@.len() implies #[trigger] self.layers@[i]
                == (if i >= n {
                old(self).layers@[i].with_capture(*name, variable)
            } else {
                old(self).layers@[i]
            }) by {
                if i < n {
                    assert(self.layers@.take(outer.len() as int)[i] == outer[i]);
                }
            }
        }
    }

    /// The variables that are dropped by leaving the layer to which a label
    /// refers, the latest one first. Without a label that is the innermost loop.
    pub fn loop_drop(&self, label: &Option<String>) -> (r: Option<List<Variable>>)
        ensures
            r == self@.dropped(*label, self@.layers.len() as int),
    {
        self.loop_drop_in(label, self.layers.len())
    }

    /// The variables that are dropped by leaving a layer, for the first `n`
    /// layers.
    fn loop_drop_in(&self, label: &Option<String>, n: usize) -> (r: Option<List<Variable>>)
        requires
            n <= self.layers@.len(),
        ensures
            r == self@.dropped(*label, n as int),
        decreases n,
    {
        proof {
            reveal(ScopesView::dropped);
            reveal(Layer::drop_order);
        }
        if n == 0 {
            return None;
        }

        let layer = &self.layers[n - 1];

        let found = match (&layer.kind, label) {
            (LayerKind::Loop(_), None) => true,
            (LayerKind::Loop(Some(name)), Some(label)) => *name == *label,
            (LayerKind::Block(Some(name)), Some(label)) => *name == *label,
            _ => false,
        };

        if found {
            return Some(List::Nil);
        }

        if let LayerKind::Captures = &layer.kind {
            return None;
        }

        match self.loop_drop_in(label, n - 1) {
            Some(outer) => Some(variables_before(&layer.variables, outer)),
            None => None,
        }
    }
}

} // verus!
