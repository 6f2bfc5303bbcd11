//! The context in which a tree is lowered.

use vstd::prelude::*;
use crate::compile::error::CompileError;
use crate::hir::scopes::{LayerKind, Scopes, ScopesView};
use crate::hir::{SecondaryBuildEntry, Stmt, Variable};
use crate::query::{Database, ItemId};
use crate::span::Span;

verus! {

/// What an expression is lowered for.
#[derive(Debug, Clone, Copy, PartialEq, Eq, Structural)]
pub enum Needs {
    /// A type.
    Type,
    /// A value.
    Value,
}

/// Something to tell the user about.
#[derive(Debug, PartialEq, Eq)]
pub enum Diagnostic {
    /// The parentheses of a call without arguments can be removed.
    RemoveTupleCallParens {
        /// The source.
        source_id: u32,
        /// Where the arguments are.
        span: Span,
        /// Where the name of the tuple is.
        variant: Span,
    },
    /// A deprecated function is used.
    UsedDeprecated {
        /// The source.
        source_id: u32,
        /// Where the function is used.
        span: Span,
        /// The message of the deprecation.
        message: String,
    },
}

/// The context in which a tree is lowered.
pub struct Ctxt<'a> {
    /// What is known of the items of the program.
    pub db: &'a Database,
    /// Whether the tree is lowered to be evaluated at once.
    pub const_eval: bool,
    /// The level of optimizations.
    pub lowering: u8,
    /// The source of the tree.
    pub source_id: u32,
    /// Whether the next expression may be a path which its user resolves.
    pub in_path: bool,
    /// What the next expression is lowered for.
    pub needs: Needs,
    /// Whether string literals are parts of a template.
    pub in_template: bool,
    /// The variables that are in scope.
    pub scopes: Scopes,
    /// The items that are used.
    pub used: Vec<ItemId>,
    /// What there is to tell the user about.
    pub diagnostics: Vec<Diagnostic>,
    /// The identifiers that a debugger has to know.
    pub idents: Vec<String>,
    /// What has to be built later, unless nothing can be.
    pub secondary_builds: Option<Vec<SecondaryBuildEntry>>,
    /// The statements of all blocks that are being lowered.
    pub statements: Vec<Stmt>,
    /// The statements that the current statement lowers to.
    pub statement_buffer: Vec<Stmt>,
    /// The variables that the current pattern binds.
    pub pattern_bindings: Vec<Variable>,
}

/// What lowering does not change.
pub struct Env {
    /// What is known of the items of the program.
    pub db: Database,
    /// Whether the tree is lowered to be evaluated at once.
    pub const_eval: bool,
    /// The level of optimizations.
    pub lowering: u8,
    /// The source of the tree.
    pub source_id: u32,
}

/// What lowering changes.
#[verifier::ext_equal]
pub struct State {
    /// Whether the next expression may be a path which its user resolves.
    pub in_path: bool,
    /// What the next expression is lowered for.
    pub needs: Needs,
    /// Whether string literals are parts of a template.
    pub in_template: bool,
    /// The variables that are in scope.
    pub scopes: ScopesView,
    /// The items that are used.
    pub used: Seq<ItemId>,
    /// What there is to tell the user about.
    pub diagnostics: Seq<Diagnostic>,
    /// The identifiers that a debugger has to know.
    pub idents: Seq<String>,
    /// What has to be built later, unless nothing can be.
    pub builds: Option<Seq<SecondaryBuildEntry>>,
    /// The statements that the current statement lowers to.
    pub buffer: Seq<Stmt>,
    /// The variables that the current pattern binds.
    pub bindings: Seq<Variable>,
}

/// A step of lowering: the state that it ends in, and what it gives.
pub type Lowered<T> = (State, Result<T, CompileError>);

impl State {
    /// With a layer of scope put inside of all others.
    pub open spec fn pushed(self, kind: LayerKind) -> State {
        State { scopes: self.scopes.pushed(kind), ..self }
    }

    /// With the item marked as used.
    pub open spec fn using(self, item: ItemId) -> State {
        State { used: self.used.push(item), ..self }
    }

    /// With one more diagnostic.
    pub open spec fn telling(self, diagnostic: Diagnostic) -> State {
        State { diagnostics: self.diagnostics.push(diagnostic), ..self }
    }

    /// With the identifier made known to a debugger.
    pub open spec fn naming(self, ident: String) -> State {
        State { idents: self.idents.push(ident), ..self }
    }

    /// With one more thing that has to be built.
    pub open spec fn building(self, entry: SecondaryBuildEntry) -> State {
        State {
            builds: match self.builds {
                Some(builds) => Some(builds.push(entry)),
                None => None,
            },
            ..self
        }
    }

    /// With one more statement that the current one lowers to.
    pub open spec fn buffering(self, stmt: Stmt) -> State {
        State { buffer: self.buffer.push(stmt), ..self }
    }

    /// What a successful step leaves as it was. It goes back to the layers of
    /// scope that it came from, having at most defined variables in the
    /// innermost one and captured others. It takes nothing back that it has
    /// already recorded. Where no statements are waiting in the buffer, none are
    /// left there.
    #[verifier::opaque]
    pub open spec fn follows(self, before: State) -> bool {
        &&& self.in_path ==> before.in_path
        &&& self.needs == before.needs
        &&& self.in_template == before.in_template
        &&& self.scopes.extends(before.scopes)
        &&& before.used.is_prefix_of(self.used)
        &&& before.diagnostics.is_prefix_of(self.diagnostics)
        &&& before.idents.is_prefix_of(self.idents)
        &&& match (before.builds, self.builds) {
            (None, None) => true,
            (Some(before), Some(after)) => before.is_prefix_of(after),
            _ => false,
        }
        &&& before.buffer.len() == 0 ==> self.buffer.len() == 0
    }

    /// What a successful statement leaves as it was: all that a step does, but for
    /// the buffer, in which it leaves what it lowers to.
    pub open spec fn states(self, before: State) -> bool {
        (State { buffer: before.buffer, ..self }).follows(before)
    }
}

impl<'a> Ctxt<'a> {
    /// What lowering does not change.
    pub open spec fn env(self) -> Env {
        Env {
            db: *self.db,
            const_eval: self.const_eval,
            lowering: self.lowering,
            source_id: self.source_id,
        }
    }

    /// What lowering changes.
    pub open spec fn st(self) -> State {
        State {
            in_path: self.in_path,
            needs: self.needs,
            in_template: self.in_template,
            scopes: self.scopes@,
            used: self.used@,
            diagnostics: self.diagnostics@,
            idents: self.idents@,
            builds: match self.secondary_builds {
                Some(builds) => Some(builds@),
                None => None,
            },
            buffer: self.statement_buffer@,
            bindings: self.pattern_bindings@,
        }
    }

    /// A context for code which is run later: functions, closures and
    /// asynchronous blocks.
    pub fn with_query(db: &'a Database, lowering: u8, source_id: u32) -> (cx: Self)
        ensures
            *cx.db == *db,
            cx.env() == (Env { db: *db, const_eval: false, lowering, source_id }),
            cx.st() == initial(Some(Seq::empty())),
            cx.statements@ == Seq::<Stmt>::empty(),
    {
        Ctxt {
            db,
            const_eval: false,
            lowering,
            source_id,
            in_path: false,
            needs: Needs::Value,
            in_template: false,
            scopes: Scopes::new(),
            used: Vec::new(),
            diagnostics: Vec::new(),
            idents: Vec::new(),
            secondary_builds: Some(Vec::new()),
            statements: Vec::new(),
            statement_buffer: Vec::new(),
            pattern_bindings: Vec::new(),
        }
    }

    /// A context for code which is evaluated at once, and which cannot leave
    /// anything to be built later.
    pub fn with_const(db: &'a Database, lowering: u8, source_id: u32) -> (cx: Self)
        ensures
            *cx.db == *db,
            cx.env() == (Env { db: *db, const_eval: true, lowering, source_id }),
            cx.st() == initial(None),
            cx.statements@ == Seq::<Stmt>::empty(),
    {
        Ctxt {
            db,
            const_eval: true,
            lowering,
            source_id,
            in_path: false,
            needs: Needs::Value,
            in_template: false,
            scopes: Scopes::new(),
            used: Vec::new(),
            diagnostics: Vec::new(),
            idents: Vec::new(),
            secondary_builds: None,
            statements: Vec::new(),
            statement_buffer: Vec::new(),
            pattern_bindings: Vec::new(),
        }
    }
}

/// The state that lowering starts in.
pub open spec fn initial(builds: Option<Seq<SecondaryBuildEntry>>) -> State {
    State {
        in_path: false,
        needs: Needs::Value,
        in_template: false,
        scopes: ScopesView {
            layers: seq![crate::hir::scopes::Layer::empty(LayerKind::Block(None))],
            next: 0,
        },
        used: Seq::empty(),
        diagnostics: Seq::empty(),
        idents: Seq::empty(),
        builds,
        buffer: Seq::empty(),
        bindings: Seq::empty(),
    }
}

} // verus!
