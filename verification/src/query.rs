//! What the compiler knows of the items of a program.

use vstd::prelude::*;
use crate::ast::{Path, PathSegment};
use crate::compile::error::{error, CompileError, ErrorKind};
use crate::hash::{Hash64, EMPTY};
use crate::runtime::ConstValue;
use crate::span::Span;

verus! {

/// The id of a syntax node.
#[derive(Debug, Clone, Copy, PartialEq, Eq, Structural)]
pub struct Id(pub u64);

/// The id of an item.
#[derive(Debug, Clone, Copy, PartialEq, Eq, Structural)]
pub struct ItemId(pub u64);

/// Why the query engine refused a request.
#[derive(Debug, Clone, Copy, PartialEq, Eq, Structural)]
pub enum QueryError {
    /// The item is not visible from where it is used.
    NotVisible,
    /// The item is an import of itself.
    ImportCycle,
    /// More than one item is meant.
    Ambiguous,
    /// The path cannot be resolved.
    BadPath,
}

/// An item and the module that it belongs to.
#[derive(Debug, Clone, Copy, PartialEq, Eq, Structural)]
pub struct ItemMeta {
    /// The item.
    pub item: ItemId,
    /// The module that the item is in.
    pub module: ItemId,
}

/// The hashed generic parameters of a path.
#[derive(Debug, Clone, Copy, PartialEq, Eq, Structural)]
pub struct GenericsParameters {
    /// The number of trailing path components.
    pub trailing: usize,
    /// The first group of parameters.
    pub first: Option<Hash64>,
    /// The second group of parameters.
    pub second: Option<Hash64>,
}

/// No parameters at all.
pub open spec fn without_parameters() -> GenericsParameters {
    GenericsParameters { trailing: 0, first: None, second: None }
}

/// What a path is the name of.
#[derive(Debug, Clone, Copy, PartialEq, Eq, Structural)]
pub struct Named {
    /// The item.
    pub item: ItemId,
    /// The number of trailing path components.
    pub trailing: usize,
}

/// How a function is called.
#[derive(Debug, Clone, Copy, PartialEq, Eq, Structural)]
pub enum Call {
    /// The call gives a future.
    Async,
    /// The call runs the function.
    Immediate,
    /// The call gives a stream.
    Stream,
    /// The call gives a generator.
    Generator,
}

/// A field of a struct.
#[derive(Debug, PartialEq, Eq)]
pub struct FieldMeta {
    /// The name of the field.
    pub name: String,
    /// The position of the field.
    pub position: usize,
}

/// The fields of a struct or variant.
#[derive(Debug, PartialEq, Eq)]
pub enum Fields {
    /// Named fields.
    Named(Vec<FieldMeta>),
    /// A number of unnamed fields.
    Unnamed(usize),
    /// No fields.
    Empty,
}

/// The kind of an item.
#[derive(Debug, PartialEq, Eq)]
pub enum Kind {
    /// A type without known structure.
    Type,
    /// A struct, or the variant of an enum.
    Struct {
        /// The fields of the struct.
        fields: Fields,
        /// Whether the struct has a native constructor.
        constructor: bool,
        /// The hash of the enum, for a variant.
        enum_hash: Hash64,
    },
    /// An enum.
    Enum,
    /// A trait.
    Trait,
    /// A macro.
    Macro,
    /// An attribute macro.
    AttributeMacro,
    /// A function.
    Function,
    /// A closure.
    Closure {
        /// How the closure is called.
        call: Call,
        /// Whether the closure moves its environment.
        do_move: bool,
    },
    /// An asynchronous block.
    AsyncBlock {
        /// How the block is called.
        call: Call,
        /// Whether the block moves its environment.
        do_move: bool,
    },
    /// A constant.
    Const,
    /// A constant function.
    ConstFn,
    /// An import.
    Import,
    /// An alias.
    Alias,
    /// A module.
    Module,
}

/// The kind of an item, without what belongs to it.
#[derive(Debug, Clone, Copy, PartialEq, Eq, Structural)]
pub enum MetaInfoKind {
    /// A type without known structure.
    Type,
    /// A struct.
    Struct,
    /// The variant of an enum.
    Variant,
    /// An enum.
    Enum,
    /// A trait.
    Trait,
    /// A macro.
    Macro,
    /// An attribute macro.
    AttributeMacro,
    /// A function.
    Function,
    /// A closure.
    Closure,
    /// An asynchronous block.
    AsyncBlock,
    /// A constant.
    Const,
    /// A constant function.
    ConstFn,
    /// An import.
    Import,
    /// An alias.
    Alias,
    /// A module.
    Module,
}

/// A short description of an item.
#[derive(Debug, Clone, Copy, PartialEq, Eq, Structural)]
pub struct MetaInfo {
    /// The kind of the item.
    pub kind: MetaInfoKind,
    /// The hash of the item.
    pub hash: Hash64,
    /// The item.
    pub item: ItemId,
}

/// What is known of an item.
#[derive(Debug, PartialEq, Eq)]
pub struct Meta {
    /// The hash of the item.
    pub hash: Hash64,
    /// The item and its module.
    pub item_meta: ItemMeta,
    /// The kind of the item.
    pub kind: Kind,
}

impl Meta {
    /// The short description of the item.
    #[verifier::opaque]
    pub open spec fn described(self) -> MetaInfo {
        MetaInfo {
            kind: match self.kind {
                Kind::Type => MetaInfoKind::Type,
                Kind::Struct { enum_hash, .. } => if enum_hash.0 != EMPTY {
                    MetaInfoKind::Variant
                } else {
                    MetaInfoKind::Struct
                },
                Kind::Enum => MetaInfoKind::Enum,
                Kind::Trait => MetaInfoKind::Trait,
                Kind::Macro => MetaInfoKind::Macro,
                Kind::AttributeMacro => MetaInfoKind::AttributeMacro,
                Kind::Function => MetaInfoKind::Function,
                Kind::Closure { .. } => MetaInfoKind::Closure,
                Kind::AsyncBlock { .. } => MetaInfoKind::AsyncBlock,
                Kind::Const => MetaInfoKind::Const,
                Kind::ConstFn => MetaInfoKind::ConstFn,
                Kind::Import => MetaInfoKind::Import,
                Kind::Alias => MetaInfoKind::Alias,
                Kind::Module => MetaInfoKind::Module,
            },
            hash: self.hash,
            item: self.item_meta.item,
        }
    }

    /// The hash of the type that values of the item are checked against.
    /// Variants have none of their own: they are checked against their enum.
    #[verifier::opaque]
    pub open spec fn type_hash(self) -> Option<Hash64> {
        match self.kind {
            Kind::Type | Kind::Enum | Kind::Function => Some(self.hash),
            Kind::Closure { .. } | Kind::AsyncBlock { .. } => Some(self.hash),
            Kind::Struct { enum_hash, .. } => if enum_hash.0 == EMPTY {
                Some(self.hash)
            } else {
                None
            },
            _ => None,
        }
    }

    /// The short description of the item.
    pub fn info(&self) -> (info: MetaInfo)
        ensures
            info == self.described(),
    {
        proof {
            reveal(Meta::described);
        }
        let kind = match &self.kind {
            Kind::Type => MetaInfoKind::Type,
            Kind::Struct { enum_hash, .. } => if enum_hash.0 != EMPTY {
                MetaInfoKind::Variant
            } else {
                MetaInfoKind::Struct
            },
            Kind::Enum => MetaInfoKind::Enum,
            Kind::Trait => MetaInfoKind::Trait,
            Kind::Macro => MetaInfoKind::Macro,
            Kind::AttributeMacro => MetaInfoKind::AttributeMacro,
            Kind::Function => MetaInfoKind::Function,
            Kind::Closure { .. } => MetaInfoKind::Closure,
            Kind::AsyncBlock { .. } => MetaInfoKind::AsyncBlock,
            Kind::Const => MetaInfoKind::Const,
            Kind::ConstFn => MetaInfoKind::ConstFn,
            Kind::Import => MetaInfoKind::Import,
            Kind::Alias => MetaInfoKind::Alias,
            Kind::Module => MetaInfoKind::Module,
        };

        MetaInfo { kind, hash: self.hash, item: self.item_meta.item }
    }

    /// The hash of the type that values of the item are checked against.
    pub fn type_hash_of(&self) -> (hash: Option<Hash64>)
        ensures
            hash == self.type_hash(),
    {
        proof {
            reveal(Meta::type_hash);
        }
        match &self.kind {
            Kind::Type | Kind::Enum | Kind::Function => Some(self.hash),
            Kind::Closure { .. } | Kind::AsyncBlock { .. } => Some(self.hash),
            Kind::Struct { enum_hash, .. } => if enum_hash.0 == EMPTY {
                Some(self.hash)
            } else {
                None
            },
            _ => None,
        }
    }
}

/// What is known of an item with given parameters.
#[derive(Debug, PartialEq, Eq)]
pub struct MetaEntry {
    /// The item.
    pub item: ItemId,
    /// The parameters of the item.
    pub parameters: GenericsParameters,
    /// What is known, or why it cannot be.
    pub meta: Result<Meta, QueryError>,
}

/// Everything that is known of the items of a program.
#[derive(Debug, PartialEq, Eq)]
pub struct Database {
    /// The items that syntax nodes declare, by the id of the node.
    pub items: Vec<(u64, ItemMeta)>,
    /// What paths are the names of, by the id of the path.
    pub paths: Vec<(u64, Result<Named, QueryError>)>,
    /// What is known of items.
    pub metas: Vec<MetaEntry>,
    /// The values of constants, by the hash of the constant.
    pub constants: Vec<(u64, ConstValue)>,
    /// The messages of deprecated functions, by the hash of the function.
    pub deprecated: Vec<(u64, String)>,
}

/// The value that belongs to `key` in the first entry that has the key, from
/// index `i` on.
pub open spec fn entry<V>(table: Seq<(u64, V)>, key: u64, i: int) -> Option<V>
    decreases table.len() - i,
{
    if i < 0 || i >= table.len() {
        None
    } else if table[i].0 == key {
        Some(table[i].1)
    } else {
        entry(table, key, i + 1)
    }
}

/// Find the value that belongs to a key.
fn find<V>(table: &Vec<(u64, V)>, key: u64) -> (r: Option<&V>)
    ensures
        match r {
            Some(value) => entry(table@, key, 0) == Some(*value),
            None => entry(table@, key, 0) is None,
        },
{
    let mut i: usize = 0;

    while i < table.len()
        invariant
            i <= table@.len(),
            entry(table@, key, 0) == entry(table@, key, i as int),
        decreases table@.len() - i,
    {
        if table[i].0 == key {
            return Some(&table[i].1);
        }

        i += 1;
    }

    None
}

/// What the first entry for an item with given parameters holds, from index
/// `i` on.
pub open spec fn meta_entry(
    metas: Seq<MetaEntry>,
    item: ItemId,
    parameters: GenericsParameters,
    i: int,
) -> Option<Result<Meta, QueryError>>
    decreases metas.len() - i,
{
    if i < 0 || i >= metas.len() {
        None
    } else if metas[i].item == item && metas[i].parameters == parameters {
        Some(metas[i].meta)
    } else {
        meta_entry(metas, item, parameters, i + 1)
    }
}

/// The index of the first segment from `i` on that holds generic arguments, or
/// the number of segments.
#[verifier::opaque]
pub open spec fn generics_index(segments: Seq<PathSegment>, i: int) -> int
    decreases segments.len() - i,
{
    if i < 0 || i >= segments.len() {
        segments.len() as int
    } else if segments[i] is Generics {
        i
    } else {
        generics_index(segments, i + 1)
    }
}

/// Find the first segment from `from` on that holds generic arguments.
pub fn find_generics(path: &Path, from: usize) -> (r: usize)
    requires
        from <= path.rest@.len(),
    ensures
        r == generics_index(path.rest@, from as int),
        from <= r <= path.rest@.len(),
        r < path.rest@.len() ==> path.rest@[r as int] is Generics,
{
    proof {
        reveal(generics_index);
    }
    let mut i: usize = from;

    while i < path.rest.len()
        invariant
            from <= i <= path.rest@.len(),
            generics_index(path.rest@, from as int) == generics_index(path.rest@, i as int),
        decreases path.rest@.len() - i,
    {
        proof {
            reveal(generics_index);
        }
        if let PathSegment::Generics(_) = &path.rest[i] {
            return i;
        }

        i += 1;
    }

    i
}

impl Database {
    /// The item that the node with the given id declares.
    #[verifier::opaque]
    pub open spec fn item_of(self, what: &'static str, id: Id, span: Span) -> Result<
        ItemMeta,
        CompileError,
    > {
        match entry(self.items@, id.0, 0) {
            Some(item) => Ok(item),
            None => Err(error(span, ErrorKind::MissingId { what, id })),
        }
    }

    /// What a path is the name of.
    #[verifier::opaque]
    pub open spec fn name_of(self, path: Path) -> Result<Named, CompileError> {
        match entry(self.paths@, path.id.0, 0) {
            Some(Ok(named)) => Ok(named),
            Some(Err(e)) => Err(error(path.span, ErrorKind::Query(e))),
            None => Err(error(path.span, ErrorKind::MissingId { what: "path", id: path.id })),
        }
    }

    /// What is known of an item with given parameters, if it is known at all.
    #[verifier::opaque]
    pub open spec fn meta_of(
        self,
        span: Span,
        item: ItemId,
        parameters: GenericsParameters,
    ) -> Result<Option<Meta>, CompileError> {
        match meta_entry(self.metas@, item, parameters, 0) {
            Some(Ok(meta)) => Ok(Some(meta)),
            Some(Err(e)) => Err(error(span, ErrorKind::Query(e))),
            None => Ok(None),
        }
    }

    /// What is known of an item with given parameters, which has to be known.
    #[verifier::opaque]
    pub open spec fn known_meta_of(
        self,
        span: Span,
        item: ItemId,
        parameters: GenericsParameters,
    ) -> Result<Meta, CompileError> {
        match self.meta_of(span, item, parameters) {
            Ok(Some(meta)) => Ok(meta),
            Ok(None) => Err(error(span, ErrorKind::MissingItemParameters { item, parameters })),
            Err(e) => Err(e),
        }
    }

    /// The value of the constant with the given hash.
    #[verifier::opaque]
    pub open spec fn constant_of(self, hash: Hash64) -> Option<ConstValue> {
        entry(self.constants@, hash.0, 0)
    }

    /// The message of the deprecated function with the given hash.
    #[verifier::opaque]
    pub open spec fn deprecation_of(self, hash: Hash64) -> Option<String> {
        entry(self.deprecated@, hash.0, 0)
    }

    /// Look up the item that the node with the given id declares.
    pub fn item_for(&self, what: &'static str, id: Id, span: Span) -> (r: Result<
        ItemMeta,
        CompileError,
    >)
        ensures
            r == self.item_of(what, id, span),
    {
        proof {
            reveal(Database::item_of);
        }
        match find(&self.items, id.0) {
            Some(item) => Ok(*item),
            None => Err(CompileError::new(span, ErrorKind::MissingId { what, id })),
        }
    }

    /// Look up what a path is the name of.
    pub fn convert_path(&self, path: &Path) -> (r: Result<Named, CompileError>)
        ensures
            r == self.name_of(*path),
    {
        proof {
            reveal(Database::name_of);
        }
        match find(&self.paths, path.id.0) {
            Some(Ok(named)) => Ok(*named),
            Some(Err(e)) => Err(CompileError::new(path.span, ErrorKind::Query(*e))),
            None => Err(
                CompileError::new(path.span, ErrorKind::MissingId { what: "path", id: path.id }),
            ),
        }
    }

    /// Look up what is known of an item with given parameters.
    pub fn query_meta(
        &self,
        span: Span,
        item: ItemId,
        parameters: GenericsParameters,
    ) -> (r: Result<Option<&Meta>, CompileError>)
        ensures
            match r {
                Ok(Some(meta)) => self.meta_of(span, item, parameters) == Ok::<_, CompileError>(
                    Some(*meta),
                ),
                Ok(None) => self.meta_of(span, item, parameters) == Ok::<_, CompileError>(
                    None::<Meta>,
                ),
                Err(e) => self.meta_of(span, item, parameters) == Err::<Option<Meta>, _>(e),
            },
    {
        proof {
            reveal(Database::meta_of);
        }
        let mut i: usize = 0;

        while i < self.metas.len()
            invariant
                i <= self.metas@.len(),
                meta_entry(self.metas@, item, parameters, 0) == meta_entry(
                    self.metas@,
                    item,
                    parameters,
                    i as int,
                ),
            decreases self.metas@.len() - i,
        {
            proof {
                reveal(Database::meta_of);
            }
            if self.metas[i].item == item && self.metas[i].parameters == parameters {
                return match &self.metas[i].meta {
                    Ok(meta) => Ok(Some(meta)),
                    Err(e) => Err(CompileError::new(span, ErrorKind::Query(*e))),
                };
            }

            i += 1;
        }

        Ok(None)
    }

    /// Look up what is known of an item with given parameters, which has to be
    /// known.
    pub fn lookup_meta(&self, span: Span, item: ItemId, parameters: GenericsParameters) -> (r:
        Result<&Meta, CompileError>)
        ensures
            match r {
                Ok(meta) => self.known_meta_of(span, item, parameters) == Ok::<_, CompileError>(
                    *meta,
                ),
                Err(e) => self.known_meta_of(span, item, parameters) == Err::<Meta, _>(e),
            },
    {
        proof {
            reveal(Database::known_meta_of);
        }
        match self.query_meta(span, item, parameters) {
            Ok(Some(meta)) => Ok(meta),
            Ok(None) => Err(
                CompileError::new(span, ErrorKind::MissingItemParameters { item, parameters }),
            ),
            Err(e) => Err(e),
        }
    }

    /// Look up the value of a constant.
    pub fn get_const_value(&self, hash: Hash64) -> (r: Option<&ConstValue>)
        ensures
            match r {
                Some(value) => self.constant_of(hash) == Some(*value),
                None => self.constant_of(hash) is None,
            },
    {
        proof {
            reveal(Database::constant_of);
        }
        find(&self.constants, hash.0)
    }

    /// Look up the message of a deprecated function.
    pub fn lookup_deprecation(&self, hash: Hash64) -> (r: Option<&String>)
        ensures
            match r {
                Some(message) => self.deprecation_of(hash) == Some(*message),
                None => self.deprecation_of(hash) is None,
            },
    {
        proof {
            reveal(Database::deprecation_of);
        }
        find(&self.deprecated, hash.0)
    }
}

} // verus!
