//! Hashes that identify items, types and functions.
//!
//! A hash is a polynomial in the things that are mixed into it, modulo a
//! Mersenne prime.

use vstd::prelude::*;
use crate::item::{Component, ComponentView, ItemBuf};

verus! {

/// The modulus of every hash.
pub const MODULUS: u64 = 0x1fff_ffff_ffff_ffff;

/// The factor between two things that are mixed into a hash.
pub const MULTIPLIER: u64 = 0x0e37_79b9_7f4a_7c15;

/// Seed for the hash of an item.
pub const TYPE: u64 = 0x11;

/// Seed for the hash of an identifier.
pub const IDENT: u64 = 0x12;

/// Seed for the hash of an index.
pub const INDEX: u64 = 0x13;

/// Seed for hashed parameters.
pub const PARAMETERS: u64 = 0x14;

/// Seed for a function with parameters.
pub const FUNCTION_PARAMETERS: u64 = 0x15;

/// The most parameters that one builder takes.
pub const MAX_PARAMETERS: u32 = 32;

/// A hash.
#[derive(Debug, Clone, Copy, PartialEq, Eq, Structural)]
pub struct Hash64(pub u64);

/// The value of the hash that stands for nothing.
pub const EMPTY: u64 = 0;

/// Too many parameters were added to a [`ParametersBuilder`].
#[derive(Debug, Clone, Copy, PartialEq, Eq, Structural)]
pub struct TooManyParameters;

/// `x` mixed into `h`.
#[verifier::opaque]
pub open spec fn mixed(h: u64, x: u64) -> u64 {
    ((h * MULTIPLIER + x + 1) % (MODULUS as int)) as u64
}

/// The first `n` characters of `text` mixed into `h`, in order.
pub open spec fn mixed_text(h: u64, text: Seq<char>, n: nat) -> u64
    decreases n,
{
    if n == 0 {
        h
    } else {
        mixed(mixed_text(h, text, (n - 1) as nat), text[n - 1] as u64)
    }
}

/// One component of an item mixed into `h`: what sort of component it is, and
/// then its text or number.
pub open spec fn mixed_component(h: u64, component: ComponentView) -> u64 {
    match component {
        ComponentView::Crate(name) => mixed_text(mixed(h, 1), name, name.len()),
        ComponentView::Str(name) => mixed_text(mixed(h, 2), name, name.len()),
        ComponentView::Id(id) => mixed(mixed(h, 3), id),
    }
}

/// The first `n` components of an item mixed into `h`, in order.
pub open spec fn mixed_components(h: u64, components: Seq<ComponentView>, n: nat) -> u64
    decreases n,
{
    if n == 0 {
        h
    } else {
        mixed_component(mixed_components(h, components, (n - 1) as nat), components[n - 1])
    }
}

/// The hash of the item that is made of `components`.
pub open spec fn type_hash(components: Seq<ComponentView>) -> Hash64 {
    Hash64(mixed_components(mixed(0, TYPE), components, components.len()))
}

/// The hash of an identifier.
pub open spec fn ident_hash(name: Seq<char>) -> Hash64 {
    Hash64(mixed_text(mixed(0, IDENT), name, name.len()))
}

/// The hash of an index.
pub open spec fn index_hash(index: u64) -> Hash64 {
    Hash64(mixed(mixed(0, INDEX), index))
}

/// The hash of the function `hash` with its parameters fixed to `parameters`.
pub open spec fn function_parameters_hash(hash: Hash64, parameters: Hash64) -> Hash64 {
    Hash64(mixed(mixed(hash.0, FUNCTION_PARAMETERS), parameters.0))
}

/// Mix `x` into `h`.
fn mix(h: u64, x: u64) -> (r: u64)
    ensures
        r == mixed(h, x),
{
    proof {
        reveal(mixed);
    }
    assert(h * MULTIPLIER <= 0xffff_ffff_ffff_ffff * MULTIPLIER) by (nonlinear_arith)
        requires
            h <= 0xffff_ffff_ffff_ffff,
    ;
    let wide: u128 = (h as u128) * (MULTIPLIER as u128) + (x as u128) + 1;
    (wide % (MODULUS as u128)) as u64
}

/// Mix every character of `text` into `h`.
fn mix_text(h: u64, text: &str) -> (r: u64)
    ensures
        r == mixed_text(h, text@, text@.len()),
{
    let mut hash: u64 = h;

    for c in it: text.chars()
        invariant
            it.seq() == text@,
            hash == mixed_text(h, text@, it.index() as nat),
    {
        hash = mix(hash, c as u64);
    }

    hash
}

impl Hash64 {
    /// The hash of an item.
    pub fn type_hash(item: &ItemBuf) -> (hash: Hash64)
        ensures
            hash == type_hash(item@),
    {
        let mut hash: u64 = mix(0, TYPE);
        let mut i: usize = 0;

        while i < item.content.len()
            invariant
                i <= item.content@.len(),
                hash == mixed_components(mixed(0, TYPE), item@, i as nat),
            decreases item.content@.len() - i,
        {
            hash = match &item.content[i] {
                Component::Crate(name) => mix_text(mix(hash, 1), name.as_str()),
                Component::Str(name) => mix_text(mix(hash, 2), name.as_str()),
                Component::Id(id) => mix(mix(hash, 3), *id),
            };
            i += 1;
        }

        Hash64(hash)
    }

    /// The hash of an identifier.
    pub fn ident(name: &str) -> (hash: Hash64)
        ensures
            hash == ident_hash(name@),
    {
        Hash64(mix_text(mix(0, IDENT), name))
    }

    /// The hash of an index.
    pub fn index(index: usize) -> (hash: Hash64)
        ensures
            hash == index_hash(index as u64),
    {
        Hash64(mix(mix(0, INDEX), index as u64))
    }

    /// The hash of this function with its parameters fixed.
    pub fn with_function_parameters(self, parameters: Hash64) -> (hash: Hash64)
        ensures
            hash == function_parameters_hash(self, parameters),
    {
        Hash64(mix(mix(self.0, FUNCTION_PARAMETERS), parameters.0))
    }
}

/// A sequence of parameters that is hashed as a whole.
#[derive(Debug, Clone, Copy, PartialEq, Eq, Structural)]
pub struct ParametersBuilder {
    /// The parameters so far, mixed.
    pub hash: u64,
    /// The number of parameters so far.
    pub count: u32,
}

/// A builder that holds no parameter.
pub open spec fn no_parameters() -> ParametersBuilder {
    ParametersBuilder { hash: mixed(0, PARAMETERS), count: 0 }
}

impl ParametersBuilder {
    /// The builder with one more parameter, or nothing when it is full.
    pub open spec fn added(self, hash: Hash64) -> Result<ParametersBuilder, TooManyParameters> {
        if self.count >= MAX_PARAMETERS {
            Err(TooManyParameters)
        } else {
            Ok(ParametersBuilder { hash: mixed(self.hash, hash.0), count: (self.count + 1) as u32 })
        }
    }

    /// Construct a builder without parameters.
    pub fn new() -> (builder: Self)
        ensures
            builder == no_parameters(),
    {
        ParametersBuilder { hash: mix(0, PARAMETERS), count: 0 }
    }

    /// Add a parameter.
    pub fn add(self, hash: Hash64) -> (r: Result<Self, TooManyParameters>)
        ensures
            r == self.added(hash),
    {
        if self.count >= MAX_PARAMETERS {
            return Err(TooManyParameters);
        }

        Ok(ParametersBuilder { hash: mix(self.hash, hash.0), count: self.count + 1 })
    }

    /// The hash of all parameters.
    pub fn finish(self) -> (hash: Hash64)
        ensures
            hash == Hash64(self.hash),
    {
        Hash64(self.hash)
    }
}

} // verus!
