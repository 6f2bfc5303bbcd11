//! What is written to a terminal.

use vstd::prelude::*;

verus! {

/// A colour.
#[derive(Debug, Clone, Copy, PartialEq, Eq, Structural)]
pub enum Color {
    /// For what has failed or been removed.
    Red,
    /// For what is as it should be, or has been added.
    Green,
    /// For what has changed.
    Yellow,
    /// For what has not changed.
    Dim,
}

/// Where a piece is written to.
#[derive(Debug, Clone, Copy, PartialEq, Eq, Structural)]
pub enum Target {
    /// The stream that the command was given.
    Stream,
    /// The standard output of the process, whatever stream the command was given.
    Process,
}

/// Text in a colour, or in none.
#[derive(Debug, PartialEq, Eq)]
pub struct Piece {
    /// Where the text is written to.
    pub target: Target,
    /// The colour.
    pub color: Option<Color>,
    /// The text.
    pub text: String,
}

/// The mathematical value of a [`Piece`].
#[verifier::ext_equal]
pub struct PieceView {
    /// Where the text is written to.
    pub target: Target,
    /// The colour.
    pub color: Option<Color>,
    /// The text.
    pub text: Seq<char>,
}

impl View for Piece {
    type V = PieceView;

    open spec fn view(&self) -> PieceView {
        PieceView { target: self.target, color: self.color, text: self.text@ }
    }
}

/// Text in a colour.
pub open spec fn colored(color: Color, text: Seq<char>) -> PieceView {
    PieceView { target: Target::Stream, color: Some(color), text }
}

/// Text in no colour.
pub open spec fn plain(text: Seq<char>) -> PieceView {
    PieceView { target: Target::Stream, color: None, text }
}

/// Text in no colour which is written to the standard output of the process.
pub open spec fn printed(text: Seq<char>) -> PieceView {
    PieceView { target: Target::Process, color: None, text }
}

/// What is to be written.
#[derive(Debug)]
pub struct Output {
    /// The pieces, first to last.
    pub pieces: Vec<Piece>,
}

impl View for Output {
    type V = Seq<PieceView>;

    open spec fn view(&self) -> Seq<PieceView> {
        self.pieces@.map_values(|piece: Piece| piece@)
    }
}

impl Output {
    /// Nothing.
    pub fn new() -> (o: Self)
        ensures
            o@ == Seq::<PieceView>::empty(),
    {
        let o = Output { pieces: Vec::new() };
        assert(o@ =~= Seq::empty());
        o
    }

    /// Write text in a colour.
    pub fn colored(&mut self, color: Color, text: String)
        ensures
            final(self)@ == old(self)@.push(colored(color, text@)),
    {
        self.pieces.push(Piece { target: Target::Stream, color: Some(color), text });
        assert(self@ =~= old(self)@.push(colored(color, text@)));
    }

    /// Write text in no colour.
    pub fn plain(&mut self, text: String)
        ensures
            final(self)@ == old(self)@.push(plain(text@)),
    {
        self.pieces.push(Piece { target: Target::Stream, color: None, text });
        assert(self@ =~= old(self)@.push(plain(text@)));
    }

    /// Write text in no colour to the standard output of the process.
    pub fn printed(&mut self, text: String)
        ensures
            final(self)@ == old(self)@.push(printed(text@)),
    {
        self.pieces.push(Piece { target: Target::Process, color: None, text });
        assert(self@ =~= old(self)@.push(printed(text@)));
    }

    /// Write what is to be written behind it.
    pub fn output(&mut self, other: Output)
        ensures
            final(self)@ == old(self)@ + other@,
    {
        let mut pieces = other.pieces;
        self.pieces.append(&mut pieces);
        assert(self@ =~= old(self)@ + other@);
    }
}

/// How a command ends.
#[derive(Debug, Clone, Copy, PartialEq, Eq, Structural)]
pub enum ExitCode {
    /// It has succeeded.
    Success,
    /// It has failed.
    Failure,
    /// The virtual machine has failed.
    VmError,
}

/// What an entry is of.
#[derive(Debug, Clone, Copy, PartialEq, Eq, Structural)]
pub enum AssetKind {
    /// A binary.
    Bin,
    /// A test.
    Test,
    /// An example.
    Example,
    /// A benchmark.
    Bench,
}

} // verus!
