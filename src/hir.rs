use vstd::prelude::*;

verus! {

/// A region of source text, as byte offsets, and whether it comes from a
/// macro or desugaring expansion.
#[derive(Clone, Copy, Debug, PartialEq, Eq, Structural)]
pub struct Span {
    pub lo: u32,
    pub hi: u32,
    pub from_expansion: bool,
}

impl Span {
    /// The empty span at the start of this one.
    pub fn shrink_to_lo(&self) -> (r: Span)
        ensures
            r == (Span { lo: self.lo, hi: self.lo, from_expansion: self.from_expansion }),
    {
        Span { lo: self.lo, hi: self.lo, from_expansion: self.from_expansion }
    }
}

/// How a method call passes its receiver.
#[derive(Clone, Copy, Debug, PartialEq, Eq, Structural)]
pub enum PassingMode {
    ByValue,
    ByReference,
}

/// The shapes of expression that the checks tell apart; every other shape
/// is `Other`.
#[derive(Debug)]
pub enum ExprKind {
    /// `&e` or `&mut e`.
    AddrOf(Box<Expr>),
    /// `e.field`.
    Field(Box<Expr>),
    /// A path, with the definition it resolves to, if any.
    Path(Option<u64>),
    /// `callee(..)`.
    Call(Box<Expr>),
    /// `receiver.method(..)`, with the definition the method resolves to, if
    /// any, and how the receiver is passed.
    MethodCall { receiver: Box<Expr>, target: Option<u64>, mode: PassingMode },
    Other,
}

/// An expression of the analysed program, with its span.
#[derive(Debug)]
pub struct Expr {
    pub kind: ExprKind,
    pub span: Span,
}

/// A statement of the analysed program.
#[derive(Debug)]
pub enum StmtKind {
    /// `let pat = init;`, where `by_ref` tells whether `pat` is a binding by
    /// reference (`ref x` or `ref mut x`).
    Let { by_ref: bool, init: Option<Expr> },
    Other,
}

} // verus!
