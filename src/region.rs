use vstd::prelude::*;
use crate::hir::Span;
use crate::phase::{DeclKind, Phase, SymbolTable};

verus! {

/// What the checks know of the function whose body is being analysed.
#[derive(Clone, Copy, Debug, PartialEq, Eq, Structural)]
pub struct AnalysisState {
    pub caller_phase: Phase,
    /// Where a marker would be inserted to make the function restricted.
    pub fix_insertion_point: Option<Span>,
}

impl AnalysisState {
    pub open spec fn wf(&self) -> bool {
        self.fix_insertion_point.is_some() <==> self.caller_phase == Phase::Normal
    }
}

/// The state for entering function `def`, whose text spans `span`.
pub open spec fn entered(symbols: SymbolTable, def: u64, span: Span) -> AnalysisState {
    if symbols.phase(def, DeclKind::Function) == Phase::Restricted {
        AnalysisState { caller_phase: Phase::Restricted, fix_insertion_point: None }
    } else {
        AnalysisState {
            caller_phase: Phase::Normal,
            fix_insertion_point: Some(Span { lo: span.lo, hi: span.lo, from_expansion: span.from_expansion }),
        }
    }
}

/// Classifies function `def` and builds the state for analysing its body.
pub fn enter_function(symbols: &SymbolTable, def: u64, span: Span) -> (r: AnalysisState)
    ensures
        r == entered(*symbols, def, span),
        r.wf(),
{
    match symbols.phase_of_def(def, DeclKind::Function) {
        Phase::Restricted => AnalysisState { caller_phase: Phase::Restricted, fix_insertion_point: None },
        Phase::Normal => AnalysisState {
            caller_phase: Phase::Normal,
            fix_insertion_point: Some(span.shrink_to_lo()),
        },
    }
}

/// The states of the function-like scopes that enclose the current point of
/// the traversal, innermost last.
#[derive(Debug)]
pub struct RegionStack {
    pub frames: Vec<AnalysisState>,
}

impl RegionStack {
    pub open spec fn wf(&self) -> bool {
        forall|i: int| 0 <= i < self.frames@.len() ==> #[trigger] self.frames@[i].wf()
    }

    /// Where a fix goes while the innermost scope is normal; `None` outside
    /// any function and inside a restricted one.
    pub open spec fn current_fix(&self) -> Option<Span> {
        if self.frames@.len() == 0 {
            None
        } else {
            self.frames@.last().fix_insertion_point
        }
    }

    pub fn new() -> (r: RegionStack)
        ensures
            r.frames@.len() == 0,
            r.wf(),
    {
        RegionStack { frames: Vec::new() }
    }

    /// Enters function `def`: its state becomes the current one.
    pub fn enter(&mut self, symbols: &SymbolTable, def: u64, span: Span)
        requires
            old(self).wf(),
        ensures
            final(self).wf(),
            final(self).frames@ == old(self).frames@.push(entered(*symbols, def, span)),
    {
        let st = enter_function(symbols, def, span);
        self.frames.push(st);
    }

    /// Leaves the innermost function: the enclosing one's state is current
    /// again. Outside any function nothing changes.
    pub fn exit(&mut self)
        requires
            old(self).wf(),
        ensures
            final(self).wf(),
            final(self).frames@ == if old(self).frames@.len() == 0 {
                old(self).frames@
            } else {
                old(self).frames@.drop_last()
            },
    {
        if self.frames.len() > 0 {
            self.frames.pop();
        }
    }

    /// The fix insertion point of the innermost scope, if it is normal.
    pub fn current(&self) -> (r: Option<Span>)
        ensures
            r == self.current_fix(),
    {
        let n = self.frames.len();
        if n == 0 {
            None
        } else {
            self.frames[n - 1].fix_insertion_point
        }
    }
}

} // verus!
