use vstd::prelude::*;
use crate::diagnostic::{Violation, ViolationKind};
use crate::hir::{Expr, ExprKind, Span};
use crate::phase::{DeclKind, Phase, SymbolTable};
use crate::region::RegionStack;

verus! {

/// The definition that call expression `e` resolves to: the path of a direct
/// call, or the method of a method call. Indirect callees resolve to nothing.
pub open spec fn callee_def(e: Expr) -> Option<u64> {
    match e.kind {
        ExprKind::Call(callee) => match callee.kind {
            ExprKind::Path(Some(d)) => Some(d),
            _ => None,
        },
        ExprKind::MethodCall { target, .. } => target,
        _ => None,
    }
}

/// The call violation of expression `e` while the fix point is `fix`.
pub open spec fn call_in_expr(fix: Option<Span>, symbols: SymbolTable, e: Expr) -> Option<Violation> {
    match (fix, callee_def(e)) {
        (Some(f), Some(d)) => if symbols.phase(d, DeclKind::Function) == Phase::Restricted {
            Some(Violation { kind: ViolationKind::CallFunction, report_span: e.span, fix_span: f })
        } else {
            None
        },
        _ => None,
    }
}

/// Finds normal functions that call restricted functions.
#[derive(Debug)]
pub struct CallingInitFromNonInit {
    pub regions: RegionStack,
}

impl Default for CallingInitFromNonInit {
    fn default() -> (r: Self)
        ensures
            r.regions.frames@.len() == 0,
            r.wf(),
    {
        CallingInitFromNonInit { regions: RegionStack::new() }
    }
}

impl CallingInitFromNonInit {
    pub open spec fn wf(&self) -> bool {
        self.regions.wf()
    }

    /// Enters function `def`, whose text spans `span`.
    pub fn check_fn(&mut self, symbols: &SymbolTable, def: u64, span: Span)
        requires
            old(self).wf(),
        ensures
            final(self).wf(),
            final(self).regions.frames@ == old(self).regions.frames@.push(
                crate::region::entered(*symbols, def, span),
            ),
    {
        self.regions.enter(symbols, def, span);
    }

    /// Leaves the innermost function.
    pub fn check_fn_post(&mut self)
        requires
            old(self).wf(),
        ensures
            final(self).wf(),
            final(self).regions.frames@ == if old(self).regions.frames@.len() == 0 {
                old(self).regions.frames@
            } else {
                old(self).regions.frames@.drop_last()
            },
    {
        self.regions.exit();
    }

    /// Checks an expression of the current function.
    pub fn check_expr(&self, symbols: &SymbolTable, expr: &Expr) -> (r: Option<Violation>)
        ensures
            r == call_in_expr(self.regions.current_fix(), *symbols, *expr),
    {
        let caller_span = match self.regions.current() {
            Some(s) => s,
            None => return None,
        };
        let def = match &expr.kind {
            ExprKind::Call(callee) => match &callee.kind {
                ExprKind::Path(Some(d)) => *d,
                _ => return None,
            },
            ExprKind::MethodCall { target, .. } => match target {
                Some(d) => *d,
                None => return None,
            },
            _ => return None,
        };
        match symbols.phase_of_def(def, DeclKind::Function) {
            Phase::Restricted => Some(Violation {
                kind: ViolationKind::CallFunction,
                report_span: expr.span,
                fix_span: caller_span,
            }),
            Phase::Normal => None,
        }
    }
}

} // verus!
