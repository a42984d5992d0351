use vstd::prelude::*;
use crate::diagnostic::{Violation, ViolationKind};
use crate::hir::{Expr, ExprKind, PassingMode, Span, StmtKind};
use crate::phase::{DeclKind, Phase, SymbolTable};
use crate::region::RegionStack;

verus! {

/// The expression left when all field projections are taken off `e`.
pub open spec fn root(e: Expr) -> Expr
    decreases e,
{
    match e.kind {
        ExprKind::Field(base) => root(*base),
        _ => e,
    }
}

/// Whether `e` is, under its field projections, a path to a restricted static.
pub open spec fn rooted_in_restricted_static(symbols: SymbolTable, e: Expr) -> bool {
    match root(e).kind {
        ExprKind::Path(Some(d)) => symbols.phase(d, DeclKind::Static) == Phase::Restricted,
        _ => false,
    }
}

/// The violation, if any, of exposing the address of `e` at `error_span` in a
/// normal function whose fix goes at `fix`.
pub open spec fn inspect(symbols: SymbolTable, e: Expr, error_span: Span, fix: Span) -> Option<Violation> {
    if rooted_in_restricted_static(symbols, e) {
        Some(Violation {
            kind: ViolationKind::AccessStatic,
            report_span: if error_span.from_expansion { e.span } else { error_span },
            fix_span: fix,
        })
    } else {
        None
    }
}

/// The operand whose address expression `e` exposes: that of `&` and the
/// receiver of a method that takes it by reference.
pub open spec fn exposed_operand(e: Expr) -> Option<Expr> {
    match e.kind {
        ExprKind::AddrOf(inner) => Some(*inner),
        ExprKind::MethodCall { receiver, mode: PassingMode::ByReference, .. } => Some(*receiver),
        _ => None,
    }
}

/// The access violation of expression `e` while the fix point is `fix`.
pub open spec fn access_in_expr(fix: Option<Span>, symbols: SymbolTable, e: Expr) -> Option<Violation> {
    match (fix, exposed_operand(e)) {
        (Some(f), Some(operand)) => inspect(symbols, operand, e.span, f),
        _ => None,
    }
}

/// The access violation of statement `s` while the fix point is `fix`.
pub open spec fn access_in_stmt(fix: Option<Span>, symbols: SymbolTable, s: StmtKind) -> Option<Violation> {
    match fix {
        None => None,
        Some(f) => match s {
            StmtKind::Let { by_ref: true, init: Some(init) } => inspect(symbols, init, init.span, f),
            _ => None,
        },
    }
}

fn root_of(e: &Expr) -> (r: &Expr)
    ensures
        *r == root(*e),
    decreases e,
{
    match &e.kind {
        ExprKind::Field(base) => root_of(base),
        _ => e,
    }
}

/// Finds normal functions that take the address of a restricted static.
#[derive(Debug)]
pub struct AccessingInitFromNonInit {
    pub regions: RegionStack,
}

impl Default for AccessingInitFromNonInit {
    fn default() -> (r: Self)
        ensures
            r.regions.frames@.len() == 0,
            r.wf(),
    {
        AccessingInitFromNonInit { regions: RegionStack::new() }
    }
}

impl AccessingInitFromNonInit {
    pub open spec fn wf(&self) -> bool {
        self.regions.wf()
    }

    /// Enters function `def`, whose text spans `span`.
    pub fn check_fn(&mut self, symbols: &SymbolTable, def: u64, span: Span)
        requires
            old(self).wf(),
        ensures
            final(self).wf(),
            final(self).regions.frames@ == old(self).regions.frames@.push(
                crate::region::entered(*symbols, def, span),
            ),
    {
        self.regions.enter(symbols, def, span);
    }

    /// Leaves the innermost function.
    pub fn check_fn_post(&mut self)
        requires
            old(self).wf(),
        ensures
            final(self).wf(),
            final(self).regions.frames@ == if old(self).regions.frames@.len() == 0 {
                old(self).regions.frames@
            } else {
                old(self).regions.frames@.drop_last()
            },
    {
        self.regions.exit();
    }

    /// Checks an expression of the current function.
    pub fn check_expr(&self, symbols: &SymbolTable, expr: &Expr) -> (r: Option<Violation>)
        ensures
            r == access_in_expr(self.regions.current_fix(), *symbols, *expr),
    {
        let caller_span = match self.regions.current() {
            Some(s) => s,
            None => return None,
        };
        match &expr.kind {
            ExprKind::AddrOf(inner) => self.check_init_static(symbols, inner, expr.span, caller_span),
            ExprKind::MethodCall { receiver, mode, .. } => match mode {
                PassingMode::ByReference => self.check_init_static(symbols, receiver, expr.span, caller_span),
                PassingMode::ByValue => None,
            },
            _ => None,
        }
    }

    /// Checks a statement of the current function.
    pub fn check_stmt(&self, symbols: &SymbolTable, stmt: &StmtKind) -> (r: Option<Violation>)
        ensures
            r == access_in_stmt(self.regions.current_fix(), *symbols, *stmt),
    {
        let caller_span = match self.regions.current() {
            Some(s) => s,
            None => return None,
        };
        match stmt {
            StmtKind::Let { by_ref, init: Some(init) } => {
                if *by_ref {
                    self.check_init_static(symbols, init, init.span, caller_span)
                } else {
                    None
                }
            },
            _ => None,
        }
    }

    /// The violation of exposing the address of `expr` at `error_span`, with
    /// the fix at `caller_span`.
    pub fn check_init_static(&self, symbols: &SymbolTable, expr: &Expr, error_span: Span, caller_span: Span) -> (r: Option<Violation>)
        ensures
            r == inspect(*symbols, *expr, error_span, caller_span),
    {
        let report_span = if error_span.from_expansion { expr.span } else { error_span };
        let base = root_of(expr);
        match &base.kind {
            ExprKind::Path(Some(d)) => match symbols.phase_of_def(*d, DeclKind::Static) {
                Phase::Restricted => Some(Violation {
                    kind: ViolationKind::AccessStatic,
                    report_span,
                    fix_span: caller_span,
                }),
                Phase::Normal => None,
            },
            _ => None,
        }
    }
}

} // verus!
