use vstd::prelude::*;
use crate::access::{
    access_in_expr, access_in_stmt, exposed_operand, inspect, root, rooted_in_restricted_static,
    AccessingInitFromNonInit,
};
use crate::call::{call_in_expr, callee_def, CallingInitFromNonInit};
use crate::diagnostic::{Violation, ViolationKind};
use crate::hir::{Expr, ExprKind, PassingMode, Span, StmtKind};
use crate::phase::{DeclKind, Phase, SymbolTable};
use crate::region::{entered, RegionStack};

verus! {

/// Whether the innermost scope of `regions` is a function of phase `p`.
pub open spec fn inside(regions: RegionStack, p: Phase) -> bool {
    regions.frames@.len() > 0 && regions.frames@.last().caller_phase == p
}

/// `e` under one field projection for each span of `spans`, the last outermost.
pub open spec fn project(e: Expr, spans: Seq<Span>) -> Expr
    decreases spans.len(),
{
    if spans.len() == 0 {
        e
    } else {
        Expr { kind: ExprKind::Field(Box::new(project(e, spans.drop_last()))), span: spans.last() }
    }
}

/// In a normal function, an expression that exposes the address of a
/// restricted static, through `&` or a receiver taken by reference, yields
/// exactly one violation, reported at that expression.
pub proof fn lemma_exposing_expr_reported(
    checker: AccessingInitFromNonInit,
    symbols: SymbolTable,
    e: Expr,
    operand: Expr,
)
    requires
        checker.wf(),
        inside(checker.regions, Phase::Normal),
        exposed_operand(e) == Some(operand),
        rooted_in_restricted_static(symbols, operand),
    ensures
        access_in_expr(checker.regions.current_fix(), symbols, e) == Some(Violation {
            kind: ViolationKind::AccessStatic,
            report_span: if e.span.from_expansion { operand.span } else { e.span },
            fix_span: checker.regions.frames@.last().fix_insertion_point.unwrap(),
        }),
{
    assert(checker.regions.frames@.last().wf());
}

/// In a normal function, a `ref` binding initialised from a restricted static
/// yields exactly one violation, reported at the initialiser.
pub proof fn lemma_ref_binding_reported(
    checker: AccessingInitFromNonInit,
    symbols: SymbolTable,
    init: Expr,
)
    requires
        checker.wf(),
        inside(checker.regions, Phase::Normal),
        rooted_in_restricted_static(symbols, init),
    ensures
        access_in_stmt(
            checker.regions.current_fix(),
            symbols,
            StmtKind::Let { by_ref: true, init: Some(init) },
        ) == Some(Violation {
            kind: ViolationKind::AccessStatic,
            report_span: init.span,
            fix_span: checker.regions.frames@.last().fix_insertion_point.unwrap(),
        }),
{
    assert(checker.regions.frames@.last().wf());
}

/// Inside a restricted function neither check reports anything, whatever is
/// accessed or called.
pub proof fn lemma_restricted_caller_silent(
    access: AccessingInitFromNonInit,
    calls: CallingInitFromNonInit,
    symbols: SymbolTable,
    e: Expr,
    s: StmtKind,
)
    requires
        access.wf(),
        calls.wf(),
        inside(access.regions, Phase::Restricted),
        inside(calls.regions, Phase::Restricted),
    ensures
        access_in_expr(access.regions.current_fix(), symbols, e).is_none(),
        access_in_stmt(access.regions.current_fix(), symbols, s).is_none(),
        call_in_expr(calls.regions.current_fix(), symbols, e).is_none(),
{
    assert(access.regions.frames@.last().wf());
    assert(calls.regions.frames@.last().wf());
}

/// A read that exposes no address (no `&`, no receiver taken by reference, no
/// `ref` binding) yields no access violation, whatever it reads.
pub proof fn lemma_by_value_read_silent(
    fix: Option<Span>,
    symbols: SymbolTable,
    e: Expr,
    s: StmtKind,
)
    requires
        exposed_operand(e).is_none(),
        !(s matches StmtKind::Let { by_ref: true, .. }),
    ensures
        access_in_expr(fix, symbols, e).is_none(),
        access_in_stmt(fix, symbols, s).is_none(),
{
}

/// In a normal function, a direct or method call that resolves to a
/// restricted function yields exactly one violation, at the call.
pub proof fn lemma_restricted_call_reported(
    checker: CallingInitFromNonInit,
    symbols: SymbolTable,
    e: Expr,
    d: u64,
)
    requires
        checker.wf(),
        inside(checker.regions, Phase::Normal),
        callee_def(e) == Some(d),
        symbols.phase(d, DeclKind::Function) == Phase::Restricted,
    ensures
        call_in_expr(checker.regions.current_fix(), symbols, e) == Some(Violation {
            kind: ViolationKind::CallFunction,
            report_span: e.span,
            fix_span: checker.regions.frames@.last().fix_insertion_point.unwrap(),
        }),
{
    assert(checker.regions.frames@.last().wf());
}

/// A method call that resolves to a restricted method, such as a restricted
/// default method of a trait, is reported in a normal function whatever the
/// receiver and however it is passed: what counts is the resolved method.
pub proof fn lemma_restricted_method_any_receiver(
    checker: CallingInitFromNonInit,
    symbols: SymbolTable,
    receiver: Expr,
    mode: PassingMode,
    d: u64,
    span: Span,
)
    requires
        checker.wf(),
        inside(checker.regions, Phase::Normal),
        symbols.phase(d, DeclKind::Function) == Phase::Restricted,
    ensures
        call_in_expr(
            checker.regions.current_fix(),
            symbols,
            Expr { kind: ExprKind::MethodCall { receiver: Box::new(receiver), target: Some(d), mode }, span },
        ) == Some(Violation {
            kind: ViolationKind::CallFunction,
            report_span: span,
            fix_span: checker.regions.frames@.last().fix_insertion_point.unwrap(),
        }),
{
    assert(checker.regions.frames@.last().wf());
}

proof fn lemma_root_of_projection(e: Expr, spans: Seq<Span>)
    ensures
        root(project(e, spans)) == root(e),
    decreases spans.len(),
{
    if spans.len() > 0 {
        lemma_root_of_projection(e, spans.drop_last());
    }
}

/// Field projections of any depth over an operand change nothing of whether
/// exposing its address is a violation; the report is the same as for the
/// operand itself unless the report span comes from an expansion, where it
/// falls back to the operand's own span.
pub proof fn lemma_projection_transparent(
    symbols: SymbolTable,
    e: Expr,
    spans: Seq<Span>,
    error_span: Span,
    fix: Span,
)
    ensures
        rooted_in_restricted_static(symbols, project(e, spans)) == rooted_in_restricted_static(symbols, e),
        inspect(symbols, project(e, spans), error_span, fix).is_some()
            == inspect(symbols, e, error_span, fix).is_some(),
        !error_span.from_expansion ==> inspect(symbols, project(e, spans), error_span, fix)
            == inspect(symbols, e, error_span, fix),
{
    lemma_root_of_projection(e, spans);
}

/// Entering a function makes its own state current, whatever encloses it;
/// leaving it makes the enclosing state current again, so a nested function
/// never changes what is checked in the function around it.
pub proof fn lemma_nested_scope_restores(
    regions: RegionStack,
    symbols: SymbolTable,
    def: u64,
    span: Span,
    inner: RegionStack,
    after: RegionStack,
)
    requires
        regions.wf(),
        inner.frames@ == regions.frames@.push(entered(symbols, def, span)),
        after.frames@ == inner.frames@.drop_last(),
    ensures
        inner.current_fix() == entered(symbols, def, span).fix_insertion_point,
        after.current_fix() == regions.current_fix(),
{
    assert(after.frames@ == regions.frames@);
}

} // verus!
