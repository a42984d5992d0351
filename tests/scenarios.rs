use init_lints::access::AccessingInitFromNonInit;
use init_lints::call::CallingInitFromNonInit;
use init_lints::diagnostic::{Violation, ViolationKind};
use init_lints::hir::{Expr, ExprKind, PassingMode, Span, StmtKind};
use init_lints::phase::{DeclKind, SymbolTable};

fn sp(lo: u32, hi: u32) -> Span {
    Span { lo, hi, from_expansion: false }
}

fn path(def: u64, lo: u32, hi: u32) -> Expr {
    Expr { kind: ExprKind::Path(Some(def)), span: sp(lo, hi) }
}

fn other(lo: u32, hi: u32) -> Expr {
    Expr { kind: ExprKind::Other, span: sp(lo, hi) }
}

fn method(receiver: Expr, target: u64, mode: PassingMode, lo: u32, hi: u32) -> Expr {
    Expr {
        kind: ExprKind::MethodCall { receiver: Box::new(receiver), target: Some(target), mode },
        span: sp(lo, hi),
    }
}

fn call(def: u64, lo: u32, hi: u32) -> Expr {
    Expr { kind: ExprKind::Call(Box::new(path(def, lo, lo + 3))), span: sp(lo, hi) }
}

fn access_count(checker: &AccessingInitFromNonInit, symbols: &SymbolTable, exprs: &[Expr]) -> Vec<Violation> {
    exprs.iter().filter_map(|e| checker.check_expr(symbols, e)).collect()
}

fn call_count(checker: &CallingInitFromNonInit, symbols: &SymbolTable, exprs: &[Expr]) -> Vec<Violation> {
    exprs.iter().filter_map(|e| checker.check_expr(symbols, e)).collect()
}

const FOO: u64 = 1;
const BAR: u64 = 2;
const OWO: u64 = 3;
const MAIN: u64 = 10;
const TRAILING_ZEROS: u64 = 20;

fn statics_table() -> SymbolTable {
    let mut t = SymbolTable::new();
    t.insert(FOO, DeclKind::Static, None);
    t.insert(BAR, DeclKind::Static, Some(".init.rodata".to_string()));
    t.insert(OWO, DeclKind::Static, Some(".init.data".to_string()));
    t.insert(MAIN, DeclKind::Function, None);
    t.insert(TRAILING_ZEROS, DeclKind::Function, None);
    t
}

/// The sub-expressions of `S + 10 * S.trailing_zeros()` as the host visits
/// them, with the receiver taken by reference.
fn sum_with_trailing_zeros(s: u64, lo: u32) -> Vec<Expr> {
    vec![
        other(lo, lo + 30),
        path(s, lo, lo + 3),
        other(lo + 6, lo + 30),
        other(lo + 6, lo + 8),
        method(path(s, lo + 11, lo + 14), TRAILING_ZEROS, PassingMode::ByReference, lo + 11, lo + 30),
        path(s, lo + 11, lo + 14),
    ]
}

#[test]
fn restricted_rodata_static_through_method_receiver() {
    let symbols = statics_table();
    let mut checker = AccessingInitFromNonInit::default();
    checker.check_fn(&symbols, MAIN, sp(100, 300));
    let bar = sum_with_trailing_zeros(BAR, 150);
    let found = access_count(&checker, &symbols, &bar);
    assert_eq!(
        found,
        vec![Violation {
            kind: ViolationKind::AccessStatic,
            report_span: sp(161, 180),
            fix_span: sp(100, 100),
        }]
    );
}

#[test]
fn normal_static_through_method_receiver() {
    let symbols = statics_table();
    let mut checker = AccessingInitFromNonInit::default();
    checker.check_fn(&symbols, MAIN, sp(100, 300));
    let foo = sum_with_trailing_zeros(FOO, 120);
    assert!(access_count(&checker, &symbols, &foo).is_empty());
}

#[test]
fn restricted_data_static_through_method_receiver() {
    let symbols = statics_table();
    let mut checker = AccessingInitFromNonInit::default();
    checker.check_fn(&symbols, MAIN, sp(100, 300));
    let owo = sum_with_trailing_zeros(OWO, 200);
    assert_eq!(access_count(&checker, &symbols, &owo).len(), 1);
}

const PLAIN_FOO: u64 = 1;
const INIT_FOO: u64 = 2;
const A_FOO: u64 = 3;
const A_INIT_FOO: u64 = 4;
const AEXT_FOO: u64 = 5;
const AEXT_INIT_FOO: u64 = 6;
const C_FOO: u64 = 7;
const C_INIT_FOO: u64 = 8;
const CALLER: u64 = 9;
const LOCAL: u64 = 11;

fn functions_table() -> SymbolTable {
    let mut t = SymbolTable::new();
    let text = || Some(".init.text".to_string());
    t.insert(PLAIN_FOO, DeclKind::Function, None);
    t.insert(INIT_FOO, DeclKind::Function, text());
    t.insert(A_FOO, DeclKind::Function, None);
    t.insert(A_INIT_FOO, DeclKind::Function, text());
    t.insert(AEXT_FOO, DeclKind::Function, None);
    t.insert(AEXT_INIT_FOO, DeclKind::Function, text());
    t.insert(C_FOO, DeclKind::Function, None);
    t.insert(C_INIT_FOO, DeclKind::Function, text());
    t.insert(CALLER, DeclKind::Function, None);
    t
}

#[test]
fn direct_calls_from_normal_main() {
    let symbols = functions_table();
    let mut checker = CallingInitFromNonInit::default();
    checker.check_fn(&symbols, CALLER, sp(500, 900));
    assert_eq!(checker.check_expr(&symbols, &call(PLAIN_FOO, 520, 525)), None);
    assert_eq!(
        checker.check_expr(&symbols, &call(INIT_FOO, 530, 540)),
        Some(Violation {
            kind: ViolationKind::CallFunction,
            report_span: sp(530, 540),
            fix_span: sp(500, 500),
        })
    );
}

#[test]
fn method_calls_on_inherent_default_and_overriding_impls() {
    let symbols = functions_table();
    let mut checker = CallingInitFromNonInit::default();
    checker.check_fn(&symbols, CALLER, sp(500, 900));
    let a = || path(LOCAL, 600, 601);
    let calls = vec![
        method(a(), A_FOO, PassingMode::ByReference, 600, 607),
        method(a(), A_INIT_FOO, PassingMode::ByReference, 610, 622),
        // `B` inherits both default methods of the trait.
        method(a(), AEXT_FOO, PassingMode::ByReference, 630, 637),
        method(a(), AEXT_INIT_FOO, PassingMode::ByReference, 640, 652),
        // `C` overrides both with its own.
        method(a(), C_FOO, PassingMode::ByReference, 660, 667),
        method(a(), C_INIT_FOO, PassingMode::ByReference, 670, 682),
    ];
    let found: Vec<u32> = call_count(&checker, &symbols, &calls).iter().map(|v| v.report_span.lo).collect();
    assert_eq!(found, vec![610, 640, 670]);
}

#[test]
fn ref_binding_of_restricted_static() {
    let symbols = statics_table();
    let mut checker = AccessingInitFromNonInit::default();
    checker.check_fn(&symbols, MAIN, sp(100, 300));
    let stmt = StmtKind::Let { by_ref: true, init: Some(path(BAR, 120, 123)) };
    assert_eq!(
        checker.check_stmt(&symbols, &stmt),
        Some(Violation {
            kind: ViolationKind::AccessStatic,
            report_span: sp(120, 123),
            fix_span: sp(100, 100),
        })
    );
    let by_value = StmtKind::Let { by_ref: false, init: Some(path(BAR, 120, 123)) };
    assert_eq!(checker.check_stmt(&symbols, &by_value), None);
}
