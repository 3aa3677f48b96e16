//! Classification of a canonical function as a stateless component, a
//! stateful component, or neither.

use vstd::prelude::*;
use crate::ast::{Expr, Stmt, ArrowBody, ArrowExpr, Function};
use crate::marker::{contains_marker_call, has_vnode_call};

verus! {

/// What a function-shaped declaration turns out to be.
#[derive(Clone, Copy, PartialEq, Eq, Structural, Debug)]
pub enum Classification {
    Stateless,
    Stateful,
    NotAComponent,
}

/// Whether some statement of `stmts` holds, at any depth of control flow, a
/// `return` whose argument holds a marker call.
pub open spec fn block_returns_marker(stmts: Seq<Stmt>) -> bool
    decreases stmts,
{
    exists|i: int| 0 <= i < stmts.len() && stmt_returns_marker(#[trigger] stmts[i])
}

/// Whether `s` is, or holds under control flow, a `return` whose argument
/// holds a marker call.
pub open spec fn stmt_returns_marker(s: Stmt) -> bool
    decreases s,
{
    match s {
        Stmt::Return(Some(arg)) => contains_marker_call(arg),
        Stmt::If { test, cons, alt } => stmt_returns_marker(*cons) || match alt {
            Some(other) => stmt_returns_marker(*other),
            None => false,
        },
        Stmt::Block(stmts) => block_returns_marker(stmts@),
        Stmt::Switch { discriminant, cases } => exists|i: int|
            0 <= i < cases@.len() && block_returns_marker((#[trigger] cases@[i]).cons@),
        Stmt::Try { block, handler, finalizer } => block_returns_marker(block@) || (
        handler matches Some(h) && block_returns_marker(h@)) || (finalizer matches Some(f)
            && block_returns_marker(f@)),
        Stmt::Loop { kind, head, body } => stmt_returns_marker(*body),
        Stmt::Labeled { label, body } => stmt_returns_marker(*body),
        _ => false,
    }
}

/// Whether a returned `arg` is something other than an arrow function and
/// holds a marker call.
pub open spec fn stateless_arg(arg: Expr) -> bool {
    !(arg is Arrow) && contains_marker_call(arg)
}

/// Whether a returned `arg` is an arrow function whose body yields a marker
/// call: an expression body that holds one, or a block body with a
/// qualifying `return` at any depth.
pub open spec fn stateful_arg(arg: Expr) -> bool {
    match arg {
        Expr::Arrow(arrow) => match arrow.body {
            ArrowBody::Expr(body) => contains_marker_call(*body),
            ArrowBody::Block(stmts) => block_returns_marker(stmts@),
        },
        _ => false,
    }
}

/// Whether `s` is a `return` of a `stateless_arg`.
pub open spec fn stateless_return(s: Stmt) -> bool {
    s matches Stmt::Return(Some(arg)) && stateless_arg(arg)
}

/// Whether `s` is a `return` of a `stateful_arg`.
pub open spec fn stateful_return(s: Stmt) -> bool {
    s matches Stmt::Return(Some(arg)) && stateful_arg(arg)
}

/// The stateless shape of a body: one of its top-level statements returns a
/// `stateless_arg`.
pub open spec fn body_is_stateless(stmts: Seq<Stmt>) -> bool {
    exists|i: int| 0 <= i < stmts.len() && stateless_return(#[trigger] stmts[i])
}

/// The stateful shape of a body: one of its top-level statements returns a
/// `stateful_arg`.
pub open spec fn body_is_stateful(stmts: Seq<Stmt>) -> bool {
    exists|i: int| 0 <= i < stmts.len() && stateful_return(#[trigger] stmts[i])
}

/// The classification of a body: the stateful shape is tried first.
pub open spec fn body_classification(stmts: Seq<Stmt>) -> Classification {
    if body_is_stateful(stmts) {
        Classification::Stateful
    } else if body_is_stateless(stmts) {
        Classification::Stateless
    } else {
        Classification::NotAComponent
    }
}

/// The stateless shape of a function: that of its body, where it has one.
pub open spec fn is_stateless(f: Function) -> bool {
    f.body matches Some(stmts) && body_is_stateless(stmts@)
}

/// The stateful shape of a function: that of its body, where it has one.
pub open spec fn is_stateful(f: Function) -> bool {
    f.body matches Some(stmts) && body_is_stateful(stmts@)
}

/// The classification of `f`; a function without a body is no component.
pub open spec fn classification_of(f: Function) -> Classification {
    match f.body {
        Some(stmts) => body_classification(stmts@),
        None => Classification::NotAComponent,
    }
}

/// The statements that an arrow function's body stands for: a block as it
/// is, an expression as the single statement that returns it.
pub open spec fn canonical_body(a: ArrowExpr) -> Seq<Stmt> {
    match a.body {
        ArrowBody::Block(stmts) => stmts@,
        ArrowBody::Expr(e) => seq![Stmt::Return(Some(*e))],
    }
}

/// The classification of an arrow function: that of its canonical body.
pub open spec fn arrow_classification(a: ArrowExpr) -> Classification {
    body_classification(canonical_body(a))
}

/// Decides `stateful_arg`.
pub fn returns_stateful(arg: &Expr) -> (r: bool)
    ensures
        r == stateful_arg(*arg),
{
    match arg {
        Expr::Arrow(arrow) => match &arrow.body {
            ArrowBody::Expr(body) => has_vnode_call(body),
            ArrowBody::Block(inner) => block_has_vnode_return(inner),
        },
        _ => false,
    }
}

/// Decides `stateless_arg`.
pub fn returns_stateless(arg: &Expr) -> (r: bool)
    ensures
        r == stateless_arg(*arg),
{
    match arg {
        Expr::Arrow(_) => false,
        _ => has_vnode_call(arg),
    }
}

/// Decides `body_is_stateless`.
pub fn body_stateless(stmts: &Vec<Stmt>) -> (r: bool)
    ensures
        r == body_is_stateless(stmts@),
{
    let mut i: usize = 0;
    while i < stmts.len()
        invariant
            i <= stmts.len(),
            forall|j: int| 0 <= j < i ==> !stateless_return(#[trigger] stmts@[j]),
        decreases stmts.len() - i,
    {
        if let Stmt::Return(Some(arg)) = &stmts[i] {
            if returns_stateless(arg) {
                assert(stateless_return(stmts@[i as int]));
                return true;
            }
        }
        i += 1;
    }
    false
}

/// Decides `body_is_stateful`.
pub fn body_stateful(stmts: &Vec<Stmt>) -> (r: bool)
    ensures
        r == body_is_stateful(stmts@),
{
    let mut i: usize = 0;
    while i < stmts.len()
        invariant
            i <= stmts.len(),
            forall|j: int| 0 <= j < i ==> !stateful_return(#[trigger] stmts@[j]),
        decreases stmts.len() - i,
    {
        if let Stmt::Return(Some(arg)) = &stmts[i] {
            if returns_stateful(arg) {
                assert(stateful_return(stmts@[i as int]));
                return true;
            }
        }
        i += 1;
    }
    false
}

/// Decides `block_returns_marker`.
#[verifier::loop_isolation(false)]
pub fn block_has_vnode_return(stmts: &Vec<Stmt>) -> (r: bool)
    ensures
        r == block_returns_marker(stmts@),
    decreases *stmts,
{
    let mut i: usize = 0;
    while i < stmts.len()
        invariant
            i <= stmts.len(),
            forall|j: int| 0 <= j < i ==> !stmt_returns_marker(#[trigger] stmts@[j]),
        decreases stmts.len() - i,
    {
        if stmt_has_vnode_return(&stmts[i]) {
            return true;
        }
        i += 1;
    }
    false
}

/// Decides `stmt_returns_marker`.
#[verifier::loop_isolation(false)]
pub fn stmt_has_vnode_return(stmt: &Stmt) -> (r: bool)
    ensures
        r == stmt_returns_marker(*stmt),
    decreases *stmt,
{
    match stmt {
        Stmt::Return(Some(arg)) => has_vnode_call(arg),
        Stmt::If { test, cons, alt } => {
            if stmt_has_vnode_return(cons) {
                return true;
            }
            match alt {
                Some(other) => stmt_has_vnode_return(other),
                None => false,
            }
        },
        Stmt::Block(stmts) => block_has_vnode_return(stmts),
        Stmt::Switch { discriminant, cases } => {
            let mut i: usize = 0;
            while i < cases.len()
                invariant
                    i <= cases.len(),
                    forall|j: int|
                        0 <= j < i ==> !block_returns_marker((#[trigger] cases@[j]).cons@),
                decreases cases.len() - i,
            {
                if block_has_vnode_return(&cases[i].cons) {
                    return true;
                }
                i += 1;
            }
            false
        },
        Stmt::Try { block, handler, finalizer } => {
            if block_has_vnode_return(block) {
                return true;
            }
            if let Some(h) = handler {
                if block_has_vnode_return(h) {
                    return true;
                }
            }
            match finalizer {
                Some(f) => block_has_vnode_return(f),
                None => false,
            }
        },
        Stmt::Loop { kind, head, body } => stmt_has_vnode_return(body),
        Stmt::Labeled { label, body } => stmt_has_vnode_return(body),
        _ => false,
    }
}

/// Decides `is_stateless`.
pub fn is_stateless_component(func: &Function) -> (r: bool)
    ensures
        r == is_stateless(*func),
{
    match &func.body {
        Some(stmts) => body_stateless(stmts),
        None => false,
    }
}

/// Decides `is_stateful`.
pub fn is_rask_component(func: &Function) -> (r: bool)
    ensures
        r == is_stateful(*func),
{
    match &func.body {
        Some(stmts) => body_stateful(stmts),
        None => false,
    }
}

/// Classifies `func`, trying the stateful shape before the stateless one.
pub fn classify(func: &Function) -> (r: Classification)
    ensures
        r == classification_of(*func),
{
    if is_rask_component(func) {
        Classification::Stateful
    } else if is_stateless_component(func) {
        Classification::Stateless
    } else {
        Classification::NotAComponent
    }
}

/// Classifies an arrow function without converting it.
pub fn classify_arrow(arrow: &ArrowExpr) -> (r: Classification)
    ensures
        r == arrow_classification(*arrow),
{
    match &arrow.body {
        ArrowBody::Block(stmts) => {
            if body_stateful(stmts) {
                Classification::Stateful
            } else if body_stateless(stmts) {
                Classification::Stateless
            } else {
                Classification::NotAComponent
            }
        },
        ArrowBody::Expr(e) => {
            let ghost body = canonical_body(*arrow);
            assert(body.len() == 1 && body[0] == Stmt::Return(Some(**e)));
            if returns_stateful(e) {
                assert(stateful_return(body[0]));
                Classification::Stateful
            } else if returns_stateless(e) {
                assert(stateless_return(body[0]));
                Classification::Stateless
            } else {
                Classification::NotAComponent
            }
        },
    }
}

} // verus!
