//! Detection of marker calls inside an expression.

use vstd::prelude::*;
use crate::ast::{Expr, Stmt, ArrowBody};
use crate::text::same_text;

verus! {

pub const CREATE_VNODE: &'static str = "createVNode";
pub const CREATE_COMPONENT_VNODE: &'static str = "createComponentVNode";
pub const CREATE_FRAGMENT: &'static str = "createFragment";
pub const CREATE_TEXT_VNODE: &'static str = "createTextVNode";

/// Whether `name` is one of the four marker function names.
pub open spec fn is_marker_name(name: Seq<char>) -> bool {
    ||| name == "createVNode"@
    ||| name == "createComponentVNode"@
    ||| name == "createFragment"@
    ||| name == "createTextVNode"@
}

/// Whether `callee` names a marker function directly.
pub open spec fn is_marker_callee(callee: Expr) -> bool {
    callee matches Expr::Ident(id) && is_marker_name(id.sym@)
}

/// Whether a marker call is reachable from `e` through the positions that
/// can yield a rendered value.
pub open spec fn contains_marker_call(e: Expr) -> bool
    decreases e,
{
    match e {
        Expr::Call { callee, args } => is_marker_callee(*callee) || exists|i: int|
            0 <= i < args@.len() && contains_marker_call(#[trigger] args@[i]),
        Expr::Paren(inner) => contains_marker_call(*inner),
        Expr::Cond { test, cons, alt } => contains_marker_call(*cons) || contains_marker_call(
            *alt,
        ),
        Expr::Bin { op, left, right } => contains_marker_call(*left) || contains_marker_call(
            *right,
        ),
        Expr::Array(elems) => exists|i: int|
            0 <= i < elems@.len() && (#[trigger] elems@[i]) is Some && contains_marker_call(
                elems@[i]->0,
            ),
        Expr::Arrow(arrow) => match arrow.body {
            ArrowBody::Expr(body) => contains_marker_call(*body),
            ArrowBody::Block(stmts) => exists|i: int|
                0 <= i < stmts@.len() && returns_marker(#[trigger] stmts@[i]),
        },
        Expr::Member { obj, prop } => contains_marker_call(*obj),
        Expr::Unary { op, arg } => contains_marker_call(*arg),
        _ => false,
    }
}

/// Whether `s` is itself a `return` whose argument holds a marker call.
pub open spec fn returns_marker(s: Stmt) -> bool
    decreases s,
{
    match s {
        Stmt::Return(Some(arg)) => contains_marker_call(arg),
        _ => false,
    }
}

/// Decides `is_marker_name`.
pub fn marker_name(name: &str) -> (r: bool)
    ensures
        r == is_marker_name(name@),
{
    same_text(name, CREATE_VNODE) || same_text(name, CREATE_COMPONENT_VNODE) || same_text(
        name,
        CREATE_FRAGMENT,
    ) || same_text(name, CREATE_TEXT_VNODE)
}

/// Decides `contains_marker_call`.
#[verifier::loop_isolation(false)]
pub fn has_vnode_call(expr: &Expr) -> (r: bool)
    ensures
        r == contains_marker_call(*expr),
    decreases *expr,
{
    match expr {
        Expr::Call { callee, args } => {
            if let Expr::Ident(id) = &**callee {
                if marker_name(id.sym.as_str()) {
                    return true;
                }
            }
            let mut i: usize = 0;
            while i < args.len()
                invariant
                    i <= args.len(),
                    forall|j: int| 0 <= j < i ==> !contains_marker_call(#[trigger] args@[j]),
                decreases args.len() - i,
            {
                if has_vnode_call(&args[i]) {
                    return true;
                }
                i += 1;
            }
            false
        },
        Expr::Paren(inner) => has_vnode_call(inner),
        Expr::Cond { test, cons, alt } => has_vnode_call(cons) || has_vnode_call(alt),
        Expr::Bin { op, left, right } => has_vnode_call(left) || has_vnode_call(right),
        Expr::Array(elems) => {
            let mut i: usize = 0;
            while i < elems.len()
                invariant
                    i <= elems.len(),
                    forall|j: int|
                        0 <= j < i ==> !((#[trigger] elems@[j]) is Some && contains_marker_call(
                            elems@[j]->0,
                        )),
                decreases elems.len() - i,
            {
                if let Some(e) = &elems[i] {
                    if has_vnode_call(e) {
                        return true;
                    }
                }
                i += 1;
            }
            false
        },
        Expr::Arrow(arrow) => match &arrow.body {
            ArrowBody::Expr(body) => has_vnode_call(body),
            ArrowBody::Block(stmts) => {
                let mut i: usize = 0;
                while i < stmts.len()
                    invariant
                        i <= stmts.len(),
                        forall|j: int| 0 <= j < i ==> !returns_marker(#[trigger] stmts@[j]),
                    decreases stmts.len() - i,
                {
                    if let Stmt::Return(Some(arg)) = &stmts[i] {
                        if has_vnode_call(arg) {
                            assert(returns_marker(stmts@[i as int]));
                            return true;
                        }
                    }
                    i += 1;
                }
                false
            },
        },
        Expr::Member { obj, prop } => has_vnode_call(obj),
        Expr::Unary { op, arg } => has_vnode_call(arg),
        _ => false,
    }
}

} // verus!
