//! The walk does not change what a function classifies as: it keeps every
//! marker call and every `return` where the classifier looks for them.

use vstd::prelude::*;
use crate::ast::{ArrowBody, Expr, Function, Ident, Stmt};
use crate::marker::{contains_marker_call, is_marker_callee, returns_marker};
use crate::classify::{Classification, classification_of, body_classification, body_is_stateful, body_is_stateless, block_returns_marker, stmt_returns_marker, stateful_arg, stateless_arg, stateful_return, stateless_return};
use crate::walk::{expr_walked, opt_expr_walked, exprs_walked, arrow_walked, stmt_walked, stmts_walked, case_walked, opt_stmts_walked, function_walked};

verus! {

/// A walked statement is a `return` of a marker call exactly if it was one
/// before.
pub proof fn lemma_walk_keeps_direct_return(a: Stmt, b: Stmt)
    requires
        stmt_walked(a, b),
    ensures
        returns_marker(a) == returns_marker(b),
        a is Return == b is Return,
        (a matches Stmt::Return(x) && x is Some) == (b matches Stmt::Return(y) && y is Some),
    decreases a,
{
    match a {
        Stmt::Return(Some(arg)) => {
            assert(opt_expr_walked(Some(arg), b->Return_0));
            lemma_walk_keeps_marker_calls(arg, b->Return_0->0);
        },
        Stmt::Return(None) => {
            assert(opt_expr_walked(None, b->Return_0));
        },
        _ => {},
    }
}

/// A walked expression holds a marker call exactly if it held one before.
pub proof fn lemma_walk_keeps_marker_calls(a: Expr, b: Expr)
    requires
        expr_walked(a, b),
    ensures
        contains_marker_call(a) == contains_marker_call(b),
    decreases a,
{
    match a {
        Expr::Call { callee, args } => {
            let c2 = b->callee;
            let a2 = b->args;
            assert(expr_walked(*callee, *c2));
            assert(exprs_walked(args@, a2@));
            assert(is_marker_callee(*callee) == is_marker_callee(*c2));
            assert forall|i: int| 0 <= i < args@.len() implies contains_marker_call(
                #[trigger] args@[i],
            ) == contains_marker_call(a2@[i]) by {
                lemma_walk_keeps_marker_calls(args@[i], a2@[i]);
            }
            if contains_marker_call(a) && !is_marker_callee(*callee) {
                let i = choose|i: int|
                    0 <= i < args@.len() && contains_marker_call(#[trigger] args@[i]);
                assert(contains_marker_call(a2@[i]));
            }
            if contains_marker_call(b) && !is_marker_callee(*c2) {
                let i = choose|i: int|
                    0 <= i < a2@.len() && contains_marker_call(#[trigger] a2@[i]);
                assert(contains_marker_call(args@[i]));
            }
        },
        Expr::Paren(e) => {
            lemma_walk_keeps_marker_calls(*e, *b->Paren_0);
        },
        Expr::Cond { test, cons, alt } => {
            lemma_walk_keeps_marker_calls(*cons, *b->cons);
            lemma_walk_keeps_marker_calls(*alt, *b->alt);
        },
        Expr::Bin { op, left, right } => {
            lemma_walk_keeps_marker_calls(*left, *b->left);
            lemma_walk_keeps_marker_calls(*right, *b->right);
        },
        Expr::Array(elems) => {
            let e2 = b->Array_0;
            assert forall|i: int| 0 <= i < elems@.len() implies ((#[trigger] elems@[i]) is Some
                && contains_marker_call(elems@[i]->0)) == (e2@[i] is Some && contains_marker_call(
                e2@[i]->0,
            )) by {
                assert(opt_expr_walked(elems@[i], e2@[i]));
                if elems@[i] is Some {
                    lemma_walk_keeps_marker_calls(elems@[i]->0, e2@[i]->0);
                }
            }
            if contains_marker_call(a) {
                let i = choose|i: int|
                    0 <= i < elems@.len() && (#[trigger] elems@[i]) is Some
                        && contains_marker_call(elems@[i]->0);
                assert(e2@[i] is Some && contains_marker_call(e2@[i]->0));
            }
            if contains_marker_call(b) {
                let i = choose|i: int|
                    0 <= i < e2@.len() && (#[trigger] e2@[i]) is Some && contains_marker_call(
                        e2@[i]->0,
                    );
                assert(elems@[i] is Some && contains_marker_call(elems@[i]->0));
            }
        },
        Expr::Arrow(arrow) => {
            let a2 = b->Arrow_0;
            assert(arrow_walked(*arrow, *a2));
            match arrow.body {
                ArrowBody::Expr(e) => {
                    lemma_walk_keeps_marker_calls(*e, *a2.body->Expr_0);
                },
                ArrowBody::Block(s) => {
                    let s2 = a2.body->Block_0;
                    assert(stmts_walked(s@, s2@));
                    assert forall|i: int| 0 <= i < s@.len() implies returns_marker(
                        #[trigger] s@[i],
                    ) == returns_marker(s2@[i]) by {
                        lemma_walk_keeps_direct_return(s@[i], s2@[i]);
                    }
                    if contains_marker_call(a) {
                        let i = choose|i: int|
                            0 <= i < s@.len() && returns_marker(#[trigger] s@[i]);
                        assert(returns_marker(s2@[i]));
                    }
                    if contains_marker_call(b) {
                        let i = choose|i: int|
                            0 <= i < s2@.len() && returns_marker(#[trigger] s2@[i]);
                        assert(returns_marker(s@[i]));
                    }
                },
            }
        },
        Expr::Member { obj, prop } => {
            lemma_walk_keeps_marker_calls(*obj, *b->obj);
        },
        Expr::Unary { op, arg } => {
            lemma_walk_keeps_marker_calls(*arg, *b->arg);
        },
        _ => {},
    }
}

/// A walked block holds a marker `return` at some depth exactly if it held
/// one before.
pub proof fn lemma_walk_keeps_block_returns(a: Seq<Stmt>, b: Seq<Stmt>)
    requires
        stmts_walked(a, b),
    ensures
        block_returns_marker(a) == block_returns_marker(b),
    decreases a,
{
    assert forall|i: int| 0 <= i < a.len() implies stmt_returns_marker(#[trigger] a[i])
        == stmt_returns_marker(b[i]) by {
        lemma_walk_keeps_nested_returns(a[i], b[i]);
    }
    if block_returns_marker(a) {
        let i = choose|i: int| 0 <= i < a.len() && stmt_returns_marker(#[trigger] a[i]);
        assert(stmt_returns_marker(b[i]));
    }
    if block_returns_marker(b) {
        let i = choose|i: int| 0 <= i < b.len() && stmt_returns_marker(#[trigger] b[i]);
        assert(stmt_returns_marker(a[i]));
    }
}

/// A walked statement holds a marker `return` at some depth exactly if it
/// held one before.
pub proof fn lemma_walk_keeps_nested_returns(a: Stmt, b: Stmt)
    requires
        stmt_walked(a, b),
    ensures
        stmt_returns_marker(a) == stmt_returns_marker(b),
    decreases a,
{
    match a {
        Stmt::Return(Some(arg)) => {
            assert(opt_expr_walked(Some(arg), b->Return_0));
            lemma_walk_keeps_marker_calls(arg, b->Return_0->0);
        },
        Stmt::Return(None) => {
            assert(opt_expr_walked(None, b->Return_0));
        },
        Stmt::If { test, cons, alt } => {
            lemma_walk_keeps_nested_returns(*cons, *b->cons);
            if alt is Some {
                lemma_walk_keeps_nested_returns(*alt->0, *b->alt->0);
            }
        },
        Stmt::Block(s) => {
            assert(stmts_walked(s@, b->Block_0@));
            lemma_walk_keeps_block_returns(s@, b->Block_0@);
        },
        Stmt::Switch { discriminant, cases } => {
            let c2 = b->cases;
            assert forall|i: int| 0 <= i < cases@.len() implies block_returns_marker(
                (#[trigger] cases@[i]).cons@,
            ) == block_returns_marker(c2@[i].cons@) by {
                assert(case_walked(cases@[i], c2@[i]));
                assert(stmts_walked(cases@[i].cons@, c2@[i].cons@));
                lemma_walk_keeps_block_returns(cases@[i].cons@, c2@[i].cons@);
            }
            if stmt_returns_marker(a) {
                let i = choose|i: int|
                    0 <= i < cases@.len() && block_returns_marker((#[trigger] cases@[i]).cons@);
                assert(block_returns_marker(c2@[i].cons@));
            }
            if stmt_returns_marker(b) {
                let i = choose|i: int|
                    0 <= i < c2@.len() && block_returns_marker((#[trigger] c2@[i]).cons@);
                assert(block_returns_marker(cases@[i].cons@));
            }
        },
        Stmt::Try { block, handler, finalizer } => {
            assert(stmts_walked(block@, b->block@));
            lemma_walk_keeps_block_returns(block@, b->block@);
            assert(opt_stmts_walked(handler, b->handler));
            assert(opt_stmts_walked(finalizer, b->finalizer));
            if handler is Some {
                lemma_walk_keeps_block_returns(handler->0@, b->handler->0@);
            }
            if finalizer is Some {
                lemma_walk_keeps_block_returns(finalizer->0@, b->finalizer->0@);
            }
        },
        Stmt::Loop { kind, head, body } => {
            lemma_walk_keeps_nested_returns(*body, *b->Loop_body);
        },
        Stmt::Labeled { label, body } => {
            lemma_walk_keeps_nested_returns(*body, *b->Labeled_body);
        },
        _ => {},
    }
}

/// A walked returned value has the stateful shape, or the stateless shape,
/// exactly if it had it before.
pub proof fn lemma_walk_keeps_shapes(a: Expr, b: Expr)
    requires
        expr_walked(a, b),
    ensures
        stateful_arg(a) == stateful_arg(b),
        stateless_arg(a) == stateless_arg(b),
{
    lemma_walk_keeps_marker_calls(a, b);
    match a {
        Expr::Arrow(arrow) => {
            let a2 = b->Arrow_0;
            assert(arrow_walked(*arrow, *a2));
            match arrow.body {
                ArrowBody::Expr(e) => {
                    lemma_walk_keeps_marker_calls(*e, *a2.body->Expr_0);
                },
                ArrowBody::Block(s) => {
                    lemma_walk_keeps_block_returns(s@, a2.body->Block_0@);
                },
            }
        },
        _ => {},
    }
}

/// A walked body classifies as it did before.
pub proof fn lemma_walk_keeps_body_classification(a: Seq<Stmt>, b: Seq<Stmt>)
    requires
        stmts_walked(a, b),
    ensures
        body_classification(a) == body_classification(b),
{
    assert forall|i: int| 0 <= i < a.len() implies stateful_return(#[trigger] a[i])
        == stateful_return(b[i]) && stateless_return(a[i]) == stateless_return(b[i]) by {
        lemma_walk_keeps_direct_return(a[i], b[i]);
        if a[i] is Return && a[i]->Return_0 is Some {
            assert(opt_expr_walked(a[i]->Return_0, b[i]->Return_0));
            lemma_walk_keeps_shapes(a[i]->Return_0->0, b[i]->Return_0->0);
        }
    }
    if body_is_stateful(a) {
        let i = choose|i: int| 0 <= i < a.len() && stateful_return(#[trigger] a[i]);
        assert(stateful_return(b[i]));
    }
    if body_is_stateful(b) {
        let i = choose|i: int| 0 <= i < b.len() && stateful_return(#[trigger] b[i]);
        assert(stateful_return(a[i]));
    }
    if body_is_stateless(a) {
        let i = choose|i: int| 0 <= i < a.len() && stateless_return(#[trigger] a[i]);
        assert(stateless_return(b[i]));
    }
    if body_is_stateless(b) {
        let i = choose|i: int| 0 <= i < b.len() && stateless_return(#[trigger] b[i]);
        assert(stateless_return(a[i]));
    }
}

/// A function that the walk went through classifies as it did before.
pub proof fn lemma_walk_keeps_classification(f: Function, g: Function)
    requires
        function_walked(f, g),
    ensures
        classification_of(g) == classification_of(f),
{
    if f.body is Some {
        assert(stmts_walked(f.body->0@, g.body->0@));
        lemma_walk_keeps_body_classification(f.body->0@, g.body->0@);
    }
}

/// A function declaration that is no component is left a function
/// declaration by the walk, and by a second walk over the result of the
/// first: what was not rewritten once is not rewritten later.
pub proof fn lemma_unrewritten_stays_unrewritten(ident: Ident, f: Function, b: Stmt, c: Stmt)
    requires
        classification_of(f) == Classification::NotAComponent,
        stmt_walked(Stmt::FnDecl { ident, function: f }, b),
        stmt_walked(b, c),
    ensures
        b matches Stmt::FnDecl { ident: i2, function: g } && i2 == ident && classification_of(g)
            == Classification::NotAComponent,
        c matches Stmt::FnDecl { ident: i3, function: h } && i3 == ident && classification_of(h)
            == Classification::NotAComponent,
{
    let g = b->function;
    lemma_walk_keeps_classification(f, g);
    let h = c->function;
    lemma_walk_keeps_classification(g, h);
}

} // verus!
