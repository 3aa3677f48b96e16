//! The transform settles: what one run made is left as it is by the next.

use vstd::prelude::*;
use crate::ast::{ArrowBody, ArrowExpr, Class, ClassMember, Expr, Function, Module, ModuleItem, Stmt, SwitchCase, VarDeclarator};
use crate::classify::{Classification, classification_of, arrow_classification, canonical_body};
use crate::rewrite::{Config, RaskComponentTransform, component_function, source_of};
use crate::imports::{sources_rewritten, source_rewritten, imports_framework, injected};
use crate::walk::{class_walked, class_uses, member_walked, member_uses, is_component_base, expr_walked, expr_uses, opt_expr_walked, opt_expr_uses, exprs_walked, exprs_use, arrow_walked, arrow_uses, function_walked, function_uses, stmt_walked, stmt_uses, stmts_walked, stmts_use, case_walked, case_uses, opt_stmts_walked, opt_stmts_use, decl_walked, decl_uses, decls_walked, decls_use, declares_component};
use crate::transform::{item_walked, item_uses, items_walked, items_use, exports_component, module_transformed, processed};
use crate::laws::lemma_component_class_is_own;
use crate::stability::{lemma_walk_keeps_classification, lemma_walk_keeps_body_classification};

verus! {

/// A walked arrow function classifies as it did before.
pub proof fn lemma_walk_keeps_arrow_classification(a: ArrowExpr, b: ArrowExpr)
    requires
        arrow_walked(a, b),
    ensures
        arrow_classification(b) == arrow_classification(a),
{
    match a.body {
        ArrowBody::Expr(e) => {
            let e2 = b.body->Expr_0;
            assert(opt_expr_walked(Some(*e), Some(*e2)));
            assert(stmt_walked(Stmt::Return(Some(*e)), Stmt::Return(Some(*e2))));
            assert(stmts_walked(canonical_body(a), canonical_body(b)));
        },
        ArrowBody::Block(s) => {},
    }
    lemma_walk_keeps_body_classification(canonical_body(a), canonical_body(b));
}

/// A walked a class member is left as it is by another walk, which meets no
/// component in it.
pub proof fn lemma_member_settled(a: ClassMember, b: ClassMember)
    requires
        member_walked(a, b),
    ensures
        member_walked(b, b),
        !member_uses(b, true),
        !member_uses(b, false),
    decreases a,
{
    match a {
        ClassMember::Prop { key, value, is_static } => {
            lemma_opt_expr_settled(value, b->value);
        },
        ClassMember::Method { key, function, is_static } => {
            lemma_function_settled(function, b->function);
        },
        _ => {},
    }
}

/// A walked class is left as it is by another walk, which meets no
/// component in it.
pub proof fn lemma_class_settled(a: Class, b: Class)
    requires
        class_walked(a, b),
    ensures
        class_walked(b, b),
        !class_uses(b, true),
        !class_uses(b, false),
    decreases a,
{
    if !is_component_base(a) {
        if a.super_class is Some {
            assert(expr_walked(*a.super_class->0, *b.super_class->0));
            lemma_expr_settled(*a.super_class->0, *b.super_class->0);
        }
        assert(!is_component_base(b));
        assert forall|i: int| 0 <= i < b.body@.len() implies member_walked(
            #[trigger] b.body@[i],
            b.body@[i],
        ) && !member_uses(b.body@[i], true) && !member_uses(b.body@[i], false) by {
            assert(member_walked(a.body@[i], b.body@[i]));
            lemma_member_settled(a.body@[i], b.body@[i]);
        }
    }
}

/// A walked a function is left as it is by another walk, which meets no
/// component in it.
pub proof fn lemma_function_settled(a: Function, b: Function)
    requires
        function_walked(a, b),
    ensures
        function_walked(b, b),
        !function_uses(b, true),
        !function_uses(b, false),
    decreases a,
{
    if a.body is Some {
        lemma_stmts_settled(a.body->0@, b.body->0@);
    }
}

/// A walked an arrow function is left as it is by another walk, which meets no
/// component in it.
pub proof fn lemma_arrow_settled(a: ArrowExpr, b: ArrowExpr)
    requires
        arrow_walked(a, b),
    ensures
        arrow_walked(b, b),
        !arrow_uses(b, true),
        !arrow_uses(b, false),
    decreases a,
{
    match a.body {
        ArrowBody::Expr(e) => {
            lemma_expr_settled(*e, *b.body->Expr_0);
        },
        ArrowBody::Block(s) => {
            lemma_stmts_settled(s@, b.body->Block_0@);
        },
    }
}

/// A walked an expression that may be absent is left as it is by another walk, which meets no
/// component in it.
pub proof fn lemma_opt_expr_settled(a: Option<Expr>, b: Option<Expr>)
    requires
        opt_expr_walked(a, b),
    ensures
        opt_expr_walked(b, b),
        !opt_expr_uses(b, true),
        !opt_expr_uses(b, false),
    decreases a,
{
    if a is Some {
        lemma_expr_settled(a->0, b->0);
    }
}

/// A walked a list of expressions is left as it is by another walk, which meets no
/// component in it.
pub proof fn lemma_exprs_settled(a: Seq<Expr>, b: Seq<Expr>)
    requires
        exprs_walked(a, b),
    ensures
        exprs_walked(b, b),
        !exprs_use(b, true),
        !exprs_use(b, false),
    decreases a,
{
    assert forall|i: int| 0 <= i < b.len() implies expr_walked(#[trigger] b[i], b[i])
        && !expr_uses(b[i], true) && !expr_uses(b[i], false) by {
        lemma_expr_settled(a[i], b[i]);
    }
}

/// A walked expression is left as it is by another walk, which meets no
/// component in it.
pub proof fn lemma_expr_settled(a: Expr, b: Expr)
    requires
        expr_walked(a, b),
    ensures
        expr_walked(b, b),
        !expr_uses(b, true),
        !expr_uses(b, false),
    decreases a,
{
    match a {
        Expr::Call { callee, args } => {
            assert(expr_walked(*callee, *b->callee));
            assert(exprs_walked(args@, b->args@));
            lemma_expr_settled(*callee, *b->callee);
            lemma_exprs_settled(args@, b->args@);
        },
        Expr::Paren(e) => {
            lemma_expr_settled(*e, *b->Paren_0);
        },
        Expr::Cond { test, cons, alt } => {
            lemma_expr_settled(*test, *b->test);
            lemma_expr_settled(*cons, *b->cons);
            lemma_expr_settled(*alt, *b->alt);
        },
        Expr::Bin { op, left, right } => {
            lemma_expr_settled(*left, *b->left);
            lemma_expr_settled(*right, *b->right);
        },
        Expr::Array(elems) => {
            let e2 = b->Array_0;
            assert forall|i: int| 0 <= i < e2@.len() implies opt_expr_walked(
                #[trigger] e2@[i],
                e2@[i],
            ) && !opt_expr_uses(e2@[i], true) && !opt_expr_uses(e2@[i], false) by {
                assert(opt_expr_walked(elems@[i], e2@[i]));
                lemma_opt_expr_settled(elems@[i], e2@[i]);
            }
        },
        Expr::Arrow(arrow) => {
            assert(arrow_walked(*arrow, *b->Arrow_0));
            lemma_arrow_settled(*arrow, *b->Arrow_0);
        },
        Expr::Member { obj, prop } => {
            lemma_expr_settled(*obj, *b->obj);
            lemma_expr_settled(*prop, *b->prop);
        },
        Expr::Unary { op, arg } => {
            lemma_expr_settled(*arg, *b->arg);
        },
        Expr::Fn(f) => {
            assert(function_walked(f.function, b->Fn_0.function));
            lemma_function_settled(f.function, b->Fn_0.function);
        },
        Expr::Class(c) => {
            assert(class_walked(c.class, b->Class_0.class));
            lemma_class_settled(c.class, b->Class_0.class);
        },
        Expr::Other { token, children } => {
            assert(exprs_walked(children@, b->children@));
            lemma_exprs_settled(children@, b->children@);
        },
        _ => {},
    }
}

/// A walked a declarator is left as it is by another walk, which meets no
/// component in it.
pub proof fn lemma_decl_settled(a: VarDeclarator, b: VarDeclarator, components: bool)
    requires
        decl_walked(a, b, components),
    ensures
        decl_walked(b, b, components),
        !decl_uses(b, components, true),
        !decl_uses(b, components, false),
    decreases a,
{
    if components && declares_component(a) {
        let class = b.init->0->Class_0.class;
        lemma_component_class_is_own(
            class,
            arrow_classification(*a.init->0->Arrow_0) == Classification::Stateful,
            a.name->Ident_0,
            component_function(class),
        );
        assert(!declares_component(b));
        assert(expr_walked(b.init->0, b.init->0));
        assert(!expr_uses(b.init->0, true) && !expr_uses(b.init->0, false));
        assert(opt_expr_walked(b.init, b.init));
    } else {
        assert(opt_expr_walked(a.init, b.init));
        lemma_opt_expr_settled(a.init, b.init);
        if b.init is Some && b.init->0 is Arrow {
            let a2 = b.init->0->Arrow_0;
            assert(expr_walked(a.init->0, b.init->0));
            assert(a.init->0 is Arrow);
            assert(arrow_walked(*a.init->0->Arrow_0, *a2));
            lemma_walk_keeps_arrow_classification(*a.init->0->Arrow_0, *a2);
        }
        assert(!(components && declares_component(b)));
    }
}

/// A walked a list of declarators is left as it is by another walk, which meets no
/// component in it.
pub proof fn lemma_decls_settled(a: Seq<VarDeclarator>, b: Seq<VarDeclarator>, components: bool)
    requires
        decls_walked(a, b, components),
    ensures
        decls_walked(b, b, components),
        !decls_use(b, components, true),
        !decls_use(b, components, false),
    decreases a,
{
    assert forall|i: int| 0 <= i < b.len() implies decl_walked(#[trigger] b[i], b[i], components)
        && !decl_uses(b[i], components, true) && !decl_uses(b[i], components, false) by {
        lemma_decl_settled(a[i], b[i], components);
    }
}

/// A walked a `switch` case is left as it is by another walk, which meets no
/// component in it.
pub proof fn lemma_case_settled(a: SwitchCase, b: SwitchCase)
    requires
        case_walked(a, b),
    ensures
        case_walked(b, b),
        !case_uses(b, true),
        !case_uses(b, false),
    decreases a,
{
    lemma_opt_expr_settled(a.test, b.test);
    lemma_stmts_settled(a.cons@, b.cons@);
}

/// A walked a block that may be absent is left as it is by another walk, which meets no
/// component in it.
pub proof fn lemma_opt_stmts_settled(a: Option<Vec<Stmt>>, b: Option<Vec<Stmt>>)
    requires
        opt_stmts_walked(a, b),
    ensures
        opt_stmts_walked(b, b),
        !opt_stmts_use(b, true),
        !opt_stmts_use(b, false),
    decreases a,
{
    if a is Some {
        lemma_stmts_settled(a->0@, b->0@);
    }
}

/// A walked a list of statements is left as it is by another walk, which meets no
/// component in it.
pub proof fn lemma_stmts_settled(a: Seq<Stmt>, b: Seq<Stmt>)
    requires
        stmts_walked(a, b),
    ensures
        stmts_walked(b, b),
        !stmts_use(b, true),
        !stmts_use(b, false),
    decreases a,
{
    assert forall|i: int| 0 <= i < b.len() implies stmt_walked(#[trigger] b[i], b[i])
        && !stmt_uses(b[i], true) && !stmt_uses(b[i], false) by {
        lemma_stmt_settled(a[i], b[i]);
    }
}

/// A walked statement is left as it is by another walk, which meets no
/// component in it: a class is never entered, and a function that was no
/// component is none afterwards.
pub proof fn lemma_stmt_settled(a: Stmt, b: Stmt)
    requires
        stmt_walked(a, b),
    ensures
        stmt_walked(b, b),
        !stmt_uses(b, true),
        !stmt_uses(b, false),
    decreases a,
{
    match a {
        Stmt::FnDecl { ident, function } => {
            if classification_of(function) == Classification::NotAComponent {
                let g = b->function;
                assert(function_walked(function, g));
                lemma_walk_keeps_classification(function, g);
                lemma_function_settled(function, g);
            } else {
                lemma_component_class_is_own(
                    b->class,
                    classification_of(function) == Classification::Stateful,
                    ident,
                    function,
                );
            }
        },
        Stmt::VarDecl { keyword, decls } => {
            assert(decls_walked(decls@, b->decls@, true));
            lemma_decls_settled(decls@, b->decls@, true);
        },
        Stmt::Return(arg) => {
            lemma_opt_expr_settled(arg, b->Return_0);
        },
        Stmt::If { test, cons, alt } => {
            lemma_expr_settled(test, b->test);
            lemma_stmt_settled(*cons, *b->cons);
            if alt is Some {
                lemma_stmt_settled(*alt->0, *b->alt->0);
            }
        },
        Stmt::Block(s) => {
            lemma_stmts_settled(s@, b->Block_0@);
        },
        Stmt::Switch { discriminant, cases } => {
            let c2 = b->cases;
            lemma_expr_settled(discriminant, b->discriminant);
            assert forall|i: int| 0 <= i < c2@.len() implies case_walked(#[trigger] c2@[i], c2@[i])
                && !case_uses(c2@[i], true) && !case_uses(c2@[i], false) by {
                assert(case_walked(cases@[i], c2@[i]));
                lemma_case_settled(cases@[i], c2@[i]);
            }
        },
        Stmt::Try { block, handler, finalizer } => {
            lemma_stmts_settled(block@, b->block@);
            lemma_opt_stmts_settled(handler, b->handler);
            lemma_opt_stmts_settled(finalizer, b->finalizer);
        },
        Stmt::Loop { kind, head, body } => {
            lemma_exprs_settled(head@, b->head@);
            lemma_stmt_settled(*body, *b->Loop_body);
        },
        Stmt::Labeled { label, body } => {
            lemma_stmt_settled(*body, *b->Labeled_body);
        },
        Stmt::Expr(e) => {
            lemma_expr_settled(e, b->Expr_0);
        },
        Stmt::ClassDecl { ident, class } => {
            lemma_class_settled(class, b->class);
        },
        Stmt::Other { token, children } => {
            lemma_exprs_settled(children@, b->children@);
        },
    }
}

/// A walked module item is left as it is by another walk, which meets no
/// component in it.
pub proof fn lemma_item_settled(a: ModuleItem, b: ModuleItem)
    requires
        item_walked(a, b),
    ensures
        item_walked(b, b),
        !item_uses(b, true),
        !item_uses(b, false),
{
    match a {
        ModuleItem::Stmt(s) => {
            lemma_stmt_settled(s, b->Stmt_0);
        },
        ModuleItem::ExportDecl(s) => {
            let s2 = b->ExportDecl_0;
            match s {
                Stmt::FnDecl { ident, function } => {
                    lemma_stmt_settled(s, s2);
                },
                Stmt::VarDecl { keyword, decls } => {
                    lemma_decls_settled(decls@, s2->decls@, false);
                },
                Stmt::ClassDecl { ident, class } => {
                    lemma_stmt_settled(s, s2);
                },
                _ => {},
            }
        },
        ModuleItem::ExportDefaultFn(f) => {
            if classification_of(f.function) == Classification::NotAComponent {
                let g = b->ExportDefaultFn_0.function;
                lemma_walk_keeps_classification(f.function, g);
                lemma_function_settled(f.function, g);
            } else {
                let made = b->ExportDefaultClass_0;
                lemma_component_class_is_own(
                    made.class,
                    classification_of(f.function) == Classification::Stateful,
                    made.ident->0,
                    f.function,
                );
            }
        },
        ModuleItem::ExportDefaultClass(c) => {
            lemma_class_settled(c.class, b->ExportDefaultClass_0.class);
        },
        ModuleItem::ExportDefaultExpr(e) => {
            if exports_component(e) {
                let made = b->ExportDefaultExpr_0->Class_0;
                lemma_component_class_is_own(
                    made.class,
                    arrow_classification(*e->Arrow_0) == Classification::Stateful,
                    made.ident->0,
                    component_function(made.class),
                );
                assert(expr_walked(b->ExportDefaultExpr_0, b->ExportDefaultExpr_0));
                assert(!expr_uses(b->ExportDefaultExpr_0, true) && !expr_uses(
                    b->ExportDefaultExpr_0,
                    false,
                ));
            }
            if !exports_component(e) {
                let e2 = b->ExportDefaultExpr_0;
                lemma_expr_settled(e, e2);
                if e2 is Arrow {
                    let a2 = e2->Arrow_0;
                    assert(e is Arrow);
                    assert(arrow_walked(*e->Arrow_0, *a2));
                    lemma_walk_keeps_arrow_classification(*e->Arrow_0, *a2);
                }
            }
        },
        _ => {},
    }
}

/// What one run made of a module, a second run with the same options makes
/// of it again: no component is left to rewrite, no import of the framework
/// is left to point elsewhere, and no base class is in use that would need
/// an import. This needs a configured package other than the framework's
/// own name: an import from it, once injected, would be pointed at the
/// compiler source by the next run.
pub proof fn lemma_transform_settles(config: Config, a: Module, r: Module)
    requires
        processed(config, a, r),
        source_of(config) != "inferno"@,
    ensures
        processed(config, r, r),
{
    let t = choose|t: RaskComponentTransform|
        t.wf() && t.config() == config && (t.stateful_binding() is Some <==> items_use(
            a.body@,
            true,
        )) && (t.stateless_binding() is Some <==> items_use(a.body@, false))
            && #[trigger] module_transformed(t, a, r);
    let (w, s) = choose|w: Seq<ModuleItem>, s: Module|
        #[trigger] items_walked(a.body@, w) && sources_rewritten(
            w,
            s.body@,
            source_of(t.config()),
        ) && #[trigger] injected(t, s, r);
    let source = source_of(config);
    reveal_strlit("inferno");
    reveal_strlit("/compiler");
    assert forall|i: int| 0 <= i < s.body@.len() implies item_walked(
        #[trigger] s.body@[i],
        s.body@[i],
    ) && !item_uses(s.body@[i], true) && !item_uses(s.body@[i], false) && !imports_framework(
        s.body@[i],
    ) by {
        assert(item_walked(a.body@[i], w[i]));
        lemma_item_settled(a.body@[i], w[i]);
        assert(source_rewritten(w[i], s.body@[i], source));
        if imports_framework(w[i]) {
            assert((source + "/compiler"@).len() >= 9);
        }
    }
    let rb = r.body@;
    assert forall|i: int| 0 <= i < rb.len() implies item_walked(#[trigger] rb[i], rb[i])
        && !item_uses(rb[i], true) && !item_uses(rb[i], false) && !imports_framework(rb[i]) by {
        if r != s {
            if i > 0 {
                assert(rb.subrange(1, rb.len() as int)[i - 1] == rb[i]);
                assert(rb[i] == s.body@[i - 1]);
            }
        }
    }
    let fresh = RaskComponentTransform::fresh(config);
    RaskComponentTransform::lemma_fresh(config);
    assert(items_walked(rb, rb));
    assert(sources_rewritten(rb, rb, source));
    assert(injected(fresh, r, r));
    assert(module_transformed(fresh, r, r));
}

} // verus!
