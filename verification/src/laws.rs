//! Laws that relate the parts of the transform to each other.

use vstd::prelude::*;
use crate::ast::{ArrowBody, Class, ClassMember, Expr, Function, Ident, Module, ModuleItem, Stmt};
use crate::marker::{contains_marker_call, is_marker_callee};
use crate::classify::{Classification, classification_of, block_returns_marker, stateful_arg, stateless_arg, stateful_return, stateless_return};
use crate::rewrite::{RaskComponentTransform, component_class_of, base_name, source_of};
use crate::imports::{sources_rewritten, source_rewritten, imports_framework, injected, needs_import, already_imported, item_imports, specifier_names, is_base_specifier};
use crate::walk::{stmt_walked, stmt_uses, function_walked, is_component_base, class_walked, class_uses};
use crate::transform::module_transformed;

verus! {

/// The class has the one property `key`, holding a function, and extends
/// the private binding called `base`.
pub open spec fn has_shape(class: Class, key: Seq<char>, base: Seq<char>) -> bool {
    &&& class.body@.len() == 1
    &&& class.body@[0] matches ClassMember::Prop { key: k, value: Some(Expr::Fn(_)), is_static }
    &&& k@ == key
    &&& class.super_class matches Some(e)
    &&& *e matches Expr::Ident(id)
    &&& id.private
    &&& id.sym@ == base
}

/// `stmts[i]` is the only `return` among the top-level statements.
pub open spec fn only_return(stmts: Seq<Stmt>, i: int) -> bool {
    &&& 0 <= i < stmts.len()
    &&& stmts[i] is Return
    &&& forall|j: int| 0 <= j < stmts.len() && j != i ==> !(#[trigger] stmts[j] is Return)
}

/// A function whose only top-level `return` yields a marker call directly
/// classifies as stateless, and the walk turns its declaration into a class
/// of the same name with the property `renderFn` that holds the function,
/// extending the stateless base class.
pub proof fn lemma_direct_marker_return_is_stateless(ident: Ident, f: Function, i: int, b: Stmt)
    requires
        f.body matches Some(stmts) && only_return(stmts@, i) && (stmts@[i] matches Stmt::Return(
            Some(Expr::Call { callee, args }),
        ) && is_marker_callee(*callee)),
        stmt_walked(Stmt::FnDecl { ident, function: f }, b),
    ensures
        classification_of(f) == Classification::Stateless,
        b matches Stmt::ClassDecl { ident: i2, class } && i2 == ident && component_class_of(
            class,
            false,
            ident,
            f,
        ) && has_shape(class, "renderFn"@, "RaskStatelessComponent"@),
        stmt_uses(Stmt::FnDecl { ident, function: f }, false),
        !stmt_uses(Stmt::FnDecl { ident, function: f }, true),
{
    let stmts = f.body->0@;
    assert(stateless_return(stmts[i]));
    assert forall|j: int| 0 <= j < stmts.len() implies !stateful_return(#[trigger] stmts[j]) by {}
}

/// A function whose only top-level `return` yields an arrow function that
/// returns a marker call, from its expression body or from any depth of
/// control flow in its block body, classifies as stateful, and the walk
/// turns its declaration into a class of the same name with the property
/// `setup` that holds the function, extending the stateful base class.
pub proof fn lemma_closure_marker_return_is_stateful(ident: Ident, f: Function, i: int, b: Stmt)
    requires
        f.body matches Some(stmts) && only_return(stmts@, i) && (stmts@[i] matches Stmt::Return(
            Some(Expr::Arrow(a)),
        ) && match a.body {
            ArrowBody::Expr(e) => contains_marker_call(*e),
            ArrowBody::Block(inner) => block_returns_marker(inner@),
        }),
        stmt_walked(Stmt::FnDecl { ident, function: f }, b),
    ensures
        classification_of(f) == Classification::Stateful,
        b matches Stmt::ClassDecl { ident: i2, class } && i2 == ident && component_class_of(
            class,
            true,
            ident,
            f,
        ) && has_shape(class, "setup"@, "RaskStatefulComponent"@),
        stmt_uses(Stmt::FnDecl { ident, function: f }, true),
        !stmt_uses(Stmt::FnDecl { ident, function: f }, false),
{
    let stmts = f.body->0@;
    assert(stateful_return(stmts[i]));
}

/// A function none of whose top-level `return`s yields a marker call or an
/// arrow function that returns one is no component, and the walk leaves its
/// declaration a function declaration of the same name, walked inside.
pub proof fn lemma_plain_function_stays_a_function(ident: Ident, f: Function, b: Stmt)
    requires
        f.body matches Some(stmts) ==> forall|i: int|
            0 <= i < stmts@.len() ==> (#[trigger] stmts@[i] matches Stmt::Return(Some(arg))
                ==> !contains_marker_call(arg) && !stateful_arg(arg)),
        stmt_walked(Stmt::FnDecl { ident, function: f }, b),
    ensures
        classification_of(f) == Classification::NotAComponent,
        b matches Stmt::FnDecl { ident: i2, function: f2 } && i2 == ident && function_walked(
            f,
            f2,
        ),
{
    if f.body is Some {
        let stmts = f.body->0@;
        assert forall|j: int| 0 <= j < stmts.len() implies !stateful_return(#[trigger] stmts[j])
            && !stateless_return(stmts[j]) by {}
    }
}

/// A class that the transform made is never entered or classified again:
/// the walk leaves its declaration exactly as it is and meets no component
/// in it.
pub proof fn lemma_class_is_left_alone(ident: Ident, class: Class, b: Stmt)
    requires
        is_component_base(class),
        stmt_walked(Stmt::ClassDecl { ident, class }, b),
    ensures
        b == (Stmt::ClassDecl { ident, class }),
        !stmt_uses(Stmt::ClassDecl { ident, class }, true),
        !stmt_uses(Stmt::ClassDecl { ident, class }, false),
{
    assert(class_walked(class, b->class));
    assert(!class_uses(class, true) && !class_uses(class, false));
}

/// A class that stands for a component extends a private binding, so the
/// walk takes it for one of its own: it is left as it is, and no component
/// is met in it.
pub proof fn lemma_component_class_is_own(class: Class, stateful: bool, name: Ident, func: Function)
    requires
        component_class_of(class, stateful, name, func),
    ensures
        is_component_base(class),
        class_walked(class, class),
        !class_uses(class, true),
        !class_uses(class, false),
{
}

/// Walking the result of a component's rewrite changes nothing.
pub proof fn lemma_rewritten_component_is_stable(ident: Ident, f: Function, b: Stmt, c: Stmt)
    requires
        classification_of(f) != Classification::NotAComponent,
        stmt_walked(Stmt::FnDecl { ident, function: f }, b),
        stmt_walked(b, c),
    ensures
        c == b,
{
    lemma_component_class_is_own(
        b->class,
        classification_of(f) == Classification::Stateful,
        ident,
        f,
    );
    assert(class_walked(b->class, c->class));
}

/// The source rewrite changes an item exactly if it imports from the
/// framework, and a second pass changes nothing: the compiler source is
/// never the framework's name.
pub proof fn lemma_source_rewrite_settles(
    a: Seq<ModuleItem>,
    b: Seq<ModuleItem>,
    c: Seq<ModuleItem>,
    source: Seq<char>,
)
    requires
        sources_rewritten(a, b, source),
        sources_rewritten(b, c, source),
    ensures
        forall|i: int| 0 <= i < a.len() && !imports_framework(#[trigger] a[i]) ==> b[i] == a[i],
        forall|i: int| 0 <= i < b.len() ==> !imports_framework(#[trigger] b[i]),
        c == b,
{
    reveal_strlit("inferno");
    reveal_strlit("/compiler");
    assert forall|i: int| 0 <= i < b.len() implies !imports_framework(#[trigger] b[i]) by {
        assert(source_rewritten(a[i], b[i], source));
        if imports_framework(a[i]) {
            assert((source + "/compiler"@).len() >= 9);
        }
    }
    assert forall|i: int| 0 <= i < b.len() implies c[i] == b[i] by {
        assert(source_rewritten(b[i], c[i], source));
    }
    assert(c =~= b);
}

/// After injection every base class in use is imported from the configured
/// source, so injecting again changes nothing: no second import and no
/// second specifier.
pub proof fn lemma_injection_is_idempotent(t: RaskComponentTransform, a: Module, b: Module, c: Module)
    requires
        injected(t, a, b),
        injected(t, b, c),
    ensures
        !needs_import(t, b.body@, true),
        !needs_import(t, b.body@, false),
        c == b,
{
    lemma_injection_imports(t, a, b, true);
    lemma_injection_imports(t, a, b, false);
}

/// After injection the base class of a classification in use is imported.
pub proof fn lemma_injection_imports(t: RaskComponentTransform, a: Module, b: Module, stateful: bool)
    requires
        injected(t, a, b),
    ensures
        !needs_import(t, b.body@, stateful),
{
    let source = source_of(t.config());
    let base = base_name(stateful);
    if t.binding(stateful) is Some {
        if !needs_import(t, a.body@, true) && !needs_import(t, a.body@, false) {
            assert(already_imported(b.body@, source, base));
        } else if needs_import(t, a.body@, stateful) {
            let d = b.body@[0]->Import_0;
            let k = if stateful {
                0int
            } else {
                d.specifiers@.len() - 1
            };
            assert(is_base_specifier(d.specifiers@[k], t.binding(stateful)->0, base));
            assert(specifier_names(d.specifiers@[k], base));
            assert(item_imports(b.body@[0], source, base));
            assert(already_imported(b.body@, source, base));
        } else {
            let i = choose|i: int|
                0 <= i < a.body@.len() && item_imports(#[trigger] a.body@[i], source, base);
            assert(b.body@.subrange(1, b.body@.len() as int)[i] == b.body@[i + 1]);
            assert(item_imports(b.body@[i + 1], source, base));
            assert(already_imported(b.body@, source, base));
        }
    }
}

/// A base class that the module already imports from the configured source
/// is not imported again: injection then adds nothing for it, neither an
/// import of its own nor a specifier in the import of the other base class.
pub proof fn lemma_existing_import_is_not_repeated(
    t: RaskComponentTransform,
    a: Module,
    b: Module,
    stateful: bool,
)
    requires
        injected(t, a, b),
        already_imported(a.body@, source_of(t.config()), base_name(stateful)),
    ensures
        !needs_import(t, a.body@, !stateful) ==> b == a,
        needs_import(t, a.body@, !stateful) ==> (b.body@[0] matches ModuleItem::Import(d)
            && d.specifiers@.len() == 1 && is_base_specifier(
            d.specifiers@[0],
            t.binding(!stateful)->0,
            base_name(!stateful),
        ) && !specifier_names(d.specifiers@[0], base_name(stateful))),
{
    reveal_strlit("RaskStatefulComponent");
    reveal_strlit("RaskStatelessComponent");
    assert("RaskStatefulComponent"@.len() != "RaskStatelessComponent"@.len());
}

/// No returned value has both shapes: the stateless shape asks for
/// something other than an arrow function, the stateful shape for an arrow
/// function.
pub proof fn lemma_shapes_exclude_each_other(arg: Expr)
    ensures
        !(stateless_arg(arg) && stateful_arg(arg)),
{
}

/// The transform inserts at most one import: the result is the module's
/// items, walked and pointed, with at most one import in front, whatever
/// classifications were met.
pub proof fn lemma_at_most_one_import(t: RaskComponentTransform, a: Module, r: Module)
    requires
        module_transformed(t, a, r),
    ensures
        r.body@.len() == a.body@.len() || (r.body@.len() == a.body@.len() + 1
            && r.body@[0] is Import),
{
}

/// Injection alone adds one import or none, and keeps every item behind it.
pub proof fn lemma_injection_adds_at_most_one(t: RaskComponentTransform, a: Module, b: Module)
    requires
        injected(t, a, b),
    ensures
        b == a || (b.body@.len() == a.body@.len() + 1 && b.body@[0] is Import && b.body@.subrange(
            1,
            b.body@.len() as int,
        ) == a.body@),
        (t.stateful_binding() is None && t.stateless_binding() is None) ==> b == a,
{
}

} // verus!
