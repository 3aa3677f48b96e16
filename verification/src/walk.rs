//! The walk over a module that replaces each component by its class.

use vstd::prelude::*;
use crate::ast::{ArrowBody, ArrowExpr, Class, ClassExpr, ClassMember, Expr, FnExpr, Function, Ident, Pat, Stmt, SwitchCase, VarDeclarator};
use crate::classify::{Classification, classification_of, arrow_classification, classify, classify_arrow};
use crate::rewrite::{RaskComponentTransform, component_class_of, component_function, is_canonical_of};
use crate::text::reversed;

verus! {

/// Whether `name` is the name given to a default export that has none.
pub open spec fn is_default_name(name: Ident) -> bool {
    !name.private && name.sym@ == "DefaultComponent"@
}

/// Whether declarator `d` is rewritten as a component: a plain name bound to
/// an arrow function that classifies as one.
pub open spec fn declares_component(d: VarDeclarator) -> bool {
    &&& d.name is Ident
    &&& d.init matches Some(Expr::Arrow(a))
    &&& arrow_classification(*a) != Classification::NotAComponent
}

/// Whether a class extends a private binding. Only the transform makes
/// such classes, so this tells its own classes from those of the source.
pub open spec fn is_component_base(class: Class) -> bool {
    class.super_class matches Some(e) && *e matches Expr::Ident(id) && id.private
}

/// What the walk makes of a class member.
pub open spec fn member_walked(a: ClassMember, b: ClassMember) -> bool
    decreases a,
{
    match a {
        ClassMember::Prop { key, value, is_static } => b matches ClassMember::Prop {
            key: k2,
            value: v2,
            is_static: s2,
        } && k2 == key && s2 == is_static && opt_expr_walked(value, v2),
        ClassMember::Method { key, function, is_static } => b matches ClassMember::Method {
            key: k2,
            function: f2,
            is_static: s2,
        } && k2 == key && s2 == is_static && function_walked(function, f2),
        _ => b == a,
    }
}

/// What the walk makes of a class: a class that the transform made is not
/// entered; in any other class the superclass and the members are walked.
pub open spec fn class_walked(a: Class, b: Class) -> bool
    decreases a,
{
    if is_component_base(a) {
        b == a
    } else {
        &&& b.has_constructor == a.has_constructor
        &&& b.decorators == a.decorators
        &&& b.type_params == a.type_params
        &&& b.implements == a.implements
        &&& match a.super_class {
            Some(e) => b.super_class matches Some(e2) && expr_walked(*e, *e2),
            None => b.super_class is None,
        }
        &&& b.body@.len() == a.body@.len()
        &&& forall|i: int|
            0 <= i < a.body@.len() ==> member_walked(#[trigger] a.body@[i], b.body@[i])
    }
}

/// What the walk makes of a function: its body statements walked, the rest
/// as it was.
pub open spec fn function_walked(a: Function, b: Function) -> bool
    decreases a,
{
    &&& b.params == a.params
    &&& b.is_generator == a.is_generator
    &&& b.is_async == a.is_async
    &&& b.type_params == a.type_params
    &&& b.return_type == a.return_type
    &&& match a.body {
        Some(s) => b.body matches Some(s2) && stmts_walked(s@, s2@),
        None => b.body is None,
    }
}

/// What the walk makes of an arrow function.
pub open spec fn arrow_walked(a: ArrowExpr, b: ArrowExpr) -> bool
    decreases a,
{
    &&& b.params == a.params
    &&& b.is_generator == a.is_generator
    &&& b.is_async == a.is_async
    &&& b.type_params == a.type_params
    &&& b.return_type == a.return_type
    &&& match a.body {
        ArrowBody::Expr(e) => b.body matches ArrowBody::Expr(e2) && expr_walked(*e, *e2),
        ArrowBody::Block(s) => b.body matches ArrowBody::Block(s2) && stmts_walked(s@, s2@),
    }
}

/// What the walk makes of an expression that may be absent.
pub open spec fn opt_expr_walked(a: Option<Expr>, b: Option<Expr>) -> bool
    decreases a,
{
    match a {
        Some(e) => b matches Some(e2) && expr_walked(e, e2),
        None => b is None,
    }
}

/// What the walk makes of a list of expressions.
pub open spec fn exprs_walked(a: Seq<Expr>, b: Seq<Expr>) -> bool
    decreases a,
{
    &&& b.len() == a.len()
    &&& forall|i: int| 0 <= i < a.len() ==> expr_walked(#[trigger] a[i], b[i])
}

/// What the walk makes of an expression: no expression is itself replaced;
/// the statements inside its functions and classes are walked.
pub open spec fn expr_walked(a: Expr, b: Expr) -> bool
    decreases a,
{
    match a {
        Expr::Call { callee, args } => b matches Expr::Call { callee: c2, args: a2 }
            && expr_walked(*callee, *c2) && exprs_walked(args@, a2@),
        Expr::Paren(e) => b matches Expr::Paren(e2) && expr_walked(*e, *e2),
        Expr::Cond { test, cons, alt } => b matches Expr::Cond { test: t2, cons: c2, alt: a2 }
            && expr_walked(*test, *t2) && expr_walked(*cons, *c2) && expr_walked(*alt, *a2),
        Expr::Bin { op, left, right } => b matches Expr::Bin { op: o2, left: l2, right: r2 }
            && o2 == op && expr_walked(*left, *l2) && expr_walked(*right, *r2),
        Expr::Array(elems) => b matches Expr::Array(e2) && e2@.len() == elems@.len()
            && forall|i: int|
            0 <= i < elems@.len() ==> opt_expr_walked(#[trigger] elems@[i], e2@[i]),
        Expr::Arrow(arrow) => b matches Expr::Arrow(a2) && arrow_walked(*arrow, *a2),
        Expr::Member { obj, prop } => b matches Expr::Member { obj: o2, prop: p2 }
            && expr_walked(*obj, *o2) && expr_walked(*prop, *p2),
        Expr::Unary { op, arg } => b matches Expr::Unary { op: o2, arg: a2 } && o2 == op
            && expr_walked(*arg, *a2),
        Expr::Fn(f) => b matches Expr::Fn(f2) && f2.ident == f.ident && function_walked(
            f.function,
            f2.function,
        ),
        Expr::Class(c) => b matches Expr::Class(c2) && c2.ident == c.ident && class_walked(
            c.class,
            c2.class,
        ),
        Expr::Other { token, children } => b matches Expr::Other { token: t2, children: c2 }
            && t2 == token && exprs_walked(children@, c2@),
        _ => b == a,
    }
}

/// What the walk makes of one declarator. Where `components` holds and the
/// declarator declares a component, its initializer becomes the class
/// expression of the arrow's canonical function under the declared name;
/// otherwise the initializer is walked as an expression.
pub open spec fn decl_walked(a: VarDeclarator, b: VarDeclarator, components: bool) -> bool
    decreases a,
{
    &&& b.name == a.name
    &&& if components && declares_component(a) {
        &&& b.init matches Some(Expr::Class(ce))
        &&& ce.ident == Some(a.name->Ident_0)
        &&& is_canonical_of(component_function(ce.class), *a.init->0->Arrow_0)
        &&& component_class_of(
            ce.class,
            arrow_classification(*a.init->0->Arrow_0) == Classification::Stateful,
            a.name->Ident_0,
            component_function(ce.class),
        )
    } else {
        opt_expr_walked(a.init, b.init)
    }
}

/// What the walk makes of a list of declarators.
pub open spec fn decls_walked(a: Seq<VarDeclarator>, b: Seq<VarDeclarator>, components: bool) -> bool
    decreases a,
{
    &&& b.len() == a.len()
    &&& forall|i: int| 0 <= i < a.len() ==> decl_walked(#[trigger] a[i], b[i], components)
}

/// What the walk makes of a `switch` case.
pub open spec fn case_walked(a: SwitchCase, b: SwitchCase) -> bool
    decreases a,
{
    opt_expr_walked(a.test, b.test) && stmts_walked(a.cons@, b.cons@)
}

/// What the walk makes of a block that may be absent.
pub open spec fn opt_stmts_walked(a: Option<Vec<Stmt>>, b: Option<Vec<Stmt>>) -> bool
    decreases a,
{
    match a {
        Some(s) => b matches Some(s2) && stmts_walked(s@, s2@),
        None => b is None,
    }
}

/// What the walk makes of a list of statements.
pub open spec fn stmts_walked(a: Seq<Stmt>, b: Seq<Stmt>) -> bool
    decreases a,
{
    &&& b.len() == a.len()
    &&& forall|i: int| 0 <= i < a.len() ==> stmt_walked(#[trigger] a[i], b[i])
}

/// What the walk makes of a statement. A function declaration becomes the
/// class declaration of its classification under its own name, or, where it
/// is no component, keeps its place with its body walked.
pub open spec fn stmt_walked(a: Stmt, b: Stmt) -> bool
    decreases a,
{
    match a {
        Stmt::FnDecl { ident, function } => match classification_of(function) {
            Classification::NotAComponent => b matches Stmt::FnDecl { ident: i2, function: f2 }
                && i2 == ident && function_walked(function, f2),
            c => b matches Stmt::ClassDecl { ident: i2, class } && i2 == ident
                && component_class_of(class, c == Classification::Stateful, ident, function),
        },
        Stmt::VarDecl { keyword, decls } => b matches Stmt::VarDecl { keyword: k2, decls: d2 }
            && k2 == keyword && decls_walked(decls@, d2@, true),
        Stmt::Return(arg) => b matches Stmt::Return(arg2) && opt_expr_walked(arg, arg2),
        Stmt::If { test, cons, alt } => b matches Stmt::If { test: t2, cons: c2, alt: a2 }
            && expr_walked(test, t2) && stmt_walked(*cons, *c2) && match alt {
            Some(x) => a2 matches Some(y) && stmt_walked(*x, *y),
            None => a2 is None,
        },
        Stmt::Block(s) => b matches Stmt::Block(s2) && stmts_walked(s@, s2@),
        Stmt::Switch { discriminant, cases } => b matches Stmt::Switch {
            discriminant: d2,
            cases: c2,
        } && expr_walked(discriminant, d2) && c2@.len() == cases@.len() && forall|i: int|
            0 <= i < cases@.len() ==> case_walked(#[trigger] cases@[i], c2@[i]),
        Stmt::Try { block, handler, finalizer } => b matches Stmt::Try {
            block: b2,
            handler: h2,
            finalizer: f2,
        } && stmts_walked(block@, b2@) && opt_stmts_walked(handler, h2) && opt_stmts_walked(
            finalizer,
            f2,
        ),
        Stmt::Loop { kind, head, body } => b matches Stmt::Loop { kind: k2, head: h2, body: b2 }
            && k2 == kind && exprs_walked(head@, h2@) && stmt_walked(*body, *b2),
        Stmt::Labeled { label, body } => b matches Stmt::Labeled { label: l2, body: b2 }
            && l2 == label && stmt_walked(*body, *b2),
        Stmt::Expr(e) => b matches Stmt::Expr(e2) && expr_walked(e, e2),
        Stmt::ClassDecl { ident, class } => b matches Stmt::ClassDecl { ident: i2, class: c2 }
            && i2 == ident && class_walked(class, c2),
        Stmt::Other { token, children } => b matches Stmt::Other { token: t2, children: c2 }
            && t2 == token && exprs_walked(children@, c2@),
    }
}

/// Whether the walk of a class member meets a component of the given classification.
pub open spec fn member_uses(a: ClassMember, stateful: bool) -> bool
    decreases a,
{
    match a {
        ClassMember::Prop { key, value, is_static } => opt_expr_uses(value, stateful),
        ClassMember::Method { key, function, is_static } => function_uses(function, stateful),
        _ => false,
    }
}

/// Whether the walk of a class meets a component of the given classification.
pub open spec fn class_uses(a: Class, stateful: bool) -> bool
    decreases a,
{
    !is_component_base(a) && ((a.super_class matches Some(e) && expr_uses(*e, stateful))
        || exists|i: int| 0 <= i < a.body@.len() && member_uses(#[trigger] a.body@[i], stateful))
}

/// Whether the walk meets, in a function's body, a component of the given
/// classification.
pub open spec fn function_uses(a: Function, stateful: bool) -> bool
    decreases a,
{
    a.body matches Some(s) && stmts_use(s@, stateful)
}

/// Whether the walk of an arrow function meets a component of the given classification.
pub open spec fn arrow_uses(a: ArrowExpr, stateful: bool) -> bool
    decreases a,
{
    match a.body {
        ArrowBody::Expr(e) => expr_uses(*e, stateful),
        ArrowBody::Block(s) => stmts_use(s@, stateful),
    }
}

/// Whether the walk of an expression that may be absent meets a component of the given classification.
pub open spec fn opt_expr_uses(a: Option<Expr>, stateful: bool) -> bool
    decreases a,
{
    a matches Some(e) && expr_uses(e, stateful)
}

/// Whether the walk of a list of expressions meets a component of the given classification.
pub open spec fn exprs_use(a: Seq<Expr>, stateful: bool) -> bool
    decreases a,
{
    exists|i: int| 0 <= i < a.len() && expr_uses(#[trigger] a[i], stateful)
}

/// Whether the walk meets, inside an expression, a component of the given
/// classification.
pub open spec fn expr_uses(a: Expr, stateful: bool) -> bool
    decreases a,
{
    match a {
        Expr::Call { callee, args } => expr_uses(*callee, stateful) || exprs_use(
            args@,
            stateful,
        ),
        Expr::Paren(e) => expr_uses(*e, stateful),
        Expr::Cond { test, cons, alt } => expr_uses(*test, stateful) || expr_uses(
            *cons,
            stateful,
        ) || expr_uses(*alt, stateful),
        Expr::Bin { op, left, right } => expr_uses(*left, stateful) || expr_uses(
            *right,
            stateful,
        ),
        Expr::Array(elems) => exists|i: int|
            0 <= i < elems@.len() && opt_expr_uses(#[trigger] elems@[i], stateful),
        Expr::Arrow(arrow) => arrow_uses(*arrow, stateful),
        Expr::Member { obj, prop } => expr_uses(*obj, stateful) || expr_uses(*prop, stateful),
        Expr::Unary { op, arg } => expr_uses(*arg, stateful),
        Expr::Fn(f) => function_uses(f.function, stateful),
        Expr::Class(c) => class_uses(c.class, stateful),
        Expr::Other { token, children } => exprs_use(children@, stateful),
        _ => false,
    }
}

/// The classification as the flag that the walk's bookkeeping uses.
pub open spec fn is_class(c: Classification, stateful: bool) -> bool {
    if stateful {
        c == Classification::Stateful
    } else {
        c == Classification::Stateless
    }
}

/// Whether the walk of a declarator meets a component of the given classification.
pub open spec fn decl_uses(a: VarDeclarator, components: bool, stateful: bool) -> bool
    decreases a,
{
    if components && declares_component(a) {
        is_class(arrow_classification(*a.init->0->Arrow_0), stateful)
    } else {
        opt_expr_uses(a.init, stateful)
    }
}

/// Whether the walk of a list of declarators meets a component of the given classification.
pub open spec fn decls_use(a: Seq<VarDeclarator>, components: bool, stateful: bool) -> bool
    decreases a,
{
    exists|i: int| 0 <= i < a.len() && decl_uses(#[trigger] a[i], components, stateful)
}

/// Whether the walk of a `switch` case meets a component of the given classification.
pub open spec fn case_uses(a: SwitchCase, stateful: bool) -> bool
    decreases a,
{
    opt_expr_uses(a.test, stateful) || stmts_use(a.cons@, stateful)
}

/// Whether the walk of a block that may be absent meets a component of the given classification.
pub open spec fn opt_stmts_use(a: Option<Vec<Stmt>>, stateful: bool) -> bool
    decreases a,
{
    a matches Some(s) && stmts_use(s@, stateful)
}

/// Whether the walk of a list of statements meets a component of the given classification.
pub open spec fn stmts_use(a: Seq<Stmt>, stateful: bool) -> bool
    decreases a,
{
    exists|i: int| 0 <= i < a.len() && stmt_uses(#[trigger] a[i], stateful)
}

/// Whether the walk of a statement meets a component of the given
/// classification, and so needs that classification's base class.
pub open spec fn stmt_uses(a: Stmt, stateful: bool) -> bool
    decreases a,
{
    match a {
        Stmt::FnDecl { ident, function } => match classification_of(function) {
            Classification::NotAComponent => function_uses(function, stateful),
            c => is_class(c, stateful),
        },
        Stmt::VarDecl { keyword, decls } => decls_use(decls@, true, stateful),
        Stmt::Return(arg) => opt_expr_uses(arg, stateful),
        Stmt::If { test, cons, alt } => expr_uses(test, stateful) || stmt_uses(*cons, stateful)
            || (alt matches Some(x) && stmt_uses(*x, stateful)),
        Stmt::Block(s) => stmts_use(s@, stateful),
        Stmt::Switch { discriminant, cases } => expr_uses(discriminant, stateful) || exists|
            i: int,
        |
            0 <= i < cases@.len() && case_uses(#[trigger] cases@[i], stateful),
        Stmt::Try { block, handler, finalizer } => stmts_use(block@, stateful) || opt_stmts_use(
            handler,
            stateful,
        ) || opt_stmts_use(finalizer, stateful),
        Stmt::Loop { kind, head, body } => exprs_use(head@, stateful) || stmt_uses(
            *body,
            stateful,
        ),
        Stmt::Labeled { label, body } => stmt_uses(*body, stateful),
        Stmt::Expr(e) => expr_uses(e, stateful),
        Stmt::ClassDecl { ident, class } => class_uses(class, stateful),
        Stmt::Other { token, children } => exprs_use(children@, stateful),
    }
}

/// The classification under which a declarator is rewritten, or
/// `NotAComponent` where it is not.
fn component_kind(d: &VarDeclarator) -> (r: Classification)
    ensures
        declares_component(*d) ==> r == arrow_classification(*d.init->0->Arrow_0),
        !declares_component(*d) ==> r == Classification::NotAComponent,
{
    match (&d.name, &d.init) {
        (Pat::Ident(_), Some(Expr::Arrow(a))) => classify_arrow(a),
        _ => Classification::NotAComponent,
    }
}

pub(crate) fn stateful_kind(c: Classification) -> (r: bool)
    ensures
        r == (c == Classification::Stateful),
{
    match c {
        Classification::Stateful => true,
        _ => false,
    }
}

impl RaskComponentTransform {
    /// Walks the statements of a function's body, so that components
    /// declared inside another function are found.
    pub fn visit_mut_function(&mut self, func: Function) -> (r: Function)
        requires
            old(self).wf(),
        ensures
            function_walked(func, r),
            final(self).advanced(*old(self), function_uses(func, true), function_uses(func, false)),
        decreases func,
    {
        let body = self.walk_opt_stmts(func.body);
        Function {
            params: func.params,
            body,
            is_generator: func.is_generator,
            is_async: func.is_async,
            type_params: func.type_params,
            return_type: func.return_type,
        }
    }

    pub(crate) fn walk_arrow(&mut self, arrow: ArrowExpr) -> (r: ArrowExpr)
        requires
            old(self).wf(),
        ensures
            arrow_walked(arrow, r),
            final(self).advanced(*old(self), arrow_uses(arrow, true), arrow_uses(arrow, false)),
        decreases arrow,
    {
        let body = match arrow.body {
            ArrowBody::Expr(e) => ArrowBody::Expr(Box::new(self.walk_expr(*e))),
            ArrowBody::Block(s) => ArrowBody::Block(self.walk_stmts(s)),
        };
        ArrowExpr {
            params: arrow.params,
            body,
            is_generator: arrow.is_generator,
            is_async: arrow.is_async,
            type_params: arrow.type_params,
            return_type: arrow.return_type,
        }
    }

    fn walk_member(&mut self, member: ClassMember) -> (r: ClassMember)
        requires
            old(self).wf(),
        ensures
            member_walked(member, r),
            final(self).advanced(*old(self), member_uses(member, true), member_uses(member, false)),
        decreases member,
    {
        match member {
            ClassMember::Prop { key, value, is_static } => {
                let value = self.walk_opt_expr(value);
                ClassMember::Prop { key, value, is_static }
            },
            ClassMember::Method { key, function, is_static } => {
                let function = self.visit_mut_function(function);
                ClassMember::Method { key, function, is_static }
            },
            other => other,
        }
    }

    /// Walks a class, unless it is one that the transform made.
    pub fn walk_class(&mut self, class: Class) -> (r: Class)
        requires
            old(self).wf(),
        ensures
            class_walked(class, r),
            final(self).advanced(*old(self), class_uses(class, true), class_uses(class, false)),
        decreases class,
    {
        let made = match &class.super_class {
            Some(e) => match &**e {
                Expr::Ident(id) => id.private,
                _ => false,
            },
            None => false,
        };
        if made {
            return class;
        }
        let super_class = match class.super_class {
            Some(e) => Some(Box::new(self.walk_expr(*e))),
            None => None,
        };
        let body = self.walk_members(class.body);
        Class {
            body,
            super_class,
            has_constructor: class.has_constructor,
            decorators: class.decorators,
            type_params: class.type_params,
            implements: class.implements,
        }
    }

    fn walk_opt_expr(&mut self, e: Option<Expr>) -> (r: Option<Expr>)
        requires
            old(self).wf(),
        ensures
            opt_expr_walked(e, r),
            final(self).advanced(*old(self), opt_expr_uses(e, true), opt_expr_uses(e, false)),
        decreases e,
    {
        match e {
            Some(inner) => Some(self.walk_expr(inner)),
            None => None,
        }
    }

    fn walk_opt_stmts(&mut self, s: Option<Vec<Stmt>>) -> (r: Option<Vec<Stmt>>)
        requires
            old(self).wf(),
        ensures
            opt_stmts_walked(s, r),
            final(self).advanced(*old(self), opt_stmts_use(s, true), opt_stmts_use(s, false)),
        decreases s,
    {
        match s {
            Some(inner) => Some(self.walk_stmts(inner)),
            None => None,
        }
    }

    /// Walks an expression: the statements inside its functions are walked,
    /// the expression keeps its shape.
    pub fn walk_expr(&mut self, e: Expr) -> (r: Expr)
        requires
            old(self).wf(),
        ensures
            expr_walked(e, r),
            final(self).advanced(*old(self), expr_uses(e, true), expr_uses(e, false)),
        decreases e,
    {
        match e {
            Expr::Call { callee, args } => {
                let callee = self.walk_expr(*callee);
                let args = self.walk_exprs(args);
                Expr::Call { callee: Box::new(callee), args }
            },
            Expr::Paren(inner) => Expr::Paren(Box::new(self.walk_expr(*inner))),
            Expr::Cond { test, cons, alt } => {
                let test = self.walk_expr(*test);
                let cons = self.walk_expr(*cons);
                let alt = self.walk_expr(*alt);
                Expr::Cond { test: Box::new(test), cons: Box::new(cons), alt: Box::new(alt) }
            },
            Expr::Bin { op, left, right } => {
                let left = self.walk_expr(*left);
                let right = self.walk_expr(*right);
                Expr::Bin { op, left: Box::new(left), right: Box::new(right) }
            },
            Expr::Array(elems) => Expr::Array(self.walk_elems(elems)),
            Expr::Arrow(arrow) => Expr::Arrow(Box::new(self.walk_arrow(*arrow))),
            Expr::Member { obj, prop } => {
                let obj = self.walk_expr(*obj);
                let prop = self.walk_expr(*prop);
                Expr::Member { obj: Box::new(obj), prop: Box::new(prop) }
            },
            Expr::Unary { op, arg } => Expr::Unary { op, arg: Box::new(self.walk_expr(*arg)) },
            Expr::Fn(f) => {
                let FnExpr { ident, function } = *f;
                let function = self.visit_mut_function(function);
                Expr::Fn(Box::new(FnExpr { ident, function }))
            },
            Expr::Class(c) => {
                let ClassExpr { ident, class } = *c;
                let class = self.walk_class(class);
                Expr::Class(Box::new(ClassExpr { ident, class }))
            },
            Expr::Other { token, children } => {
                let children = self.walk_exprs(children);
                Expr::Other { token, children }
            },
            other => other,
        }
    }

    fn walk_decl(&mut self, d: VarDeclarator, components: bool) -> (r: VarDeclarator)
        requires
            old(self).wf(),
        ensures
            decl_walked(d, r, components),
            final(self).advanced(
                *old(self),
                decl_uses(d, components, true),
                decl_uses(d, components, false),
            ),
        decreases d,
    {
        let kind = if components {
            component_kind(&d)
        } else {
            Classification::NotAComponent
        };
        match kind {
            Classification::NotAComponent => {
                let init = self.walk_opt_expr(d.init);
                VarDeclarator { name: d.name, init }
            },
            c => match (d.name, d.init) {
                (Pat::Ident(id), Some(Expr::Arrow(arrow))) => {
                    let func = self.arrow_to_function(*arrow);
                    let class = self.create_component_class_expr(id.dup(), func, stateful_kind(c));
                    VarDeclarator {
                        name: Pat::Ident(id),
                        init: Some(Expr::Class(Box::new(class))),
                    }
                },
                (name, init) => VarDeclarator { name, init },
            },
        }
    }

    fn walk_case(&mut self, case: SwitchCase) -> (r: SwitchCase)
        requires
            old(self).wf(),
        ensures
            case_walked(case, r),
            final(self).advanced(*old(self), case_uses(case, true), case_uses(case, false)),
        decreases case,
    {
        let test = self.walk_opt_expr(case.test);
        let cons = self.walk_stmts(case.cons);
        SwitchCase { test, cons }
    }

    /// Walks each statement of a list, in order.
    #[verifier::loop_isolation(false)]
    fn walk_stmts(&mut self, list: Vec<Stmt>) -> (r: Vec<Stmt>)
        requires
            old(self).wf(),
        ensures
            stmts_walked(list@, r@),
            final(self).advanced(*old(self), stmts_use(list@, true), stmts_use(list@, false)),
        decreases list,
    {
        let ghost items = list@;
        let ghost start = *self;
        let mut rest = reversed(list);
        let mut out: Vec<Stmt> = Vec::new();
        while rest.len() > 0
            invariant
                rest@.len() + out@.len() == items.len(),
                forall|i: int|
                    0 <= i < rest@.len() ==> #[trigger] rest@[i] == items[items.len() - 1 - i],
                forall|i: int| 0 <= i < out@.len() ==> stmt_walked(#[trigger] items[i], out@[i]),
                self.advanced(
                    start,
                    exists|j: int| 0 <= j < out@.len() && stmt_uses(#[trigger] items[j], true),
                    exists|j: int| 0 <= j < out@.len() && stmt_uses(#[trigger] items[j], false),
                ),
            decreases rest.len(),
        {
            let ghost k = out@.len() as int;
            match rest.pop() {
                Some(item) => {
                    assert(item == items[k]);
                    let next = self.visit_mut_stmt(item);
                    out.push(next);
                },
                None => {},
            }
        }
        out
    }

    /// Walks each expression of a list, in order.
    #[verifier::loop_isolation(false)]
    fn walk_exprs(&mut self, list: Vec<Expr>) -> (r: Vec<Expr>)
        requires
            old(self).wf(),
        ensures
            exprs_walked(list@, r@),
            final(self).advanced(*old(self), exprs_use(list@, true), exprs_use(list@, false)),
        decreases list,
    {
        let ghost items = list@;
        let ghost start = *self;
        let mut rest = reversed(list);
        let mut out: Vec<Expr> = Vec::new();
        while rest.len() > 0
            invariant
                rest@.len() + out@.len() == items.len(),
                forall|i: int|
                    0 <= i < rest@.len() ==> #[trigger] rest@[i] == items[items.len() - 1 - i],
                forall|i: int| 0 <= i < out@.len() ==> expr_walked(#[trigger] items[i], out@[i]),
                self.advanced(
                    start,
                    exists|j: int| 0 <= j < out@.len() && expr_uses(#[trigger] items[j], true),
                    exists|j: int| 0 <= j < out@.len() && expr_uses(#[trigger] items[j], false),
                ),
            decreases rest.len(),
        {
            let ghost k = out@.len() as int;
            match rest.pop() {
                Some(item) => {
                    assert(item == items[k]);
                    let next = self.walk_expr(item);
                    out.push(next);
                },
                None => {},
            }
        }
        out
    }

    /// Walks each element of an array literal, in order.
    #[verifier::loop_isolation(false)]
    fn walk_elems(&mut self, list: Vec<Option<Expr>>) -> (r: Vec<Option<Expr>>)
        requires
            old(self).wf(),
        ensures
            r@.len() == list@.len() && forall|i: int| 0 <= i < list@.len() ==> opt_expr_walked(#[trigger] list@[i], r@[i]),
            final(self).advanced(*old(self), exists|i: int| 0 <= i < list@.len() && opt_expr_uses(#[trigger] list@[i], true), exists|i: int| 0 <= i < list@.len() && opt_expr_uses(#[trigger] list@[i], false)),
        decreases list,
    {
        let ghost items = list@;
        let ghost start = *self;
        let mut rest = reversed(list);
        let mut out: Vec<Option<Expr>> = Vec::new();
        while rest.len() > 0
            invariant
                rest@.len() + out@.len() == items.len(),
                forall|i: int|
                    0 <= i < rest@.len() ==> #[trigger] rest@[i] == items[items.len() - 1 - i],
                forall|i: int| 0 <= i < out@.len() ==> opt_expr_walked(#[trigger] items[i], out@[i]),
                self.advanced(
                    start,
                    exists|j: int| 0 <= j < out@.len() && opt_expr_uses(#[trigger] items[j], true),
                    exists|j: int| 0 <= j < out@.len() && opt_expr_uses(#[trigger] items[j], false),
                ),
            decreases rest.len(),
        {
            let ghost k = out@.len() as int;
            match rest.pop() {
                Some(item) => {
                    assert(item == items[k]);
                    let next = self.walk_opt_expr(item);
                    out.push(next);
                },
                None => {},
            }
        }
        out
    }

    /// Walks each case of a `switch`, in order.
    #[verifier::loop_isolation(false)]
    fn walk_cases(&mut self, list: Vec<SwitchCase>) -> (r: Vec<SwitchCase>)
        requires
            old(self).wf(),
        ensures
            r@.len() == list@.len() && forall|i: int| 0 <= i < list@.len() ==> case_walked(#[trigger] list@[i], r@[i]),
            final(self).advanced(*old(self), exists|i: int| 0 <= i < list@.len() && case_uses(#[trigger] list@[i], true), exists|i: int| 0 <= i < list@.len() && case_uses(#[trigger] list@[i], false)),
        decreases list,
    {
        let ghost items = list@;
        let ghost start = *self;
        let mut rest = reversed(list);
        let mut out: Vec<SwitchCase> = Vec::new();
        while rest.len() > 0
            invariant
                rest@.len() + out@.len() == items.len(),
                forall|i: int|
                    0 <= i < rest@.len() ==> #[trigger] rest@[i] == items[items.len() - 1 - i],
                forall|i: int| 0 <= i < out@.len() ==> case_walked(#[trigger] items[i], out@[i]),
                self.advanced(
                    start,
                    exists|j: int| 0 <= j < out@.len() && case_uses(#[trigger] items[j], true),
                    exists|j: int| 0 <= j < out@.len() && case_uses(#[trigger] items[j], false),
                ),
            decreases rest.len(),
        {
            let ghost k = out@.len() as int;
            match rest.pop() {
                Some(item) => {
                    assert(item == items[k]);
                    let next = self.walk_case(item);
                    out.push(next);
                },
                None => {},
            }
        }
        out
    }

    /// Walks each member of a class, in order.
    #[verifier::loop_isolation(false)]
    fn walk_members(&mut self, list: Vec<ClassMember>) -> (r: Vec<ClassMember>)
        requires
            old(self).wf(),
        ensures
            r@.len() == list@.len() && forall|i: int| 0 <= i < list@.len() ==> member_walked(#[trigger] list@[i], r@[i]),
            final(self).advanced(*old(self), exists|i: int| 0 <= i < list@.len() && member_uses(#[trigger] list@[i], true), exists|i: int| 0 <= i < list@.len() && member_uses(#[trigger] list@[i], false)),
        decreases list,
    {
        let ghost items = list@;
        let ghost start = *self;
        let mut rest = reversed(list);
        let mut out: Vec<ClassMember> = Vec::new();
        while rest.len() > 0
            invariant
                rest@.len() + out@.len() == items.len(),
                forall|i: int|
                    0 <= i < rest@.len() ==> #[trigger] rest@[i] == items[items.len() - 1 - i],
                forall|i: int| 0 <= i < out@.len() ==> member_walked(#[trigger] items[i], out@[i]),
                self.advanced(
                    start,
                    exists|j: int| 0 <= j < out@.len() && member_uses(#[trigger] items[j], true),
                    exists|j: int| 0 <= j < out@.len() && member_uses(#[trigger] items[j], false),
                ),
            decreases rest.len(),
        {
            let ghost k = out@.len() as int;
            match rest.pop() {
                Some(item) => {
                    assert(item == items[k]);
                    let next = self.walk_member(item);
                    out.push(next);
                },
                None => {},
            }
        }
        out
    }

    /// Walks each declarator of a variable declaration, in order.
    #[verifier::loop_isolation(false)]
    pub(crate) fn walk_decls(&mut self, list: Vec<VarDeclarator>, components: bool) -> (r: Vec<VarDeclarator>)
        requires
            old(self).wf(),
        ensures
            decls_walked(list@, r@, components),
            final(self).advanced(*old(self), decls_use(list@, components, true), decls_use(list@, components, false)),
        decreases list,
    {
        let ghost items = list@;
        let ghost start = *self;
        let mut rest = reversed(list);
        let mut out: Vec<VarDeclarator> = Vec::new();
        while rest.len() > 0
            invariant
                rest@.len() + out@.len() == items.len(),
                forall|i: int|
                    0 <= i < rest@.len() ==> #[trigger] rest@[i] == items[items.len() - 1 - i],
                forall|i: int| 0 <= i < out@.len() ==> decl_walked(#[trigger] items[i], out@[i], components),
                self.advanced(
                    start,
                    exists|j: int| 0 <= j < out@.len() && decl_uses(#[trigger] items[j], components, true),
                    exists|j: int| 0 <= j < out@.len() && decl_uses(#[trigger] items[j], components, false),
                ),
            decreases rest.len(),
        {
            let ghost k = out@.len() as int;
            match rest.pop() {
                Some(item) => {
                    assert(item == items[k]);
                    let next = self.walk_decl(item, components);
                    out.push(next);
                },
                None => {},
            }
        }
        out
    }

    /// Walks a statement: a function declaration or an arrow function bound
    /// to a plain name that classifies as a component becomes its class;
    /// everything else keeps its shape and is walked inside.
    pub fn visit_mut_stmt(&mut self, stmt: Stmt) -> (r: Stmt)
        requires
            old(self).wf(),
        ensures
            stmt_walked(stmt, r),
            final(self).advanced(*old(self), stmt_uses(stmt, true), stmt_uses(stmt, false)),
        decreases stmt,
    {
        match stmt {
            Stmt::FnDecl { ident, function } => match classify(&function) {
                Classification::Stateful => self.transform_to_stateful_class(ident, function),
                Classification::Stateless => self.transform_to_stateless_class(ident, function),
                Classification::NotAComponent => {
                    let function = self.visit_mut_function(function);
                    Stmt::FnDecl { ident, function }
                },
            },
            Stmt::VarDecl { keyword, decls } => {
                let decls = self.walk_decls(decls, true);
                Stmt::VarDecl { keyword, decls }
            },
            Stmt::Return(arg) => Stmt::Return(self.walk_opt_expr(arg)),
            Stmt::If { test, cons, alt } => {
                let test = self.walk_expr(test);
                let cons = self.visit_mut_stmt(*cons);
                let alt = match alt {
                    Some(other) => Some(Box::new(self.visit_mut_stmt(*other))),
                    None => None,
                };
                Stmt::If { test, cons: Box::new(cons), alt }
            },
            Stmt::Block(stmts) => Stmt::Block(self.walk_stmts(stmts)),
            Stmt::Switch { discriminant, cases } => {
                let discriminant = self.walk_expr(discriminant);
                let cases = self.walk_cases(cases);
                Stmt::Switch { discriminant, cases }
            },
            Stmt::Try { block, handler, finalizer } => {
                let block = self.walk_stmts(block);
                let handler = self.walk_opt_stmts(handler);
                let finalizer = self.walk_opt_stmts(finalizer);
                Stmt::Try { block, handler, finalizer }
            },
            Stmt::Loop { kind, head, body } => {
                let head = self.walk_exprs(head);
                let body = self.visit_mut_stmt(*body);
                Stmt::Loop { kind, head, body: Box::new(body) }
            },
            Stmt::Labeled { label, body } => {
                let body = self.visit_mut_stmt(*body);
                Stmt::Labeled { label, body: Box::new(body) }
            },
            Stmt::Expr(e) => Stmt::Expr(self.walk_expr(e)),
            Stmt::ClassDecl { ident, class } => {
                let class = self.walk_class(class);
                Stmt::ClassDecl { ident, class }
            },
            Stmt::Other { token, children } => {
                let children = self.walk_exprs(children);
                Stmt::Other { token, children }
            },
        }
    }
}

} // verus!
