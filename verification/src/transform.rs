//! The transform of a whole module: the walk over its items, then the two
//! passes over its imports.

use vstd::prelude::*;
use vstd::string::StringExecFns;
use crate::ast::{Expr, FnExpr, Ident, Module, ModuleItem, Stmt};
use crate::classify::{Classification, classification_of, arrow_classification, classify, classify_arrow};
use crate::rewrite::{RaskComponentTransform, Config, component_class_of, component_function, is_canonical_of, source_of, DEFAULT_NAME};
use crate::imports::{sources_rewritten, injected};
use crate::walk::{class_walked, class_uses, stmt_walked, stmt_uses, decls_walked, decls_use, function_walked, function_uses, expr_walked, expr_uses, is_class, is_default_name, stateful_kind};
use crate::text::reversed;

verus! {

/// The name of a default export's class: the function's own name, or the
/// default name where it has none.
pub open spec fn default_named(own: Option<Ident>, name: Ident) -> bool {
    match own {
        Some(id) => name == id,
        None => is_default_name(name),
    }
}

/// Whether a default-exported expression is rewritten as a component: an
/// arrow function that classifies as one.
pub open spec fn exports_component(e: Expr) -> bool {
    e matches Expr::Arrow(a) && arrow_classification(*a) != Classification::NotAComponent
}

/// What the walk makes of an exported declaration: a function or class
/// declaration is treated as any other; the initializers of a variable
/// declaration are walked but never replaced; nothing else changes.
pub open spec fn export_walked(a: Stmt, b: Stmt) -> bool {
    match a {
        Stmt::FnDecl { ident, function } => stmt_walked(a, b),
        Stmt::VarDecl { keyword, decls } => b matches Stmt::VarDecl { keyword: k2, decls: d2 }
            && k2 == keyword && decls_walked(decls@, d2@, false),
        Stmt::ClassDecl { ident, class } => stmt_walked(a, b),
        _ => b == a,
    }
}

/// Whether the walk of an exported declaration meets a component of the given classification.
pub open spec fn export_uses(a: Stmt, stateful: bool) -> bool {
    match a {
        Stmt::FnDecl { ident, function } => stmt_uses(a, stateful),
        Stmt::VarDecl { keyword, decls } => decls_use(decls@, false, stateful),
        Stmt::ClassDecl { ident, class } => stmt_uses(a, stateful),
        _ => false,
    }
}

/// What the walk makes of a module item. A default-exported function or
/// arrow function that classifies as a component becomes a class under the
/// function's own name, or under the default name.
pub open spec fn item_walked(a: ModuleItem, b: ModuleItem) -> bool {
    match a {
        ModuleItem::Stmt(s) => b matches ModuleItem::Stmt(s2) && stmt_walked(s, s2),
        ModuleItem::ExportDecl(s) => b matches ModuleItem::ExportDecl(s2) && export_walked(
            s,
            s2,
        ),
        ModuleItem::ExportDefaultFn(f) => match classification_of(f.function) {
            Classification::NotAComponent => b matches ModuleItem::ExportDefaultFn(f2)
                && f2.ident == f.ident && function_walked(f.function, f2.function),
            c => b matches ModuleItem::ExportDefaultClass(ce) && ce.ident matches Some(name)
                && default_named(f.ident, name) && component_class_of(
                ce.class,
                c == Classification::Stateful,
                name,
                f.function,
            ),
        },
        ModuleItem::ExportDefaultExpr(e) => if exports_component(e) {
            &&& b matches ModuleItem::ExportDefaultExpr(Expr::Class(ce))
            &&& ce.ident matches Some(name)
            &&& is_default_name(name)
            &&& is_canonical_of(component_function(ce.class), *e->Arrow_0)
            &&& component_class_of(
                ce.class,
                arrow_classification(*e->Arrow_0) == Classification::Stateful,
                name,
                component_function(ce.class),
            )
        } else {
            b matches ModuleItem::ExportDefaultExpr(e2) && expr_walked(e, e2)
        },
        ModuleItem::ExportDefaultClass(c) => b matches ModuleItem::ExportDefaultClass(c2)
            && c2.ident == c.ident && class_walked(c.class, c2.class),
        _ => b == a,
    }
}

/// Whether the walk of a module item meets a component of the given
/// classification.
pub open spec fn item_uses(a: ModuleItem, stateful: bool) -> bool {
    match a {
        ModuleItem::Stmt(s) => stmt_uses(s, stateful),
        ModuleItem::ExportDecl(s) => export_uses(s, stateful),
        ModuleItem::ExportDefaultFn(f) => match classification_of(f.function) {
            Classification::NotAComponent => function_uses(f.function, stateful),
            c => is_class(c, stateful),
        },
        ModuleItem::ExportDefaultExpr(e) => if exports_component(e) {
            is_class(arrow_classification(*e->Arrow_0), stateful)
        } else {
            expr_uses(e, stateful)
        },
        ModuleItem::ExportDefaultClass(c) => class_uses(c.class, stateful),
        _ => false,
    }
}

/// The walk of a module: item by item, in place.
pub open spec fn items_walked(a: Seq<ModuleItem>, b: Seq<ModuleItem>) -> bool {
    &&& b.len() == a.len()
    &&& forall|i: int| 0 <= i < a.len() ==> item_walked(#[trigger] a[i], b[i])
}

/// Whether the walk of a list of module items meets a component of the given classification.
pub open spec fn items_use(a: Seq<ModuleItem>, stateful: bool) -> bool {
    exists|i: int| 0 <= i < a.len() && item_uses(#[trigger] a[i], stateful)
}

/// What the transform makes of module `a` when it ends in state `t`: the
/// items are walked, then imports of the framework are pointed at the
/// compiler source, then the base classes that `t` holds are imported.
pub open spec fn module_transformed(t: RaskComponentTransform, a: Module, r: Module) -> bool {
    exists|w: Seq<ModuleItem>, s: Module|
        {
            &&& #[trigger] items_walked(a.body@, w)
            &&& sources_rewritten(w, s.body@, source_of(t.config()))
            &&& #[trigger] injected(t, s, r)
        }
}

/// What one run with the options `config` makes of a module: the transform
/// from a fresh state, which ends holding exactly the base classes of the
/// classifications that the walk met.
pub open spec fn processed(config: Config, a: Module, r: Module) -> bool {
    exists|t: RaskComponentTransform|
        {
            &&& t.wf()
            &&& t.config() == config
            &&& t.stateful_binding() is Some <==> items_use(a.body@, true)
            &&& t.stateless_binding() is Some <==> items_use(a.body@, false)
            &&& #[trigger] module_transformed(t, a, r)
        }
}

/// The name for a default export that has none.
fn default_name() -> (r: Ident)
    ensures
        is_default_name(r),
{
    Ident { sym: String::from_str(DEFAULT_NAME), private: false }
}

impl RaskComponentTransform {
    /// Walks one module item.
    pub fn visit_mut_module_item(&mut self, item: ModuleItem) -> (r: ModuleItem)
        requires
            old(self).wf(),
        ensures
            item_walked(item, r),
            final(self).advanced(*old(self), item_uses(item, true), item_uses(item, false)),
    {
        match item {
            ModuleItem::Stmt(s) => ModuleItem::Stmt(self.visit_mut_stmt(s)),
            ModuleItem::ExportDecl(s) => {
                let inner = match s {
                    Stmt::FnDecl { ident, function } => self.visit_mut_stmt(
                        Stmt::FnDecl { ident, function },
                    ),
                    Stmt::VarDecl { keyword, decls } => {
                        let decls = self.walk_decls(decls, false);
                        Stmt::VarDecl { keyword, decls }
                    },
                    Stmt::ClassDecl { ident, class } => self.visit_mut_stmt(
                        Stmt::ClassDecl { ident, class },
                    ),
                    other => other,
                };
                ModuleItem::ExportDecl(inner)
            },
            ModuleItem::ExportDefaultFn(f) => {
                let FnExpr { ident, function } = f;
                match classify(&function) {
                    Classification::NotAComponent => {
                        let function = self.visit_mut_function(function);
                        ModuleItem::ExportDefaultFn(FnExpr { ident, function })
                    },
                    c => {
                        let name = match ident {
                            Some(id) => id,
                            None => default_name(),
                        };
                        let class = self.create_component_class_expr(
                            name,
                            function,
                            stateful_kind(c),
                        );
                        ModuleItem::ExportDefaultClass(class)
                    },
                }
            },
            ModuleItem::ExportDefaultExpr(e) => match e {
                Expr::Arrow(arrow) => match classify_arrow(&arrow) {
                    Classification::NotAComponent => {
                        let arrow = self.walk_arrow(*arrow);
                        ModuleItem::ExportDefaultExpr(Expr::Arrow(Box::new(arrow)))
                    },
                    c => {
                        let func = self.arrow_to_function(*arrow);
                        let class = self.create_component_class_expr(
                            default_name(),
                            func,
                            stateful_kind(c),
                        );
                        ModuleItem::ExportDefaultExpr(Expr::Class(Box::new(class)))
                    },
                },
                other => ModuleItem::ExportDefaultExpr(self.walk_expr(other)),
            },
            ModuleItem::ExportDefaultClass(c) => {
                let class = self.walk_class(c.class);
                ModuleItem::ExportDefaultClass(crate::ast::ClassExpr { ident: c.ident, class })
            },
            other => other,
        }
    }

    /// Walks the items of a module, in order.
    #[verifier::loop_isolation(false)]
    pub fn walk_items(&mut self, list: Vec<ModuleItem>) -> (r: Vec<ModuleItem>)
        requires
            old(self).wf(),
        ensures
            items_walked(list@, r@),
            final(self).advanced(*old(self), items_use(list@, true), items_use(list@, false)),
    {
        let ghost items = list@;
        let ghost start = *self;
        let mut rest = reversed(list);
        let mut out: Vec<ModuleItem> = Vec::new();
        while rest.len() > 0
            invariant
                rest@.len() + out@.len() == items.len(),
                forall|i: int|
                    0 <= i < rest@.len() ==> #[trigger] rest@[i] == items[items.len() - 1 - i],
                forall|i: int| 0 <= i < out@.len() ==> item_walked(#[trigger] items[i], out@[i]),
                self.advanced(
                    start,
                    exists|j: int| 0 <= j < out@.len() && item_uses(#[trigger] items[j], true),
                    exists|j: int| 0 <= j < out@.len() && item_uses(#[trigger] items[j], false),
                ),
            decreases rest.len(),
        {
            let ghost k = out@.len() as int;
            match rest.pop() {
                Some(item) => {
                    assert(item == items[k]);
                    let next = self.visit_mut_module_item(item);
                    out.push(next);
                },
                None => {},
            }
        }
        out
    }

    /// Transforms a module: walks its items, points imports of the
    /// framework at the compiler source, and imports the base classes that
    /// are in use.
    pub fn visit_mut_module(&mut self, module: Module) -> (r: Module)
        requires
            old(self).wf(),
        ensures
            module_transformed(*final(self), module, r),
            final(self).advanced(
                *old(self),
                items_use(module.body@, true),
                items_use(module.body@, false),
            ),
    {
        let walked = Module { body: self.walk_items(module.body) };
        let ghost w = walked.body@;
        let pointed = self.rewrite_inferno_imports(walked);
        let r = self.inject_runtime(pointed);
        assert(items_walked(module.body@, w) && sources_rewritten(
            w,
            pointed.body@,
            source_of(self.config()),
        ) && injected(*self, pointed, r));
        r
    }
}

/// Transforms `program` under the options `config`, from a fresh state.
pub fn process_transform(program: Module, config: Config) -> (r: Module)
    ensures
        processed(config, program, r),
{
    let mut transform = RaskComponentTransform::new(config);
    let r = transform.visit_mut_module(program);
    assert(module_transformed(transform, program, r));
    r
}

} // verus!
