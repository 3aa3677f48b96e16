//! Turning a classified function into a class that extends the runtime base
//! class of its classification.

use vstd::prelude::*;
use vstd::string::StringExecFns;
use crate::ast::{ArrowBody, ArrowExpr, Class, ClassExpr, ClassMember, Expr, FnExpr, Function, Ident, Stmt};
use crate::text::same_text;
use crate::classify::{canonical_body, classification_of, arrow_classification};

verus! {

pub const STATEFUL_BASE: &'static str = "RaskStatefulComponent";
pub const STATELESS_BASE: &'static str = "RaskStatelessComponent";
pub const DEFAULT_SOURCE: &'static str = "rask-ui";
pub const SETUP_KEY: &'static str = "setup";
pub const RENDER_KEY: &'static str = "renderFn";
pub const DEFAULT_NAME: &'static str = "DefaultComponent";

/// Options of one run. `import_source` is the package that the base classes
/// are imported from; without it the default package is used.
#[derive(Debug, PartialEq, Eq, Default)]
pub struct Config {
    pub import_source: Option<String>,
}

/// The package that `config` names, or the default one.
pub open spec fn source_of(config: Config) -> Seq<char> {
    match config.import_source {
        Some(s) => s@,
        None => "rask-ui"@,
    }
}

/// The state of one module's transform: the options, and for each
/// classification the binding of its base class once a component needed it.
pub struct RaskComponentTransform {
    config: Config,
    import_rask_stateful_component: Option<Ident>,
    import_rask_stateless_component: Option<Ident>,
}

/// Whether `id` is the private binding of the base class called `base`.
pub open spec fn is_binding(id: Ident, base: Seq<char>) -> bool {
    id.private && id.sym@ == base
}

/// The name of the property that holds a component's function.
pub open spec fn prop_key(stateful: bool) -> Seq<char> {
    if stateful {
        "setup"@
    } else {
        "renderFn"@
    }
}

/// The name of the base class of a classification.
pub open spec fn base_name(stateful: bool) -> Seq<char> {
    if stateful {
        "RaskStatefulComponent"@
    } else {
        "RaskStatelessComponent"@
    }
}

/// The shape of a class that stands for a component: one instance property
/// `key` whose value is the function `func` under the name `name`, the
/// superclass `base`, no constructor, no decorators, no type parameters and
/// no `implements`.
pub open spec fn is_component_class(
    class: Class,
    key: Seq<char>,
    base: Ident,
    name: Ident,
    func: Function,
) -> bool {
    &&& class.body@.len() == 1
    &&& class.body@[0] matches ClassMember::Prop { key: k, value, is_static }
    &&& k@ == key
    &&& !is_static
    &&& value == Some(Expr::Fn(Box::new(FnExpr { ident: Some(name), function: func })))
    &&& class.super_class == Some(Box::new(Expr::Ident(base)))
    &&& !class.has_constructor
    &&& class.decorators@.len() == 0
    &&& class.type_params is None
    &&& class.implements@.len() == 0
}

/// The function that a component class holds in its one property.
pub open spec fn component_function(class: Class) -> Function {
    class.body@[0]->value->0->Fn_0.function
}

/// `class` stands for the component `func` called `name`: the component
/// class of its classification, extending the private binding of that
/// classification's base class.
pub open spec fn component_class_of(class: Class, stateful: bool, name: Ident, func: Function) -> bool {
    &&& class.super_class matches Some(e)
    &&& *e matches Expr::Ident(id)
    &&& is_binding(id, base_name(stateful))
    &&& is_component_class(class, prop_key(stateful), id, name, func)
}

/// `f` is the canonical form of the arrow function `a`: same parameters,
/// flags and annotations, and the arrow's canonical body.
pub open spec fn is_canonical_of(f: Function, a: ArrowExpr) -> bool {
    &&& f.params == a.params
    &&& f.is_generator == a.is_generator
    &&& f.is_async == a.is_async
    &&& f.type_params == a.type_params
    &&& f.return_type == a.return_type
    &&& f.body matches Some(stmts)
    &&& stmts@ == canonical_body(a)
    &&& (a.body matches ArrowBody::Block(b) ==> stmts == b)
}

/// Builds the one-member class of a component.
fn component_class(key: &str, base: Ident, name: Ident, func: Function) -> (class: Class)
    ensures
        is_component_class(class, key@, base, name, func),
{
    let member = ClassMember::Prop {
        key: String::from_str(key),
        value: Some(Expr::Fn(Box::new(FnExpr { ident: Some(name), function: func }))),
        is_static: false,
    };
    let mut body: Vec<ClassMember> = Vec::new();
    body.push(member);
    Class {
        body,
        super_class: Some(Box::new(Expr::Ident(base))),
        has_constructor: false,
        decorators: Vec::new(),
        type_params: None,
        implements: Vec::new(),
    }
}

impl RaskComponentTransform {
    /// The options of this run.
    pub closed spec fn config(&self) -> Config {
        self.config
    }

    /// The binding of the stateful base class, once one was needed.
    pub closed spec fn stateful_binding(&self) -> Option<Ident> {
        self.import_rask_stateful_component
    }

    /// The binding of the stateless base class, once one was needed.
    pub closed spec fn stateless_binding(&self) -> Option<Ident> {
        self.import_rask_stateless_component
    }

    /// The binding of the base class of a classification.
    pub open spec fn binding(&self, stateful: bool) -> Option<Ident> {
        if stateful {
            self.stateful_binding()
        } else {
            self.stateless_binding()
        }
    }

    /// Each binding that exists is the private binding of its base class.
    pub open spec fn wf(&self) -> bool {
        &&& self.stateful_binding() matches Some(id) ==> is_binding(id, base_name(true))
        &&& self.stateless_binding() matches Some(id) ==> is_binding(id, base_name(false))
    }

    /// `self` is `before` after a component of the given classification was
    /// met: that classification's binding exists, and is the earlier one
    /// where there was one; nothing else changed.
    pub open spec fn bound_from(&self, before: Self, stateful: bool) -> bool {
        &&& self.config() == before.config()
        &&& self.binding(stateful) is Some
        &&& before.binding(stateful) is Some ==> self.binding(stateful) == before.binding(stateful)
        &&& self.binding(!stateful) == before.binding(!stateful)
        &&& self.wf()
    }

    /// `self` is `before` after a stretch of the walk in which a stateful
    /// component was met exactly if `st`, and a stateless one exactly if
    /// `sl`: a binding exists afterwards if it did before or its
    /// classification was met, and a binding that existed is kept.
    pub open spec fn advanced(&self, before: Self, st: bool, sl: bool) -> bool {
        &&& self.config() == before.config()
        &&& self.wf()
        &&& before.stateful_binding() is Some ==> self.stateful_binding()
            == before.stateful_binding()
        &&& before.stateless_binding() is Some ==> self.stateless_binding()
            == before.stateless_binding()
        &&& self.stateful_binding() is Some <==> (before.stateful_binding() is Some || st)
        &&& self.stateless_binding() is Some <==> (before.stateless_binding() is Some || sl)
    }

    /// The state that a run starts from: the options, and no binding.
    pub closed spec fn fresh(config: Config) -> Self {
        RaskComponentTransform {
            config,
            import_rask_stateful_component: None,
            import_rask_stateless_component: None,
        }
    }

    /// What the fresh state holds.
    pub proof fn lemma_fresh(config: Config)
        ensures
            Self::fresh(config).config() == config,
            Self::fresh(config).stateful_binding() is None,
            Self::fresh(config).stateless_binding() is None,
            Self::fresh(config).wf(),
    {
    }

    /// A fresh state: no binding yet.
    pub fn new(config: Config) -> (r: Self)
        ensures
            r == Self::fresh(config),
            r.config() == config,
            r.stateful_binding() is None,
            r.stateless_binding() is None,
            r.wf(),
    {
        RaskComponentTransform {
            config,
            import_rask_stateful_component: None,
            import_rask_stateless_component: None,
        }
    }

    /// The options of this run.
    pub fn options(&self) -> (r: &Config)
        ensures
            *r == self.config(),
    {
        &self.config
    }

    /// The binding of the stateful base class, where there is one.
    pub fn stateful(&self) -> (r: &Option<Ident>)
        ensures
            *r == self.stateful_binding(),
    {
        &self.import_rask_stateful_component
    }

    /// The binding of the stateless base class, where there is one.
    pub fn stateless(&self) -> (r: &Option<Ident>)
        ensures
            *r == self.stateless_binding(),
    {
        &self.import_rask_stateless_component
    }

    /// Decides `wf`.
    pub fn well_formed(&self) -> (r: bool)
        ensures
            r == self.wf(),
    {
        let stateful = match &self.import_rask_stateful_component {
            Some(id) => id.private && same_text(id.sym.as_str(), STATEFUL_BASE),
            None => true,
        };
        let stateless = match &self.import_rask_stateless_component {
            Some(id) => id.private && same_text(id.sym.as_str(), STATELESS_BASE),
            None => true,
        };
        stateful && stateless
    }

    /// Whether a stateful component was met.
    pub fn uses_stateful(&self) -> (r: bool)
        ensures
            r == self.stateful_binding() is Some,
    {
        self.import_rask_stateful_component.is_some()
    }

    /// Whether a stateless component was met.
    pub fn uses_stateless(&self) -> (r: bool)
        ensures
            r == self.stateless_binding() is Some,
    {
        self.import_rask_stateless_component.is_some()
    }

    /// The binding of a classification's base class, made on first use.
    fn bind(&mut self, stateful: bool) -> (id: Ident)
        requires
            old(self).wf(),
        ensures
            final(self).bound_from(*old(self), stateful),
            final(self).binding(stateful) == Some(id),
    {
        if stateful {
            if let Some(id) = &self.import_rask_stateful_component {
                return id.dup();
            }
            let id = Ident { sym: String::from_str(STATEFUL_BASE), private: true };
            self.import_rask_stateful_component = Some(id.dup());
            id
        } else {
            if let Some(id) = &self.import_rask_stateless_component {
                return id.dup();
            }
            let id = Ident { sym: String::from_str(STATELESS_BASE), private: true };
            self.import_rask_stateless_component = Some(id.dup());
            id
        }
    }

    /// The class declaration of a stateful component: class `name` with the
    /// property `setup` that holds `func`, extending the stateful binding.
    pub fn transform_to_stateful_class(&mut self, name: Ident, func: Function) -> (r: Stmt)
        requires
            old(self).wf(),
        ensures
            final(self).bound_from(*old(self), true),
            r matches Stmt::ClassDecl { ident, class } && ident == name && is_component_class(
                class,
                prop_key(true),
                final(self).stateful_binding()->0,
                name,
                func,
            ),
    {
        let base = self.bind(true);
        let ident = name.dup();
        Stmt::ClassDecl { ident, class: component_class(SETUP_KEY, base, name, func) }
    }

    /// The class declaration of a stateless component: class `name` with the
    /// property `renderFn` that holds `func`, extending the stateless
    /// binding.
    pub fn transform_to_stateless_class(&mut self, name: Ident, func: Function) -> (r: Stmt)
        requires
            old(self).wf(),
        ensures
            final(self).bound_from(*old(self), false),
            r matches Stmt::ClassDecl { ident, class } && ident == name && is_component_class(
                class,
                prop_key(false),
                final(self).stateless_binding()->0,
                name,
                func,
            ),
    {
        let base = self.bind(false);
        let ident = name.dup();
        Stmt::ClassDecl { ident, class: component_class(RENDER_KEY, base, name, func) }
    }

    /// The class expression of a component, for the places that take an
    /// expression: the same class as the declarations above make.
    pub fn create_component_class_expr(
        &mut self,
        name: Ident,
        func: Function,
        is_stateful: bool,
    ) -> (r: ClassExpr)
        requires
            old(self).wf(),
        ensures
            final(self).bound_from(*old(self), is_stateful),
            r.ident == Some(name),
            is_component_class(
                r.class,
                prop_key(is_stateful),
                final(self).binding(is_stateful)->0,
                name,
                func,
            ),
    {
        let base = self.bind(is_stateful);
        let ident = name.dup();
        let key = if is_stateful {
            SETUP_KEY
        } else {
            RENDER_KEY
        };
        ClassExpr { ident: Some(ident), class: component_class(key, base, name, func) }
    }

    /// The canonical function of an arrow function.
    pub fn arrow_to_function(&self, arrow: ArrowExpr) -> (f: Function)
        ensures
            is_canonical_of(f, arrow),
            classification_of(f) == arrow_classification(arrow),
    {
        let body = match arrow.body {
            ArrowBody::Block(stmts) => stmts,
            ArrowBody::Expr(e) => {
                let mut stmts: Vec<Stmt> = Vec::new();
                stmts.push(Stmt::Return(Some(*e)));
                stmts
            },
        };
        Function {
            params: arrow.params,
            body: Some(body),
            is_generator: arrow.is_generator,
            is_async: arrow.is_async,
            type_params: arrow.type_params,
            return_type: arrow.return_type,
        }
    }
}

} // verus!
