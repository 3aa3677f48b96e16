use rask_component_transform::ast::{
    ArrowBody, ArrowExpr, Class, ClassExpr, ClassMember, Expr, FnExpr, Function, Ident,
    ImportDecl, ImportSpecifier, LoopKind, Module, ModuleItem, Pat, Stmt, SwitchCase,
    VarDeclarator,
};
use rask_component_transform::classify::{
    block_has_vnode_return, classify, classify_arrow, is_rask_component, is_stateless_component,
    stmt_has_vnode_return, Classification,
};
use rask_component_transform::imports::has_import_of;
use rask_component_transform::marker::{has_vnode_call, marker_name};
use rask_component_transform::{process_transform, Config, RaskComponentTransform};

fn id(name: &str) -> Ident {
    Ident { sym: name.to_string(), private: false }
}

fn private(name: &str) -> Ident {
    Ident { sym: name.to_string(), private: true }
}

fn name(s: &str) -> Expr {
    Expr::Ident(id(s))
}

fn lit(token: u64) -> Expr {
    Expr::Other { token, children: vec![] }
}

fn call(callee: &str, args: Vec<Expr>) -> Expr {
    Expr::Call { callee: Box::new(name(callee)), args }
}

fn arrow(body: ArrowBody) -> ArrowExpr {
    ArrowExpr {
        params: vec![],
        body,
        is_generator: false,
        is_async: false,
        type_params: None,
        return_type: None,
    }
}

fn arrow_of(e: Expr) -> Expr {
    Expr::Arrow(Box::new(arrow(ArrowBody::Expr(Box::new(e)))))
}

fn arrow_block(stmts: Vec<Stmt>) -> Expr {
    Expr::Arrow(Box::new(arrow(ArrowBody::Block(stmts))))
}

fn ret(e: Expr) -> Stmt {
    Stmt::Return(Some(e))
}

fn func(body: Vec<Stmt>) -> Function {
    Function {
        params: vec![],
        body: Some(body),
        is_generator: false,
        is_async: false,
        type_params: None,
        return_type: None,
    }
}

fn fn_decl(n: &str, body: Vec<Stmt>) -> Stmt {
    Stmt::FnDecl { ident: id(n), function: func(body) }
}

fn component_class(key: &str, base: &str, n: &str, f: Function) -> Class {
    Class {
        body: vec![ClassMember::Prop {
            key: key.to_string(),
            value: Some(Expr::Fn(Box::new(FnExpr { ident: Some(id(n)), function: f }))),
            is_static: false,
        }],
        super_class: Some(Box::new(Expr::Ident(private(base)))),
        has_constructor: false,
        decorators: vec![],
        type_params: None,
        implements: vec![],
    }
}

fn base_import(source: &str, bases: &[&str]) -> ModuleItem {
    ModuleItem::Import(ImportDecl {
        specifiers: bases
            .iter()
            .map(|b| ImportSpecifier::Named { local: private(b), imported: Some(b.to_string()) })
            .collect(),
        src: source.to_string(),
        type_only: false,
    })
}

fn default_import(local: &str, source: &str) -> ModuleItem {
    ModuleItem::Import(ImportDecl {
        specifiers: vec![ImportSpecifier::Default { local: id(local) }],
        src: source.to_string(),
        type_only: false,
    })
}

fn counter_body() -> Vec<Stmt> {
    vec![ret(arrow_of(call("createComponentVNode", vec![lit(1), lit(2)])))]
}

fn label_arrow() -> Expr {
    arrow_of(call("createVNode", vec![lit(2), lit(3)]))
}

fn run(items: Vec<ModuleItem>) -> Vec<ModuleItem> {
    process_transform(Module { body: items }, Config { import_source: None }).body
}

#[test]
fn marker_names_are_the_four() {
    assert!(marker_name("createVNode"));
    assert!(marker_name("createComponentVNode"));
    assert!(marker_name("createFragment"));
    assert!(marker_name("createTextVNode"));
    assert!(!marker_name("createVNodes"));
    assert!(!marker_name("createvnode"));
    assert!(!marker_name(""));
    assert!(!marker_name("h"));
}

#[test]
fn detector_finds_direct_and_nested_calls() {
    assert!(has_vnode_call(&call("createVNode", vec![])));
    assert!(has_vnode_call(&call("createFragment", vec![])));
    assert!(has_vnode_call(&call("createTextVNode", vec![lit(1)])));
    assert!(!has_vnode_call(&call("render", vec![])));
    assert!(!has_vnode_call(&name("createVNode")));
    assert!(!has_vnode_call(&lit(7)));
    // a marker call inside the callback handed to another call
    let mapped = Expr::Call {
        callee: Box::new(Expr::Member { obj: Box::new(name("items")), prop: Box::new(name("map")) }),
        args: vec![arrow_of(call("createVNode", vec![]))],
    };
    assert!(has_vnode_call(&mapped));
    assert!(has_vnode_call(&Expr::Paren(Box::new(call("createVNode", vec![])))));
    assert!(has_vnode_call(&Expr::Unary { op: 1, arg: Box::new(call("createVNode", vec![])) }));
    assert!(has_vnode_call(&Expr::Member {
        obj: Box::new(call("createVNode", vec![])),
        prop: Box::new(name("x")),
    }));
    assert!(!has_vnode_call(&Expr::Member {
        obj: Box::new(name("x")),
        prop: Box::new(call("createVNode", vec![])),
    }));
}

#[test]
fn detector_reads_branches_operands_and_elements() {
    let in_alt = Expr::Cond {
        test: Box::new(name("ok")),
        cons: Box::new(lit(0)),
        alt: Box::new(call("createVNode", vec![])),
    };
    assert!(has_vnode_call(&in_alt));
    let in_test = Expr::Cond {
        test: Box::new(call("createVNode", vec![])),
        cons: Box::new(lit(0)),
        alt: Box::new(lit(1)),
    };
    assert!(!has_vnode_call(&in_test));
    let and = Expr::Bin {
        op: 3,
        left: Box::new(name("ok")),
        right: Box::new(call("createTextVNode", vec![])),
    };
    assert!(has_vnode_call(&and));
    assert!(has_vnode_call(&Expr::Array(vec![None, Some(lit(1)), Some(call("createVNode", vec![]))])));
    assert!(!has_vnode_call(&Expr::Array(vec![None, Some(lit(1))])));
    assert!(!has_vnode_call(&Expr::Array(vec![])));
}

#[test]
fn detector_is_shallow_under_a_block_bodied_arrow() {
    let top = arrow_block(vec![Stmt::Expr(lit(1)), ret(call("createVNode", vec![]))]);
    assert!(has_vnode_call(&top));
    let guarded = arrow_block(vec![Stmt::If {
        test: name("ok"),
        cons: Box::new(ret(call("createVNode", vec![]))),
        alt: None,
    }]);
    assert!(!has_vnode_call(&guarded));
    // the callee of a call is not searched
    let called = Expr::Call { callee: Box::new(call("createVNode", vec![])), args: vec![] };
    assert!(!has_vnode_call(&called));
    // a function expression is not searched
    let wrapped = Expr::Fn(Box::new(FnExpr {
        ident: None,
        function: func(vec![ret(call("createVNode", vec![]))]),
    }));
    assert!(!has_vnode_call(&wrapped));
}

#[test]
fn nested_walk_descends_control_flow() {
    let hit = || ret(call("createVNode", vec![]));
    assert!(stmt_has_vnode_return(&hit()));
    assert!(!stmt_has_vnode_return(&Stmt::Return(None)));
    assert!(!stmt_has_vnode_return(&Stmt::Expr(call("createVNode", vec![]))));
    assert!(stmt_has_vnode_return(&Stmt::If {
        test: name("a"),
        cons: Box::new(Stmt::Other { token: 1, children: vec![] }),
        alt: Some(Box::new(Stmt::Block(vec![hit()]))),
    }));
    assert!(stmt_has_vnode_return(&Stmt::Switch {
        discriminant: name("a"),
        cases: vec![
            SwitchCase { test: Some(lit(1)), cons: vec![] },
            SwitchCase { test: None, cons: vec![Stmt::Other { token: 2, children: vec![] }, hit()] },
        ],
    }));
    assert!(stmt_has_vnode_return(&Stmt::Try {
        block: vec![],
        handler: Some(vec![hit()]),
        finalizer: None,
    }));
    assert!(stmt_has_vnode_return(&Stmt::Try {
        block: vec![],
        handler: None,
        finalizer: Some(vec![hit()]),
    }));
    assert!(!stmt_has_vnode_return(&Stmt::Try { block: vec![], handler: None, finalizer: None }));
    for kind in [LoopKind::For, LoopKind::ForIn, LoopKind::ForOf, LoopKind::While, LoopKind::DoWhile] {
        assert!(stmt_has_vnode_return(&Stmt::Loop { kind, head: vec![], body: Box::new(hit()) }));
    }
    assert!(stmt_has_vnode_return(&Stmt::Labeled {
        label: "out".to_string(),
        body: Box::new(hit()),
    }));
    // a declaration ends the search
    assert!(!stmt_has_vnode_return(&fn_decl("Inner", vec![hit()])));
    assert!(block_has_vnode_return(&vec![Stmt::Other { token: 1, children: vec![] }, hit()]));
    assert!(!block_has_vnode_return(&vec![]));
}

#[test]
fn classifier_tells_the_three_shapes_apart() {
    let stateless = func(vec![ret(call("createVNode", vec![]))]);
    assert!(is_stateless_component(&stateless));
    assert!(!is_rask_component(&stateless));
    assert_eq!(classify(&stateless), Classification::Stateless);

    let stateful = func(counter_body());
    assert!(is_rask_component(&stateful));
    assert!(!is_stateless_component(&stateful));
    assert_eq!(classify(&stateful), Classification::Stateful);

    let plain = func(vec![ret(lit(1))]);
    assert_eq!(classify(&plain), Classification::NotAComponent);
    let mut bodiless = func(vec![]);
    bodiless.body = None;
    assert_eq!(classify(&bodiless), Classification::NotAComponent);
    assert_eq!(classify(&func(vec![])), Classification::NotAComponent);
}

#[test]
fn stateless_shape_is_only_seen_at_the_top_level() {
    let guarded = func(vec![Stmt::If {
        test: name("ok"),
        cons: Box::new(ret(call("createVNode", vec![]))),
        alt: None,
    }]);
    assert_eq!(classify(&guarded), Classification::NotAComponent);
}

#[test]
fn stateful_shape_allows_control_flow_in_the_closure() {
    let inner = arrow_block(vec![
        Stmt::Other { token: 5, children: vec![] },
        Stmt::If {
            test: name("loading"),
            cons: Box::new(Stmt::Block(vec![ret(lit(0))])),
            alt: Some(Box::new(Stmt::Labeled {
                label: "l".to_string(),
                body: Box::new(Stmt::Loop {
                    kind: LoopKind::While,
                    head: vec![name("x")],
                    body: Box::new(Stmt::Block(vec![ret(call("createFragment", vec![]))])),
                }),
            })),
        },
    ]);
    assert_eq!(classify(&func(vec![Stmt::Other { token: 1, children: vec![] }, ret(inner)])), Classification::Stateful);
    // an arrow without a marker return is no component
    let empty = arrow_block(vec![ret(lit(1))]);
    assert_eq!(classify(&func(vec![ret(empty)])), Classification::NotAComponent);
}

#[test]
fn stateful_wins_when_both_shapes_are_present() {
    let f = func(vec![ret(call("createVNode", vec![])), ret(arrow_of(call("createVNode", vec![])))]);
    assert!(is_stateless_component(&f));
    assert!(is_rask_component(&f));
    assert_eq!(classify(&f), Classification::Stateful);
}

#[test]
fn arrows_classify_as_their_canonical_function() {
    let stateless = arrow(ArrowBody::Expr(Box::new(call("createVNode", vec![]))));
    assert_eq!(classify_arrow(&stateless), Classification::Stateless);
    let stateful = arrow(ArrowBody::Expr(Box::new(arrow_of(call("createVNode", vec![])))));
    assert_eq!(classify_arrow(&stateful), Classification::Stateful);
    let block = arrow(ArrowBody::Block(counter_body()));
    assert_eq!(classify_arrow(&block), Classification::Stateful);
    let plain = arrow(ArrowBody::Expr(Box::new(lit(1))));
    assert_eq!(classify_arrow(&plain), Classification::NotAComponent);
}

#[test]
fn canonical_function_wraps_an_expression_body() {
    let t = RaskComponentTransform::new(Config { import_source: None });
    let a = ArrowExpr {
        params: vec![Pat::Ident(id("props")), Pat::Other { token: 4 }],
        body: ArrowBody::Expr(Box::new(lit(9))),
        is_generator: false,
        is_async: true,
        type_params: Some(11),
        return_type: Some(12),
    };
    let f = t.arrow_to_function(a);
    assert_eq!(f.params, vec![Pat::Ident(id("props")), Pat::Other { token: 4 }]);
    assert_eq!(f.body, Some(vec![ret(lit(9))]));
    assert!(f.is_async);
    assert!(!f.is_generator);
    assert_eq!(f.type_params, Some(11));
    assert_eq!(f.return_type, Some(12));
}

#[test]
fn canonical_function_keeps_a_block_body() {
    let t = RaskComponentTransform::new(Config { import_source: None });
    let f = t.arrow_to_function(arrow(ArrowBody::Block(vec![Stmt::Other { token: 1, children: vec![] }, ret(lit(2))])));
    assert_eq!(f.body, Some(vec![Stmt::Other { token: 1, children: vec![] }, ret(lit(2))]));
}

#[test]
fn class_rewriters_build_the_one_member_class() {
    let mut t = RaskComponentTransform::new(Config { import_source: None });
    assert!(!t.uses_stateful());
    assert!(!t.uses_stateless());
    let c = t.transform_to_stateful_class(id("Counter"), func(counter_body()));
    assert_eq!(
        c,
        Stmt::ClassDecl {
            ident: id("Counter"),
            class: component_class("setup", "RaskStatefulComponent", "Counter", func(counter_body())),
        }
    );
    assert!(t.uses_stateful());
    assert!(!t.uses_stateless());
    assert_eq!(t.stateful(), &Some(private("RaskStatefulComponent")));
    let d = t.transform_to_stateless_class(id("Label"), func(vec![ret(lit(1))]));
    assert_eq!(
        d,
        Stmt::ClassDecl {
            ident: id("Label"),
            class: component_class("renderFn", "RaskStatelessComponent", "Label", func(vec![ret(lit(1))])),
        }
    );
    assert!(t.uses_stateless());
    assert!(t.well_formed());
    assert_eq!(t.stateless(), &Some(private("RaskStatelessComponent")));
    let e = t.create_component_class_expr(id("A"), func(vec![]), true);
    assert_eq!(
        e,
        ClassExpr {
            ident: Some(id("A")),
            class: component_class("setup", "RaskStatefulComponent", "A", func(vec![])),
        }
    );
    let g = t.create_component_class_expr(id("B"), func(vec![]), false);
    assert_eq!(
        g,
        ClassExpr {
            ident: Some(id("B")),
            class: component_class("renderFn", "RaskStatelessComponent", "B", func(vec![])),
        }
    );
}

#[test]
fn scenario_counter_becomes_a_stateful_class() {
    let out = run(vec![ModuleItem::Stmt(fn_decl("Counter", counter_body()))]);
    assert_eq!(
        out,
        vec![
            base_import("rask-ui", &["RaskStatefulComponent"]),
            ModuleItem::Stmt(Stmt::ClassDecl {
                ident: id("Counter"),
                class: component_class("setup", "RaskStatefulComponent", "Counter", func(counter_body())),
            }),
        ]
    );
}

#[test]
fn scenario_label_becomes_a_stateless_class_expression() {
    let decl = |init: Expr| {
        ModuleItem::Stmt(Stmt::VarDecl {
            keyword: 2,
            decls: vec![VarDeclarator { name: Pat::Ident(id("Label")), init: Some(init) }],
        })
    };
    let out = run(vec![decl(label_arrow())]);
    let expected = Expr::Class(Box::new(ClassExpr {
        ident: Some(id("Label")),
        class: component_class(
            "renderFn",
            "RaskStatelessComponent",
            "Label",
            func(vec![ret(call("createVNode", vec![lit(2), lit(3)]))]),
        ),
    }));
    assert_eq!(out, vec![base_import("rask-ui", &["RaskStatelessComponent"]), decl(expected)]);
}

#[test]
fn scenario_framework_import_is_pointed_at_the_compiler() {
    let out = process_transform(
        Module { body: vec![default_import("x", "inferno")] },
        Config { import_source: Some("custom-ui".to_string()) },
    );
    assert_eq!(out.body, vec![default_import("x", "custom-ui/compiler")]);
}

#[test]
fn framework_import_uses_the_default_package() {
    let out = run(vec![default_import("x", "inferno"), default_import("y", "inferno-extras")]);
    assert_eq!(
        out,
        vec![default_import("x", "rask-ui/compiler"), default_import("y", "inferno-extras")]
    );
}

#[test]
fn other_imports_keep_their_source() {
    let items = || {
        vec![
            default_import("a", "react"),
            default_import("b", "Inferno"),
            default_import("c", "inferno/compiler"),
            default_import("d", "rask-ui"),
        ]
    };
    assert_eq!(run(items()), items());
}

#[test]
fn import_rewrite_settles_after_one_pass() {
    let t = RaskComponentTransform::new(Config { import_source: None });
    let once = t.rewrite_inferno_imports(Module {
        body: vec![default_import("x", "inferno"), ModuleItem::Other { token: 1 }],
    });
    assert_eq!(once.body, vec![default_import("x", "rask-ui/compiler"), ModuleItem::Other { token: 1 }]);
    let twice = t.rewrite_inferno_imports(once);
    assert_eq!(twice.body, vec![default_import("x", "rask-ui/compiler"), ModuleItem::Other { token: 1 }]);
}

#[test]
fn one_import_serves_both_classifications() {
    let label = ModuleItem::Stmt(fn_decl("Label", vec![ret(call("createVNode", vec![]))]));
    let out = run(vec![
        label,
        ModuleItem::Stmt(fn_decl("Counter", counter_body())),
        ModuleItem::Stmt(fn_decl("Other", counter_body())),
    ]);
    assert_eq!(out.len(), 4);
    assert_eq!(out[0], base_import("rask-ui", &["RaskStatefulComponent", "RaskStatelessComponent"]));
    let imports = out.iter().filter(|i| matches!(i, ModuleItem::Import(_))).count();
    assert_eq!(imports, 1);
}

#[test]
fn injection_skips_a_base_class_that_is_imported() {
    let existing = || {
        ModuleItem::Import(ImportDecl {
            specifiers: vec![ImportSpecifier::Named {
                local: id("RaskStatefulComponent"),
                imported: None,
            }],
            src: "rask-ui".to_string(),
            type_only: false,
        })
    };
    let out = run(vec![existing(), ModuleItem::Stmt(fn_decl("Counter", counter_body()))]);
    assert_eq!(out.len(), 2);
    assert_eq!(out[0], existing());
}

#[test]
fn injection_reads_the_imported_name_of_an_alias() {
    let aliased = |imported: &str, local: &str| {
        ModuleItem::Import(ImportDecl {
            specifiers: vec![ImportSpecifier::Named {
                local: id(local),
                imported: Some(imported.to_string()),
            }],
            src: "rask-ui".to_string(),
            type_only: false,
        })
    };
    // imported under another local name: counts
    let out = run(vec![
        aliased("RaskStatefulComponent", "Base"),
        ModuleItem::Stmt(fn_decl("Counter", counter_body())),
    ]);
    assert_eq!(out.len(), 2);
    // another name imported under this local name: does not count
    let out = run(vec![
        aliased("Something", "RaskStatefulComponent"),
        ModuleItem::Stmt(fn_decl("Counter", counter_body())),
    ]);
    assert_eq!(out.len(), 3);
    assert_eq!(out[0], base_import("rask-ui", &["RaskStatefulComponent"]));
    // the same name from another package: does not count
    let out = run(vec![
        base_import("elsewhere", &["RaskStatefulComponent"]),
        ModuleItem::Stmt(fn_decl("Counter", counter_body())),
    ]);
    assert_eq!(out.len(), 3);
}

#[test]
fn injection_is_idempotent() {
    let mut t = RaskComponentTransform::new(Config { import_source: Some("pkg".to_string()) });
    let walked = t.visit_mut_stmt(fn_decl("Counter", counter_body()));
    let once = t.inject_runtime(Module { body: vec![ModuleItem::Stmt(walked)] });
    assert_eq!(once.body.len(), 2);
    assert_eq!(once.body[0], base_import("pkg", &["RaskStatefulComponent"]));
    assert!(has_import_of(&once.body, "pkg", "RaskStatefulComponent"));
    assert!(!has_import_of(&once.body, "pkg", "RaskStatelessComponent"));
    let twice = t.inject_runtime(once);
    assert_eq!(twice.body.len(), 2);
    assert_eq!(twice.body[0], base_import("pkg", &["RaskStatefulComponent"]));
}

#[test]
fn a_module_without_components_is_unchanged() {
    let items = || {
        vec![
            default_import("x", "react"),
            ModuleItem::Stmt(fn_decl("helper", vec![ret(lit(1))])),
            ModuleItem::Stmt(Stmt::Expr(call("createVNode", vec![]))),
            ModuleItem::Other { token: 3 },
        ]
    };
    assert_eq!(run(items()), items());
    assert_eq!(run(vec![]), vec![]);
}

#[test]
fn a_rewritten_module_is_not_rewritten_again() {
    let once = run(vec![ModuleItem::Stmt(fn_decl("Counter", counter_body()))]);
    let again = run(run(vec![ModuleItem::Stmt(fn_decl("Counter", counter_body()))]));
    assert_eq!(once, again);
}

#[test]
fn destructured_binding_is_left_alone() {
    let items = || {
        vec![ModuleItem::Stmt(Stmt::VarDecl {
            keyword: 2,
            decls: vec![VarDeclarator { name: Pat::Other { token: 8 }, init: Some(label_arrow()) }],
        })]
    };
    assert_eq!(run(items()), items());
}

#[test]
fn exported_function_becomes_an_exported_class() {
    let out = run(vec![ModuleItem::ExportDecl(fn_decl("Counter", counter_body()))]);
    assert_eq!(
        out[1],
        ModuleItem::ExportDecl(Stmt::ClassDecl {
            ident: id("Counter"),
            class: component_class("setup", "RaskStatefulComponent", "Counter", func(counter_body())),
        })
    );
}

#[test]
fn exported_variable_is_walked_but_not_replaced() {
    let items = || {
        vec![ModuleItem::ExportDecl(Stmt::VarDecl {
            keyword: 2,
            decls: vec![VarDeclarator { name: Pat::Ident(id("Label")), init: Some(label_arrow()) }],
        })]
    };
    assert_eq!(run(items()), items());
}

#[test]
fn default_exports_get_their_own_or_the_default_name() {
    let named = ModuleItem::ExportDefaultFn(FnExpr {
        ident: Some(id("Page")),
        function: func(vec![ret(call("createVNode", vec![]))]),
    });
    let out = run(vec![named]);
    assert_eq!(
        out[1],
        ModuleItem::ExportDefaultClass(ClassExpr {
            ident: Some(id("Page")),
            class: component_class(
                "renderFn",
                "RaskStatelessComponent",
                "Page",
                func(vec![ret(call("createVNode", vec![]))]),
            ),
        })
    );
    let anonymous = ModuleItem::ExportDefaultFn(FnExpr { ident: None, function: func(counter_body()) });
    let out = run(vec![anonymous]);
    assert_eq!(
        out[1],
        ModuleItem::ExportDefaultClass(ClassExpr {
            ident: Some(id("DefaultComponent")),
            class: component_class(
                "setup",
                "RaskStatefulComponent",
                "DefaultComponent",
                func(counter_body()),
            ),
        })
    );
    let out = run(vec![ModuleItem::ExportDefaultExpr(label_arrow())]);
    assert_eq!(
        out[1],
        ModuleItem::ExportDefaultExpr(Expr::Class(Box::new(ClassExpr {
            ident: Some(id("DefaultComponent")),
            class: component_class(
                "renderFn",
                "RaskStatelessComponent",
                "DefaultComponent",
                func(vec![ret(call("createVNode", vec![lit(2), lit(3)]))]),
            ),
        })))
    );
    let kept = || vec![ModuleItem::ExportDefaultExpr(lit(4))];
    assert_eq!(run(kept()), kept());
}

#[test]
fn components_inside_other_functions_are_found() {
    let outer = |inner: Stmt| {
        ModuleItem::Stmt(fn_decl(
            "setupPage",
            vec![
                Stmt::If {
                    test: name("ok"),
                    cons: Box::new(Stmt::Block(vec![inner])),
                    alt: None,
                },
                ret(lit(1)),
            ],
        ))
    };
    let out = run(vec![outer(fn_decl("Inner", vec![ret(call("createVNode", vec![]))]))]);
    let class = Stmt::ClassDecl {
        ident: id("Inner"),
        class: component_class(
            "renderFn",
            "RaskStatelessComponent",
            "Inner",
            func(vec![ret(call("createVNode", vec![]))]),
        ),
    };
    assert_eq!(out, vec![base_import("rask-ui", &["RaskStatelessComponent"]), outer(class)]);
}

#[test]
fn components_inside_callbacks_are_found() {
    let wrap = |inner: Stmt| {
        ModuleItem::Stmt(Stmt::Expr(call("describe", vec![lit(1), arrow_block(vec![inner])])))
    };
    let out = run(vec![wrap(fn_decl("Counter", counter_body()))]);
    let class = Stmt::ClassDecl {
        ident: id("Counter"),
        class: component_class("setup", "RaskStatefulComponent", "Counter", func(counter_body())),
    };
    assert_eq!(out, vec![base_import("rask-ui", &["RaskStatefulComponent"]), wrap(class)]);
}

#[test]
fn a_component_is_not_entered_after_its_rewrite() {
    // the nested declaration stays a function inside the class property
    let body = || {
        vec![
            fn_decl("Nested", vec![ret(call("createVNode", vec![]))]),
            ret(arrow_of(call("createVNode", vec![]))),
        ]
    };
    let out = run(vec![ModuleItem::Stmt(fn_decl("Outer", body()))]);
    assert_eq!(
        out,
        vec![
            base_import("rask-ui", &["RaskStatefulComponent"]),
            ModuleItem::Stmt(Stmt::ClassDecl {
                ident: id("Outer"),
                class: component_class("setup", "RaskStatefulComponent", "Outer", func(body())),
            }),
        ]
    );
}

#[test]
fn config_names_its_package() {
    assert_eq!(Config { import_source: None }.source(), "rask-ui");
    assert_eq!(Config { import_source: Some("custom-ui".to_string()) }.source(), "custom-ui");
    assert_eq!(Config::default(), Config { import_source: None });
}

#[test]
fn a_second_run_changes_nothing() {
    let items = || {
        vec![
            default_import("x", "inferno"),
            ModuleItem::Stmt(fn_decl("Counter", counter_body())),
            ModuleItem::Stmt(fn_decl("Label", vec![ret(call("createVNode", vec![]))])),
            ModuleItem::Stmt(fn_decl("helper", vec![ret(lit(1))])),
        ]
    };
    let config = || Config { import_source: Some("custom-ui".to_string()) };
    let once = process_transform(Module { body: items() }, config());
    assert_eq!(once.body.len(), 5);
    assert_eq!(
        once.body[0],
        base_import("custom-ui", &["RaskStatefulComponent", "RaskStatelessComponent"])
    );
    assert_eq!(once.body[1], default_import("x", "custom-ui/compiler"));
    let twice = process_transform(process_transform(Module { body: items() }, config()), config());
    assert_eq!(once, twice);
}

#[test]
fn a_package_named_like_the_framework_is_pointed_on_the_next_run() {
    let config = || Config { import_source: Some("inferno".to_string()) };
    let once = process_transform(
        Module { body: vec![ModuleItem::Stmt(fn_decl("Counter", counter_body()))] },
        config(),
    );
    assert_eq!(once.body[0], base_import("inferno", &["RaskStatefulComponent"]));
    let twice = process_transform(once, config());
    assert_eq!(twice.body[0], base_import("inferno/compiler", &["RaskStatefulComponent"]));
    assert_eq!(twice.body.len(), 2);
}

#[test]
fn the_state_starts_empty_and_keeps_its_options() {
    let t = RaskComponentTransform::new(Config { import_source: Some("pkg".to_string()) });
    assert_eq!(t.options(), &Config { import_source: Some("pkg".to_string()) });
    assert_eq!(t.stateful(), &None);
    assert_eq!(t.stateless(), &None);
    assert!(t.well_formed());
}

#[test]
fn walking_a_function_reaches_its_body_only() {
    let mut t = RaskComponentTransform::new(Config { import_source: None });
    let f = t.visit_mut_function(func(vec![
        fn_decl("Inner", counter_body()),
        ret(call("createVNode", vec![])),
    ]));
    assert_eq!(
        f,
        func(vec![
            Stmt::ClassDecl {
                ident: id("Inner"),
                class: component_class("setup", "RaskStatefulComponent", "Inner", func(counter_body())),
            },
            ret(call("createVNode", vec![])),
        ])
    );
    assert!(t.uses_stateful());
    assert!(!t.uses_stateless());
}

#[test]
fn classes_of_the_source_are_entered() {
    let widget = |inner: Stmt| {
        ModuleItem::Stmt(Stmt::ClassDecl {
            ident: id("Widget"),
            class: Class {
                body: vec![
                    ClassMember::Method {
                        key: "render".to_string(),
                        function: func(vec![inner, ret(lit(1))]),
                        is_static: false,
                    },
                    ClassMember::Other { token: 3 },
                ],
                super_class: Some(Box::new(name("Base"))),
                has_constructor: false,
                decorators: vec![],
                type_params: None,
                implements: vec![],
            },
        })
    };
    let out = run(vec![widget(fn_decl("Inner", counter_body()))]);
    let class = Stmt::ClassDecl {
        ident: id("Inner"),
        class: component_class("setup", "RaskStatefulComponent", "Inner", func(counter_body())),
    };
    assert_eq!(out, vec![base_import("rask-ui", &["RaskStatefulComponent"]), widget(class)]);
}
