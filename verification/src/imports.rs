//! The two passes over a module's imports that follow the walk: pointing
//! imports of the external framework at the compiled artifact, and importing
//! the base classes that the walk used.

use vstd::prelude::*;
use vstd::string::StringExecFns;
use crate::ast::{Ident, ImportDecl, ImportSpecifier, Module, ModuleItem};
use crate::rewrite::{RaskComponentTransform, Config, source_of, base_name, DEFAULT_SOURCE, STATEFUL_BASE, STATELESS_BASE};
use crate::text::{same_text, reversed};

verus! {

pub const FRAMEWORK: &'static str = "inferno";
pub const COMPILER_SUFFIX: &'static str = "/compiler";

/// The source that imports of the framework are pointed at.
pub open spec fn compiler_source(source: Seq<char>) -> Seq<char> {
    source + "/compiler"@
}

/// Whether `item` imports from the framework.
pub open spec fn imports_framework(item: ModuleItem) -> bool {
    item matches ModuleItem::Import(d) && d.src@ == "inferno"@
}

/// How the source rewrite changes one item: an import of the framework
/// keeps everything but its source, which becomes the compiler source; any
/// other item stays as it is.
pub open spec fn source_rewritten(a: ModuleItem, b: ModuleItem, source: Seq<char>) -> bool {
    if imports_framework(a) {
        &&& b matches ModuleItem::Import(e)
        &&& e.src@ == compiler_source(source)
        &&& e.specifiers == a->Import_0.specifiers
        &&& e.type_only == a->Import_0.type_only
    } else {
        b == a
    }
}

/// The source rewrite of a whole module: item by item, in place.
pub open spec fn sources_rewritten(a: Seq<ModuleItem>, b: Seq<ModuleItem>, source: Seq<char>) -> bool {
    &&& b.len() == a.len()
    &&& forall|i: int| 0 <= i < a.len() ==> source_rewritten(#[trigger] a[i], b[i], source)
}

/// Whether `spec` brings in the name `base`: a named specifier whose
/// imported name is `base`, or, without an alias, whose local name is.
pub open spec fn specifier_names(spec: ImportSpecifier, base: Seq<char>) -> bool {
    spec matches ImportSpecifier::Named { local, imported } && match imported {
        Some(n) => n@ == base,
        None => local.sym@ == base,
    }
}

/// Whether `item` is an import from `source` that brings in `base`.
pub open spec fn item_imports(item: ModuleItem, source: Seq<char>, base: Seq<char>) -> bool {
    item matches ModuleItem::Import(d) && d.src@ == source && exists|j: int|
        0 <= j < d.specifiers@.len() && specifier_names(#[trigger] d.specifiers@[j], base)
}

/// Whether some item of the module imports `base` from `source`.
pub open spec fn already_imported(items: Seq<ModuleItem>, source: Seq<char>, base: Seq<char>) -> bool {
    exists|i: int| 0 <= i < items.len() && item_imports(#[trigger] items[i], source, base)
}

/// Whether the base class of a classification still has to be imported: a
/// component used it and no import brings it in.
pub open spec fn needs_import(t: RaskComponentTransform, items: Seq<ModuleItem>, stateful: bool) -> bool {
    t.binding(stateful) is Some && !already_imported(
        items,
        source_of(t.config()),
        base_name(stateful),
    )
}

/// `spec` imports `base` under the local binding `local`.
pub open spec fn is_base_specifier(spec: ImportSpecifier, local: Ident, base: Seq<char>) -> bool {
    spec matches ImportSpecifier::Named { local: l, imported: Some(n) } && l == local && n@
        == base
}

/// The specifiers of the import that injection adds: the stateful base
/// class where it is needed, then the stateless one where it is needed.
pub open spec fn injected_specifiers(
    t: RaskComponentTransform,
    items: Seq<ModuleItem>,
    specs: Seq<ImportSpecifier>,
) -> bool {
    let a = needs_import(t, items, true);
    let b = needs_import(t, items, false);
    &&& specs.len() == (if a { 1int } else { 0 }) + (if b { 1int } else { 0 })
    &&& a ==> is_base_specifier(specs[0], t.stateful_binding()->0, base_name(true))
    &&& b ==> is_base_specifier(specs[specs.len() - 1], t.stateless_binding()->0, base_name(false))
}

/// What injection makes of a module: nothing changes where no base class
/// needs an import; otherwise one import from the configured source, not
/// type-only, stands in front of the unchanged items.
pub open spec fn injected(t: RaskComponentTransform, a: Module, b: Module) -> bool {
    if !needs_import(t, a.body@, true) && !needs_import(t, a.body@, false) {
        b == a
    } else {
        &&& b.body@.len() == a.body@.len() + 1
        &&& b.body@.subrange(1, b.body@.len() as int) == a.body@
        &&& b.body@[0] matches ModuleItem::Import(d)
        &&& d.src@ == source_of(t.config())
        &&& !d.type_only
        &&& injected_specifiers(t, a.body@, d.specifiers@)
    }
}

/// Decides `specifier_names`.
fn names_base(spec: &ImportSpecifier, base: &str) -> (r: bool)
    ensures
        r == specifier_names(*spec, base@),
{
    match spec {
        ImportSpecifier::Named { local, imported } => match imported {
            Some(n) => same_text(n.as_str(), base),
            None => same_text(local.sym.as_str(), base),
        },
        _ => false,
    }
}

/// Decides `item_imports`.
#[verifier::loop_isolation(false)]
fn imports_base(item: &ModuleItem, source: &str, base: &str) -> (r: bool)
    ensures
        r == item_imports(*item, source@, base@),
{
    match item {
        ModuleItem::Import(d) => {
            if !same_text(d.src.as_str(), source) {
                return false;
            }
            let mut j: usize = 0;
            while j < d.specifiers.len()
                invariant
                    j <= d.specifiers.len(),
                    forall|k: int|
                        0 <= k < j ==> !specifier_names(#[trigger] d.specifiers@[k], base@),
                decreases d.specifiers.len() - j,
            {
                if names_base(&d.specifiers[j], base) {
                    return true;
                }
                j += 1;
            }
            false
        },
        _ => false,
    }
}

/// Decides `already_imported`.
pub fn has_import_of(items: &Vec<ModuleItem>, source: &str, base: &str) -> (r: bool)
    ensures
        r == already_imported(items@, source@, base@),
{
    let mut i: usize = 0;
    while i < items.len()
        invariant
            i <= items.len(),
            forall|k: int| 0 <= k < i ==> !item_imports(#[trigger] items@[k], source@, base@),
        decreases items.len() - i,
    {
        if imports_base(&items[i], source, base) {
            return true;
        }
        i += 1;
    }
    false
}

/// The named specifier that imports `base` under the binding `local`.
fn base_specifier(local: &Ident, base: &str) -> (r: ImportSpecifier)
    ensures
        is_base_specifier(r, *local, base@),
{
    ImportSpecifier::Named { local: local.dup(), imported: Some(String::from_str(base)) }
}

/// Applies the source rewrite to one item.
fn rewrite_source(item: ModuleItem, target: &String) -> (r: ModuleItem)
    ensures
        imports_framework(item) ==> (r matches ModuleItem::Import(e) && e.src@ == target@
            && e.specifiers == item->Import_0.specifiers && e.type_only
            == item->Import_0.type_only),
        !imports_framework(item) ==> r == item,
{
    match item {
        ModuleItem::Import(d) => {
            if same_text(d.src.as_str(), FRAMEWORK) {
                ModuleItem::Import(
                    ImportDecl {
                        specifiers: d.specifiers,
                        src: target.clone(),
                        type_only: d.type_only,
                    },
                )
            } else {
                ModuleItem::Import(d)
            }
        },
        other => other,
    }
}

impl RaskComponentTransform {
    /// Points every import of the framework at the compiler source of the
    /// configured package; no other item changes.
    pub fn rewrite_inferno_imports(&self, module: Module) -> (r: Module)
        ensures
            sources_rewritten(module.body@, r.body@, source_of(self.config())),
    {
        let target = String::from_str(self.options().source()).concat(COMPILER_SUFFIX);
        let ghost source = source_of(self.config());
        let ghost items = module.body@;
        let mut rest = reversed(module.body);
        let mut out: Vec<ModuleItem> = Vec::new();
        while rest.len() > 0
            invariant
                target@ == compiler_source(source),
                rest@.len() + out@.len() == items.len(),
                forall|i: int|
                    0 <= i < rest@.len() ==> #[trigger] rest@[i] == items[items.len() - 1 - i],
                forall|i: int|
                    0 <= i < out@.len() ==> source_rewritten(#[trigger] items[i], out@[i], source),
            decreases rest.len(),
        {
            let ghost k = out@.len() as int;
            match rest.pop() {
                Some(item) => {
                    assert(item == items[k]);
                    let next = rewrite_source(item, &target);
                    out.push(next);
                },
                None => {},
            }
        }
        Module { body: out }
    }

    /// Imports the base classes that the walk used and that no import from
    /// the configured package brings in yet: one import, in front of the
    /// module, or none.
    pub fn inject_runtime(&self, module: Module) -> (r: Module)
        ensures
            injected(*self, module, r),
    {
        let source = self.options().source();
        let mut specifiers: Vec<ImportSpecifier> = Vec::new();
        if let Some(id) = self.stateful() {
            if !has_import_of(&module.body, source, STATEFUL_BASE) {
                specifiers.push(base_specifier(id, STATEFUL_BASE));
            }
        }
        if let Some(id) = self.stateless() {
            if !has_import_of(&module.body, source, STATELESS_BASE) {
                specifiers.push(base_specifier(id, STATELESS_BASE));
            }
        }
        if specifiers.len() == 0 {
            return module;
        }
        let import = ModuleItem::Import(
            ImportDecl { specifiers, src: String::from_str(source), type_only: false },
        );
        let mut body = module.body;
        body.insert(0, import);
        assert(body@.subrange(1, body@.len() as int) =~= module.body@);
        Module { body }
    }
}

impl Config {
    /// The package that the base classes are imported from.
    pub fn source(&self) -> (r: &str)
        ensures
            r@ == source_of(*self),
    {
        match &self.import_source {
            Some(s) => s.as_str(),
            None => DEFAULT_SOURCE,
        }
    }
}

} // verus!
