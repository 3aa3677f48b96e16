//! The syntax tree that the transform reads and rebuilds.

use vstd::prelude::*;

verus! {

/// An identifier. `private` marks a binding that the transform made itself:
/// it can never collide with a name written in the source.
#[derive(Debug, PartialEq, Eq)]
pub struct Ident {
    pub sym: String,
    pub private: bool,
}

/// A binding pattern: a plain name, or any other form, kept opaque.
#[derive(Debug, PartialEq, Eq)]
pub enum Pat {
    Ident(Ident),
    Other { token: u64 },
}

/// A function in canonical form. `body` is `None` for a bodiless signature.
#[derive(Debug, PartialEq, Eq)]
pub struct Function {
    pub params: Vec<Pat>,
    pub body: Option<Vec<Stmt>>,
    pub is_generator: bool,
    pub is_async: bool,
    pub type_params: Option<u64>,
    pub return_type: Option<u64>,
}

#[derive(Debug, PartialEq, Eq)]
pub enum ArrowBody {
    Expr(Box<Expr>),
    Block(Vec<Stmt>),
}

#[derive(Debug, PartialEq, Eq)]
pub struct ArrowExpr {
    pub params: Vec<Pat>,
    pub body: ArrowBody,
    pub is_generator: bool,
    pub is_async: bool,
    pub type_params: Option<u64>,
    pub return_type: Option<u64>,
}

#[derive(Debug, PartialEq, Eq)]
pub struct FnExpr {
    pub ident: Option<Ident>,
    pub function: Function,
}

/// A class member. The transform only ever writes `Prop`.
#[derive(Debug, PartialEq, Eq)]
pub enum ClassMember {
    Prop { key: String, value: Option<Expr>, is_static: bool },
    Method { key: String, function: Function, is_static: bool },
    Other { token: u64 },
}

#[derive(Debug, PartialEq, Eq)]
pub struct Class {
    pub body: Vec<ClassMember>,
    pub super_class: Option<Box<Expr>>,
    pub has_constructor: bool,
    pub decorators: Vec<u64>,
    pub type_params: Option<u64>,
    pub implements: Vec<u64>,
}

#[derive(Debug, PartialEq, Eq)]
pub struct ClassExpr {
    pub ident: Option<Ident>,
    pub class: Class,
}

#[derive(Debug, PartialEq, Eq)]
pub enum Expr {
    Ident(Ident),
    Call { callee: Box<Expr>, args: Vec<Expr> },
    Paren(Box<Expr>),
    Cond { test: Box<Expr>, cons: Box<Expr>, alt: Box<Expr> },
    Bin { op: u64, left: Box<Expr>, right: Box<Expr> },
    Array(Vec<Option<Expr>>),
    Arrow(Box<ArrowExpr>),
    Member { obj: Box<Expr>, prop: Box<Expr> },
    Unary { op: u64, arg: Box<Expr> },
    Fn(Box<FnExpr>),
    Class(Box<ClassExpr>),
    /// Any other expression (a literal, a tagged template, ...).
    Other { token: u64, children: Vec<Expr> },
}

#[derive(Debug, PartialEq, Eq)]
pub struct SwitchCase {
    pub test: Option<Expr>,
    pub cons: Vec<Stmt>,
}

#[derive(Debug, PartialEq, Eq)]
pub struct VarDeclarator {
    pub name: Pat,
    pub init: Option<Expr>,
}

#[derive(Clone, Copy, PartialEq, Eq, Structural, Debug)]
pub enum LoopKind {
    For,
    ForIn,
    ForOf,
    While,
    DoWhile,
}

#[derive(Debug, PartialEq, Eq)]
pub enum Stmt {
    Return(Option<Expr>),
    If { test: Expr, cons: Box<Stmt>, alt: Option<Box<Stmt>> },
    Block(Vec<Stmt>),
    Switch { discriminant: Expr, cases: Vec<SwitchCase> },
    Try { block: Vec<Stmt>, handler: Option<Vec<Stmt>>, finalizer: Option<Vec<Stmt>> },
    Loop { kind: LoopKind, head: Vec<Expr>, body: Box<Stmt> },
    Labeled { label: String, body: Box<Stmt> },
    Expr(Expr),
    FnDecl { ident: Ident, function: Function },
    VarDecl { keyword: u64, decls: Vec<VarDeclarator> },
    ClassDecl { ident: Ident, class: Class },
    /// Any other statement (`break`, `throw`, a type declaration, ...), with
    /// the expressions that stand in it.
    Other { token: u64, children: Vec<Expr> },
}

/// How one name enters through an import statement.
#[derive(Debug, PartialEq, Eq)]
pub enum ImportSpecifier {
    /// `{ imported as local }`, or `{ local }` where `imported` is `None`.
    Named { local: Ident, imported: Option<String> },
    Default { local: Ident },
    Namespace { local: Ident },
}

#[derive(Debug, PartialEq, Eq)]
pub struct ImportDecl {
    pub specifiers: Vec<ImportSpecifier>,
    pub src: String,
    pub type_only: bool,
}

#[derive(Debug, PartialEq, Eq)]
pub enum ModuleItem {
    Stmt(Stmt),
    Import(ImportDecl),
    ExportDecl(Stmt),
    ExportDefaultFn(FnExpr),
    ExportDefaultClass(ClassExpr),
    ExportDefaultExpr(Expr),
    /// Any other module declaration (`export * from`, `export { a }`, ...).
    Other { token: u64 },
}

#[derive(Debug, PartialEq, Eq)]
pub struct Module {
    pub body: Vec<ModuleItem>,
}

impl Ident {
    /// A copy of this identifier.
    pub fn dup(&self) -> (r: Ident)
        ensures
            r == *self,
    {
        Ident { sym: self.sym.clone(), private: self.private }
    }
}

} // verus!
