//! The library's own model of a parsed module: a closed set of tagged
//! variants over the declaration and expression shapes the extractor
//! reads, carrying byte-accurate body positions.
//!
//! The upstream parser's tree is converted into these values at the
//! system boundary; every field here is a plain value, so the traversal
//! over them is exhaustively checked.

use vstd::prelude::*;

verus! {

/// The keyword kinds a type annotation can name directly.
#[derive(Debug, Clone, Copy, PartialEq, Eq, Structural)]
pub enum TsKeywordKind {
    Boolean,
    Number,
    String,
    Unknown,
    BigInt,
    Symbol,
    Other,
}

/// A parameter's declared type annotation, reduced to the shapes the
/// classifier distinguishes.
#[derive(Debug)]
pub enum TypeAnn {
    /// A direct keyword annotation.
    Keyword { kind: TsKeywordKind },
    /// A named-type reference; `ident` is the referenced name when it is
    /// a simple identifier, and `None` otherwise.
    TypeRef { ident: Option<String> },
    /// Any other annotation shape (structural, union, generic, ...).
    Other,
}

/// A binding pattern in parameter or variable position.
#[derive(Debug)]
pub enum Pat {
    /// A simple identifier binding, possibly optional, possibly annotated.
    Ident { name: String, optional: bool, type_ann: Option<TypeAnn> },
    /// Any other pattern (destructuring, rest, ...).
    Other,
}

/// A function body's opening boundary: the byte offset, in the original
/// source, of the first byte inside the opening delimiter.
#[derive(Debug, Clone, Copy, PartialEq, Eq, Structural)]
pub struct FnBody {
    pub start: u32,
}

/// A function-like entity: its parameters and, when present, its body.
#[derive(Debug)]
pub struct FunctionDef {
    pub params: Vec<Pat>,
    pub body: Option<FnBody>,
}

/// An arrow function's body: either a block with a boundary, or a bare
/// expression, which has no boundary to patch at.
#[derive(Debug)]
pub enum ArrowBody {
    Block(FnBody),
    Expr,
}

/// An arrow function: its parameters and its body shape.
#[derive(Debug)]
pub struct ArrowDef {
    pub params: Vec<Pat>,
    pub body: ArrowBody,
}

/// A named function declaration.
#[derive(Debug)]
pub struct FnDeclDef {
    pub name: String,
    pub function: FunctionDef,
}

/// A function expression, which may carry its own name.
#[derive(Debug)]
pub struct FnExprDef {
    pub name: Option<String>,
    pub function: FunctionDef,
}

/// The initializer of one variable declarator, reduced to the shapes the
/// extractor reads.
#[derive(Debug)]
pub enum VarInit {
    FnExpr(FnExprDef),
    Arrow(ArrowDef),
    Other,
}

/// One variable declarator: its bound name, when the binding is a simple
/// identifier, and its initializer, when present.
#[derive(Debug)]
pub struct VarDeclarator {
    pub name: Option<String>,
    pub init: Option<VarInit>,
}

/// A variable declaration: its declarators.
#[derive(Debug)]
pub struct VarDef {
    pub decls: Vec<VarDeclarator>,
}

/// A constructor parameter: a plain parameter with a pattern, or a
/// parameter property, which declares a field rather than a checkable
/// input.
#[derive(Debug)]
pub enum CtorParam {
    Param(Pat),
    Prop,
}

/// One member of a class body that the extractor distinguishes.
#[derive(Debug)]
pub enum ClassMember {
    /// A method; `key` is the method name when the key is a simple
    /// identifier, and `None` otherwise.
    Method { key: Option<String>, function: FunctionDef },
    /// A constructor with its parameters and, when present, its body.
    Constructor { params: Vec<CtorParam>, body: Option<FnBody> },
    /// Any other member (field, static block, ...).
    Other,
}

/// A class declaration: its name and its members.
#[derive(Debug)]
pub struct ClassDef {
    pub name: String,
    pub members: Vec<ClassMember>,
}

/// A top-level declaration.
#[derive(Debug)]
pub enum Decl {
    Fn(FnDeclDef),
    Class(ClassDef),
    Var(VarDef),
    Other,
}

/// A statement-level expression the extractor reads.
#[derive(Debug)]
pub enum ExprKind {
    FnExpr(FnExprDef),
    Arrow(ArrowDef),
    Other,
}

/// A top-level statement.
#[derive(Debug)]
pub enum Stmt {
    Decl(Decl),
    Expr(ExprKind),
    Other,
}

/// One item of a parsed module: a plain statement, an exported
/// declaration, or any other module-level declaration.
#[derive(Debug)]
pub enum ModuleItem {
    Stmt(Stmt),
    ExportDecl(Decl),
    OtherModuleDecl,
}

} // verus!
