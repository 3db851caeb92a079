//! Signature extraction: walking a parsed module's declarations to
//! discover function-like entities, classifying their parameters, and
//! synthesizing the resulting patches.

use vstd::prelude::*;

use crate::act_patch::{
    get_function_params_patches, spec_params_patches, PatchType,
};
use crate::act_structs::{
    get_acttype_from_string, methods_view, params_act_view, patches_view, spec_acttype_from_name,
    ClassAct, ClassModel, FunctionAct, FunctionModel, MethodAct, ParamAct, ParamModel, PatchAct,
    PatchModel, TypeAct,
};
use crate::ast::{
    ArrowBody, ArrowDef, ClassDef, ClassMember, CtorParam, Decl, ExprKind, FnDeclDef, FnExprDef,
    FunctionDef, ModuleItem, Pat, Stmt, TsKeywordKind, TypeAnn, VarDeclarator, VarDef, VarInit,
};

verus! {

/// The category a direct keyword annotation maps to.
pub open spec fn spec_keyword_category(kind: TsKeywordKind) -> TypeAct {
    match kind {
        TsKeywordKind::Boolean => TypeAct::Boolean,
        TsKeywordKind::Number => TypeAct::Number,
        TsKeywordKind::String => TypeAct::String,
        TsKeywordKind::Unknown => TypeAct::Unknown,
        TsKeywordKind::BigInt => TypeAct::BigInt,
        TsKeywordKind::Symbol => TypeAct::Symbol,
        TsKeywordKind::Other => TypeAct::Unknown,
    }
}

/// The category an annotation shape classifies to: keywords map directly,
/// named references go through the fixed name table, and every other
/// shape is `Unknown`.
pub open spec fn spec_ann_category(ann: TypeAnn) -> TypeAct {
    match ann {
        TypeAnn::Keyword { kind } => spec_keyword_category(kind),
        TypeAnn::TypeRef { ident: Some(name) } => spec_acttype_from_name(name@),
        TypeAnn::TypeRef { ident: None } => TypeAct::Unknown,
        TypeAnn::Other => TypeAct::Unknown,
    }
}

/// The category of one parameter pattern: optional or unannotated
/// parameters, and non-identifier patterns, are `Unknown`.
pub open spec fn spec_param_category(p: Pat) -> TypeAct {
    match p {
        Pat::Ident { name: _, optional, type_ann } => {
            if optional {
                TypeAct::Unknown
            } else {
                match type_ann {
                    Some(ann) => spec_ann_category(ann),
                    None => TypeAct::Unknown,
                }
            }
        },
        Pat::Other => TypeAct::Unknown,
    }
}

/// The extracted name of a parameter pattern; non-identifier patterns get
/// a fixed placeholder.
pub open spec fn spec_param_name(p: Pat) -> Seq<char> {
    match p {
        Pat::Ident { name, optional: _, type_ann: _ } => name@,
        Pat::Other => "unknown"@,
    }
}

/// The normalized record of one parameter.
pub open spec fn spec_param_model(p: Pat) -> ParamModel {
    ParamModel { name: spec_param_name(p), act_type: spec_param_category(p) }
}

/// The normalized records of a parameter list, in declaration order.
pub open spec fn spec_params(ps: Seq<Pat>) -> Seq<ParamModel> {
    ps.map_values(|p: Pat| spec_param_model(p))
}

/// Whether resolving a parameter's annotation succeeds: it fails exactly
/// for a non-optional identifier with no annotation.
pub open spec fn spec_param_ann_ok(p: Pat) -> bool {
    !(p matches Pat::Ident { name: _, optional: false, type_ann: None })
}

/// The annotation resolved for a parameter: the declared one for an
/// annotated identifier, and the unknown keyword for an optional
/// parameter or a non-identifier pattern.
pub open spec fn spec_param_ann(p: Pat) -> TypeAnn {
    match p {
        Pat::Ident { name: _, optional, type_ann } => {
            if optional {
                TypeAnn::Keyword { kind: TsKeywordKind::Unknown }
            } else {
                match type_ann {
                    Some(ann) => ann,
                    None => TypeAnn::Keyword { kind: TsKeywordKind::Unknown },
                }
            }
        },
        Pat::Other => TypeAnn::Keyword { kind: TsKeywordKind::Unknown },
    }
}

/// The body-start offset of a function, taken when its body is present.
pub open spec fn spec_body_start(f: FunctionDef) -> u32 {
    match f.body {
        Some(b) => b.start,
        None => 0,
    }
}

/// The patches of a named function declaration: its parameters' guards
/// when it has a body, nothing otherwise.
pub open spec fn spec_fn_decl_patches(patch_type: PatchType, d: FnDeclDef) -> Seq<PatchModel> {
    match d.function.body {
        Some(b) => spec_params_patches(patch_type, spec_params(d.function.params@), b.start),
        None => Seq::empty(),
    }
}

/// The patches of a function expression: as for a declaration; the
/// expression's own name plays no role in the guards.
pub open spec fn spec_fn_expr_patches(patch_type: PatchType, e: FnExprDef) -> Seq<PatchModel> {
    match e.function.body {
        Some(b) => spec_params_patches(patch_type, spec_params(e.function.params@), b.start),
        None => Seq::empty(),
    }
}

/// The patches of an arrow function: only a block body has a boundary to
/// patch at; an expression body yields nothing.
pub open spec fn spec_arrow_patches(patch_type: PatchType, a: ArrowDef) -> Seq<PatchModel> {
    match a.body {
        ArrowBody::Block(b) => spec_params_patches(patch_type, spec_params(a.params@), b.start),
        ArrowBody::Expr => Seq::empty(),
    }
}

/// The patches of one variable initializer.
pub open spec fn spec_var_init_patches(patch_type: PatchType, init: VarInit) -> Seq<PatchModel> {
    match init {
        VarInit::FnExpr(e) => spec_fn_expr_patches(patch_type, e),
        VarInit::Arrow(a) => spec_arrow_patches(patch_type, a),
        VarInit::Other => Seq::empty(),
    }
}

/// The patches of one variable declarator.
pub open spec fn spec_var_declarator_patches(
    patch_type: PatchType,
    d: VarDeclarator,
) -> Seq<PatchModel> {
    match d.init {
        Some(init) => spec_var_init_patches(patch_type, init),
        None => Seq::empty(),
    }
}

/// The patches of a variable declaration, declarator by declarator.
pub open spec fn spec_var_patches(
    patch_type: PatchType,
    decls: Seq<VarDeclarator>,
) -> Seq<PatchModel>
    decreases decls.len(),
{
    if decls.len() == 0 {
        Seq::empty()
    } else {
        spec_var_patches(patch_type, decls.drop_last()) + spec_var_declarator_patches(
            patch_type,
            decls.last(),
        )
    }
}

/// The plain parameter patterns of a constructor's parameter list;
/// parameter properties are left out.
pub open spec fn spec_ctor_pats(params: Seq<CtorParam>) -> Seq<Pat>
    decreases params.len(),
{
    if params.len() == 0 {
        Seq::empty()
    } else {
        let rest = spec_ctor_pats(params.drop_last());
        match params.last() {
            CtorParam::Param(p) => rest.push(p),
            CtorParam::Prop => rest,
        }
    }
}

/// The normalized methods of a class body, in member order: every method
/// with a body, under its key or a fixed placeholder, and the
/// constructor, under the name `constructor`, only when it declares at
/// least one parameter and has a body.
pub open spec fn spec_class_methods(members: Seq<ClassMember>) -> Seq<FunctionModel>
    decreases members.len(),
{
    if members.len() == 0 {
        Seq::empty()
    } else {
        let rest = spec_class_methods(members.drop_last());
        match members.last() {
            ClassMember::Method { key, function } => {
                match function.body {
                    Some(b) => rest.push(
                        FunctionModel {
                            name: match key {
                                Some(k) => k@,
                                None => "unknownName"@,
                            },
                            params: spec_params(function.params@),
                            body_start: b.start,
                        },
                    ),
                    None => rest,
                }
            },
            ClassMember::Constructor { params, body } => {
                if params.len() == 0 {
                    rest
                } else {
                    match body {
                        Some(b) => rest.push(
                            FunctionModel {
                                name: "constructor"@,
                                params: spec_params(spec_ctor_pats(params@)),
                                body_start: b.start,
                            },
                        ),
                        None => rest,
                    }
                }
            },
            ClassMember::Other => rest,
        }
    }
}

/// The patches of a list of normalized methods, method by method.
pub open spec fn spec_methods_patches(
    patch_type: PatchType,
    methods: Seq<FunctionModel>,
) -> Seq<PatchModel>
    decreases methods.len(),
{
    if methods.len() == 0 {
        Seq::empty()
    } else {
        spec_methods_patches(patch_type, methods.drop_last()) + spec_params_patches(
            patch_type,
            methods.last().params,
            methods.last().body_start,
        )
    }
}

/// The patches of a class declaration.
pub open spec fn spec_class_patches(patch_type: PatchType, c: ClassDef) -> Seq<PatchModel> {
    spec_methods_patches(patch_type, spec_class_methods(c.members@))
}

/// The patches of one top-level declaration.
pub open spec fn spec_decl_patches(patch_type: PatchType, d: Decl) -> Seq<PatchModel> {
    match d {
        Decl::Fn(f) => spec_fn_decl_patches(patch_type, f),
        Decl::Class(c) => spec_class_patches(patch_type, c),
        Decl::Var(v) => spec_var_patches(patch_type, v.decls@),
        Decl::Other => Seq::empty(),
    }
}

/// The patches of one module item: declarations and statement-level
/// function or arrow expressions contribute; everything else yields
/// nothing. Exported declarations are treated as their inner declaration.
pub open spec fn spec_item_patches(patch_type: PatchType, item: ModuleItem) -> Seq<PatchModel> {
    match item {
        ModuleItem::Stmt(Stmt::Decl(d)) => spec_decl_patches(patch_type, d),
        ModuleItem::Stmt(Stmt::Expr(ExprKind::FnExpr(e))) => spec_fn_expr_patches(patch_type, e),
        ModuleItem::Stmt(Stmt::Expr(ExprKind::Arrow(a))) => spec_arrow_patches(patch_type, a),
        ModuleItem::Stmt(Stmt::Expr(ExprKind::Other)) => Seq::empty(),
        ModuleItem::Stmt(Stmt::Other) => Seq::empty(),
        ModuleItem::ExportDecl(d) => spec_decl_patches(patch_type, d),
        ModuleItem::OtherModuleDecl => Seq::empty(),
    }
}

/// The patches of a whole module, item by item, in source order.
pub open spec fn spec_module_patches(
    patch_type: PatchType,
    items: Seq<ModuleItem>,
) -> Seq<PatchModel>
    decreases items.len(),
{
    if items.len() == 0 {
        Seq::empty()
    } else {
        spec_module_patches(patch_type, items.drop_last()) + spec_item_patches(
            patch_type,
            items.last(),
        )
    }
}

/// Maps a keyword annotation to its category.
pub fn get_typeact_from_typeid(typeid: TsKeywordKind) -> (r: TypeAct)
    ensures
        r == spec_keyword_category(typeid),
{
    match typeid {
        TsKeywordKind::Boolean => TypeAct::Boolean,
        TsKeywordKind::Number => TypeAct::Number,
        TsKeywordKind::String => TypeAct::String,
        TsKeywordKind::Unknown => TypeAct::Unknown,
        TsKeywordKind::BigInt => TypeAct::BigInt,
        TsKeywordKind::Symbol => TypeAct::Symbol,
        TsKeywordKind::Other => TypeAct::Unknown,
    }
}

/// A copy of a type annotation, equal to the original.
fn clone_type_ann(ann: &TypeAnn) -> (r: TypeAnn)
    ensures
        r == *ann,
{
    match ann {
        TypeAnn::Keyword { kind } => TypeAnn::Keyword { kind: *kind },
        TypeAnn::TypeRef { ident } => TypeAnn::TypeRef {
            ident: match ident {
                Some(s) => Some(s.clone()),
                None => None,
            },
        },
        TypeAnn::Other => TypeAnn::Other,
    }
}

/// A copy of a pattern, equal to the original.
fn clone_pat(p: &Pat) -> (r: Pat)
    ensures
        r == *p,
{
    match p {
        Pat::Ident { name, optional, type_ann } => Pat::Ident {
            name: name.clone(),
            optional: *optional,
            type_ann: match type_ann {
                Some(ann) => Some(clone_type_ann(ann)),
                None => None,
            },
        },
        Pat::Other => Pat::Other,
    }
}

/// A copy of a parameter list, equal to the original.
fn clone_pats(ps: &Vec<Pat>) -> (r: Vec<Pat>)
    ensures
        r@ == ps@,
{
    let mut r: Vec<Pat> = Vec::new();
    let n = ps.len();
    let mut i: usize = 0;
    while i < n
        invariant
            n == ps@.len(),
            i <= n,
            r@ =~= ps@.take(i as int),
        decreases n - i,
    {
        proof {
            assert(ps@.take(i + 1).drop_last() =~= ps@.take(i as int));
        }
        r.push(clone_pat(&ps[i]));
        i = i + 1;
    }
    proof {
        assert(ps@.take(n as int) =~= ps@);
    }
    r
}

/// Resolves a parameter's declared annotation.
///
/// An optional parameter is deliberately given the unknown keyword, so it
/// is excluded from checking; a non-optional identifier with no
/// annotation is the one failure; a non-identifier pattern falls back to
/// the unknown keyword.
pub fn get_param_type_ann(param_pat: &Pat) -> (r: Result<TypeAnn, String>)
    ensures
        r is Ok <==> spec_param_ann_ok(*param_pat),
        r matches Ok(ann) ==> ann == spec_param_ann(*param_pat),
        r matches Err(m) ==> m@ == "param_ident.type_ann.is_none()"@,
{
    match param_pat {
        Pat::Ident { name: _, optional, type_ann } => {
            if *optional {
                Ok(TypeAnn::Keyword { kind: TsKeywordKind::Unknown })
            } else {
                match type_ann {
                    Some(ann) => Ok(clone_type_ann(ann)),
                    None => Err(String::from_str("param_ident.type_ann.is_none()")),
                }
            }
        },
        Pat::Other => Ok(TypeAnn::Keyword { kind: TsKeywordKind::Unknown }),
    }
}

/// Classifies one parameter pattern; anything that cannot be resolved to
/// a checkable annotation is `Unknown`.
pub fn get_param_type_act(param_pat: &Pat) -> (r: TypeAct)
    ensures
        r == spec_param_category(*param_pat),
{
    match get_param_type_ann(param_pat) {
        Err(_) => TypeAct::Unknown,
        Ok(ann) => match ann {
            TypeAnn::Keyword { kind } => get_typeact_from_typeid(kind),
            TypeAnn::TypeRef { ident } => match ident {
                Some(name) => get_acttype_from_string(name.as_str()),
                None => TypeAct::Unknown,
            },
            TypeAnn::Other => TypeAct::Unknown,
        },
    }
}

/// The name a parameter contributes to diagnostics; a non-identifier
/// pattern gets a fixed placeholder.
fn get_param_name(param_pat: &Pat) -> (r: String)
    ensures
        r@ == spec_param_name(*param_pat),
{
    match param_pat {
        Pat::Ident { name, optional: _, type_ann: _ } => name.clone(),
        Pat::Other => String::from_str("unknown"),
    }
}

/// Extracts the normalized parameter records of a parameter list, in
/// declaration order.
pub fn get_function_params(params: Vec<Pat>) -> (r: Vec<ParamAct>)
    ensures
        params_act_view(r@) == spec_params(params@),
{
    let mut params_act: Vec<ParamAct> = Vec::new();
    let n = params.len();
    let mut i: usize = 0;
    while i < n
        invariant
            n == params@.len(),
            i <= n,
            params_act@.len() == i,
            forall|j: int|
                0 <= j < i ==> #[trigger] params_act@[j]@ == spec_param_model(params@[j]),
        decreases n - i,
    {
        let param = &params[i];
        let param_type_act = get_param_type_act(param);
        let param_name = get_param_name(param);
        params_act.push(ParamAct { name: param_name, act_type: param_type_act });
        i = i + 1;
    }
    proof {
        assert(params_act_view(params_act@) =~= spec_params(params@));
    }
    params_act
}

/// Normalizes one function-like entity with a present body into a
/// signature record.
pub fn get_function_act(function_name: String, function: FunctionDef) -> (r: FunctionAct)
    requires
        function.body is Some,
    ensures
        r@ == (FunctionModel {
            name: function_name@,
            params: spec_params(function.params@),
            body_start: spec_body_start(function),
        }),
{
    let body_start: u32 = match &function.body {
        Some(b) => b.start,
        None => 0,
    };
    FunctionAct {
        name: function_name,
        params: get_function_params(function.params),
        body_start,
    }
}

/// Synthesizes the patches of one normalized signature.
pub fn get_function_patches(function_act: FunctionAct, patch_type: PatchType) -> (r: Vec<PatchAct>)
    ensures
        patches_view(r@) == spec_params_patches(
            patch_type,
            function_act@.params,
            function_act@.body_start,
        ),
{
    get_function_params_patches(function_act.params, function_act.body_start, patch_type)
}

/// The patches of a named function declaration; a bodiless declaration
/// (an overload signature) yields nothing.
pub fn process_function_decl(fn_decl: FnDeclDef, patch_type: PatchType) -> (r: Vec<PatchAct>)
    ensures
        patches_view(r@) == spec_fn_decl_patches(patch_type, fn_decl),
{
    if fn_decl.function.body.is_some() {
        let function_act = get_function_act(fn_decl.name, fn_decl.function);
        get_function_patches(function_act, patch_type)
    } else {
        Vec::new()
    }
}

/// The patches of a statement-level function expression; it is named
/// after its own identifier, or a fixed placeholder when anonymous.
pub fn process_function_expr(fn_expr: FnExprDef, patch_type: PatchType) -> (r: Vec<PatchAct>)
    ensures
        patches_view(r@) == spec_fn_expr_patches(patch_type, fn_expr),
{
    let function_name = match fn_expr.name {
        Some(name) => name,
        None => String::from_str("AnonymousFunction"),
    };
    if fn_expr.function.body.is_some() {
        let function_act = get_function_act(function_name, fn_expr.function);
        get_function_patches(function_act, patch_type)
    } else {
        Vec::new()
    }
}

/// The patches of a statement-level arrow function: only a block body has
/// a boundary to inject a guard before; an expression body yields
/// nothing.
pub fn process_function_arrow(arrow_expr: ArrowDef, patch_type: PatchType) -> (r: Vec<PatchAct>)
    ensures
        patches_view(r@) == spec_arrow_patches(patch_type, arrow_expr),
{
    match arrow_expr.body {
        ArrowBody::Block(b) => {
            let function_act = FunctionAct {
                name: String::from_str("AnonymousFunction"),
                params: get_function_params(arrow_expr.params),
                body_start: b.start,
            };
            get_function_patches(function_act, patch_type)
        },
        ArrowBody::Expr => Vec::new(),
    }
}

/// The patches of a variable declaration: every declarator whose
/// initializer is a function expression or an arrow function with a
/// block body contributes its parameters' guards; the bound identifier,
/// or a fixed placeholder for a non-identifier binding, names the
/// signature.
pub fn process_var_decl(var_decl: VarDef, patch_type: PatchType) -> (r: Vec<PatchAct>)
    ensures
        patches_view(r@) == spec_var_patches(patch_type, var_decl.decls@),
{
    let ghost decls = var_decl.decls@;
    let mut patches: Vec<PatchAct> = Vec::new();
    let n = var_decl.decls.len();
    let mut i: usize = 0;
    while i < n
        invariant
            n == decls.len(),
            var_decl.decls@ == decls,
            i <= n,
            patches_view(patches@) == spec_var_patches(patch_type, decls.take(i as int)),
        decreases n - i,
    {
        proof {
            assert(decls.take(i + 1).drop_last() =~= decls.take(i as int));
            assert(decls.take(i + 1).last() == decls[i as int]);
        }
        let var_decl_decl = &var_decl.decls[i];
        let var_name: String = match &var_decl_decl.name {
            Some(name) => name.clone(),
            None => String::from_str("unknonVarName"),
        };
        let mut new_patches: Vec<PatchAct> = match &var_decl_decl.init {
            Some(VarInit::FnExpr(fn_expr)) => {
                if fn_expr.function.body.is_some() {
                    let function = FunctionDef {
                        params: clone_pats(&fn_expr.function.params),
                        body: fn_expr.function.body,
                    };
                    let function_act = get_function_act(var_name, function);
                    get_function_patches(function_act, patch_type)
                } else {
                    Vec::new()
                }
            },
            Some(VarInit::Arrow(arrow_expr)) => {
                match arrow_expr.body {
                    ArrowBody::Block(b) => {
                        let function_act = FunctionAct {
                            name: var_name,
                            params: get_function_params(clone_pats(&arrow_expr.params)),
                            body_start: b.start,
                        };
                        get_function_patches(function_act, patch_type)
                    },
                    ArrowBody::Expr => Vec::new(),
                }
            },
            Some(VarInit::Other) => Vec::new(),
            None => Vec::new(),
        };
        proof {
            assert(patches_view(patches@ + new_patches@) =~= patches_view(patches@)
                + patches_view(new_patches@));
        }
        patches.append(&mut new_patches);
        i = i + 1;
    }
    proof {
        assert(decls.take(n as int) =~= decls);
    }
    patches
}

/// Normalizes a class declaration: every method with a body, and the
/// constructor only when it declares at least one parameter and has a
/// body, in member order.
pub fn get_class_act(class_decl: ClassDef) -> (r: ClassAct)
    ensures
        r@ == (ClassModel {
            name: class_decl.name@,
            methods: spec_class_methods(class_decl.members@),
        }),
{
    let ghost members = class_decl.members@;
    let class_name = class_decl.name;
    let mut methods_act: Vec<MethodAct> = Vec::new();
    let n = class_decl.members.len();
    let mut i: usize = 0;
    while i < n
        invariant
            n == members.len(),
            class_decl.members@ == members,
            i <= n,
            methods_view(methods_act@) == spec_class_methods(members.take(i as int)),
        decreases n - i,
    {
        proof {
            assert(members.take(i + 1).drop_last() =~= members.take(i as int));
            assert(members.take(i + 1).last() == members[i as int]);
        }
        let class_prop = &class_decl.members[i];
        match class_prop {
            ClassMember::Method { key, function } => {
                if function.body.is_some() {
                    let method_name: String = match key {
                        Some(k) => k.clone(),
                        None => String::from_str("unknownName"),
                    };
                    let owned_function = FunctionDef {
                        params: clone_pats(&function.params),
                        body: function.body,
                    };
                    let function_act = get_function_act(method_name, owned_function);
                    let method_act = MethodAct { function: function_act };
                    proof {
                        lemma_map_values_push(
                            methods_act@,
                            method_act,
                            spec_class_methods(members.take(i as int)),
                        );
                    }
                    methods_act.push(method_act);
                }
            },
            ClassMember::Constructor { params, body } => {
                if params.len() > 0 {
                    match body {
                        Some(b) => {
                            let pats = ctor_pats(params);
                            let constructor_act = FunctionAct {
                                name: String::from_str("constructor"),
                                params: get_function_params(pats),
                                body_start: b.start,
                            };
                            let constructor_method = MethodAct { function: constructor_act };
                            proof {
                                lemma_map_values_push(
                                    methods_act@,
                                    constructor_method,
                                    spec_class_methods(members.take(i as int)),
                                );
                            }
                            methods_act.push(constructor_method);
                        },
                        None => {},
                    }
                }
            },
            ClassMember::Other => {},
        }
        i = i + 1;
    }
    proof {
        assert(members.take(n as int) =~= members);
    }
    ClassAct { name: class_name, methods: methods_act }
}

/// Pushing one method whose model is the target's last element extends
/// the mapped views from the target's prefix to the whole target.
proof fn lemma_map_values_push(prev: Seq<MethodAct>, m: MethodAct, target_prev: Seq<FunctionModel>)
    requires
        methods_view(prev) == target_prev,
    ensures
        methods_view(prev.push(m)) == target_prev.push(m@),
{
    let mapped = methods_view(prev.push(m));
    assert forall|j: int| 0 <= j < mapped.len() implies mapped[j] == target_prev.push(m@)[j] by {
        if j < mapped.len() - 1 {
            assert(methods_view(prev)[j] == prev[j]@);
        }
    }
    assert(mapped =~= target_prev.push(m@));
}

/// The plain parameter patterns of a constructor's parameter list;
/// parameter properties declare fields, not checkable inputs, and are
/// left out.
pub fn get_pat_from_param(params: Vec<CtorParam>) -> (r: Vec<Pat>)
    ensures
        r@ == spec_ctor_pats(params@),
{
    ctor_pats(&params)
}

/// As [`get_pat_from_param`], reading the list in place.
fn ctor_pats(params: &Vec<CtorParam>) -> (r: Vec<Pat>)
    ensures
        r@ == spec_ctor_pats(params@),
{
    let mut pats: Vec<Pat> = Vec::new();
    let n = params.len();
    let mut i: usize = 0;
    while i < n
        invariant
            n == params@.len(),
            i <= n,
            pats@ == spec_ctor_pats(params@.take(i as int)),
        decreases n - i,
    {
        proof {
            assert(params@.take(i + 1).drop_last() =~= params@.take(i as int));
            assert(params@.take(i + 1).last() == params@[i as int]);
        }
        match &params[i] {
            CtorParam::Param(p) => {
                pats.push(clone_pat(p));
            },
            CtorParam::Prop => {},
        }
        i = i + 1;
    }
    proof {
        assert(params@.take(n as int) =~= params@);
    }
    pats
}

/// The patches of a normalized class: its methods' guards, method by
/// method.
pub fn get_class_patches(class_act: ClassAct, patch_type: PatchType) -> (r: Vec<PatchAct>)
    ensures
        patches_view(r@) == spec_methods_patches(patch_type, class_act@.methods),
{
    get_methods_patches(class_act, patch_type)
}

fn get_methods_patches(class_act: ClassAct, patch_type: PatchType) -> (r: Vec<PatchAct>)
    ensures
        patches_view(r@) == spec_methods_patches(patch_type, class_act@.methods),
{
    let ghost methods = class_act@.methods;
    let mut patches: Vec<PatchAct> = Vec::new();
    let mut remaining = class_act.methods;
    let n = remaining.len();
    let mut i: usize = 0;
    while i < n
        invariant
            n == methods.len(),
            i <= n,
            remaining@.len() == n - i,
            forall|j: int| 0 <= j < n - i ==> #[trigger] remaining@[j]@ == methods[i + j],
            patches_view(patches@) == spec_methods_patches(patch_type, methods.take(i as int)),
        decreases n - i,
    {
        proof {
            assert(methods.take(i + 1).drop_last() =~= methods.take(i as int));
            assert(methods.take(i + 1).last() == methods[i as int]);
        }
        let method = remaining.remove(0);
        proof {
            assert(method@ == methods[i as int]);
        }
        let mut new_patches = get_function_params_patches(
            method.function.params,
            method.function.body_start,
            patch_type,
        );
        proof {
            assert(patches_view(patches@ + new_patches@) =~= patches_view(patches@)
                + patches_view(new_patches@));
        }
        patches.append(&mut new_patches);
        i = i + 1;
    }
    proof {
        assert(methods.take(n as int) =~= methods);
    }
    patches
}

/// The patches of a class declaration.
pub fn process_class_decl(class_decl: ClassDef, patch_type: PatchType) -> (r: Vec<PatchAct>)
    ensures
        patches_view(r@) == spec_class_patches(patch_type, class_decl),
{
    let class_act = get_class_act(class_decl);
    get_class_patches(class_act, patch_type)
}

/// The patches of one top-level declaration: function, class and variable
/// declarations contribute; everything else yields nothing.
pub fn process_decl(decl: Decl, patch_type: PatchType) -> (r: Vec<PatchAct>)
    ensures
        patches_view(r@) == spec_decl_patches(patch_type, decl),
{
    match decl {
        Decl::Fn(fn_decl) => process_function_decl(fn_decl, patch_type),
        Decl::Class(class_decl) => process_class_decl(class_decl, patch_type),
        Decl::Var(var_decl) => process_var_decl(var_decl, patch_type),
        Decl::Other => Vec::new(),
    }
}

/// The patches of a whole module: plain statements and exported
/// declarations are walked uniformly, in source order.
pub fn process_module_items(module_items: Vec<ModuleItem>, patch_type: PatchType) -> (r: Result<
    Vec<PatchAct>,
    String,
>)
    ensures
        r is Ok,
        r matches Ok(patches) ==> patches_view(patches@) == spec_module_patches(
            patch_type,
            module_items@,
        ),
{
    let ghost items = module_items@;
    let mut patches: Vec<PatchAct> = Vec::new();
    let mut remaining = module_items;
    let n = remaining.len();
    let mut i: usize = 0;
    while i < n
        invariant
            n == items.len(),
            i <= n,
            remaining@.len() == n - i,
            forall|j: int| 0 <= j < n - i ==> #[trigger] remaining@[j] == items[i + j],
            patches_view(patches@) == spec_module_patches(patch_type, items.take(i as int)),
        decreases n - i,
    {
        proof {
            assert(items.take(i + 1).drop_last() =~= items.take(i as int));
            assert(items.take(i + 1).last() == items[i as int]);
        }
        let item = remaining.remove(0);
        proof {
            assert(item == items[i as int]);
        }
        let mut new_patches: Vec<PatchAct> = match item {
            ModuleItem::Stmt(stmt) => match stmt {
                Stmt::Decl(decl) => process_decl(decl, patch_type),
                Stmt::Expr(expr) => match expr {
                    ExprKind::FnExpr(fn_expr) => process_function_expr(fn_expr, patch_type),
                    ExprKind::Arrow(arrow_expr) => process_function_arrow(arrow_expr, patch_type),
                    ExprKind::Other => Vec::new(),
                },
                Stmt::Other => Vec::new(),
            },
            ModuleItem::ExportDecl(decl) => process_decl(decl, patch_type),
            ModuleItem::OtherModuleDecl => Vec::new(),
        };
        proof {
            assert(patches_view(patches@ + new_patches@) =~= patches_view(patches@)
                + patches_view(new_patches@));
        }
        patches.append(&mut new_patches);
        i = i + 1;
    }
    proof {
        assert(items.take(n as int) =~= items);
    }
    Ok(patches)
}

} // verus!
