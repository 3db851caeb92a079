use act_lib::act_patch::{apply_patches, PatchType};
use act_lib::act_process::{
    get_class_act, get_function_act, get_function_params, get_param_type_act, get_param_type_ann,
    get_pat_from_param, get_typeact_from_typeid, process_class_decl, process_decl,
    process_function_arrow, process_function_expr, process_module_items, process_var_decl,
};
use act_lib::act_structs::{
    get_acttype_from_string, get_js_constructor_from_acttype, get_ts_type_from_acttype,
    get_typeinfo_operator_from_acttype, TypeAct,
};
use act_lib::ast::{
    ArrowBody, ArrowDef, ClassDef, ClassMember, CtorParam, Decl, ExprKind, FnBody, FnDeclDef,
    FnExprDef, FunctionDef, ModuleItem, Pat, Stmt, TsKeywordKind, TypeAnn, VarDeclarator, VarDef,
    VarInit,
};

fn ident(name: &str, ann: Option<TypeAnn>) -> Pat {
    Pat::Ident {
        name: String::from(name),
        optional: false,
        type_ann: ann,
    }
}

fn keyword(kind: TsKeywordKind) -> Option<TypeAnn> {
    Some(TypeAnn::Keyword { kind })
}

fn type_ref(name: &str) -> Option<TypeAnn> {
    Some(TypeAnn::TypeRef {
        ident: Some(String::from(name)),
    })
}

#[test]
fn acttype_from_string_matches_the_fixed_table() {
    assert_eq!(get_acttype_from_string("number"), TypeAct::Number);
    assert_eq!(get_acttype_from_string("string"), TypeAct::String);
    assert_eq!(get_acttype_from_string("bigint"), TypeAct::BigInt);
    assert_eq!(get_acttype_from_string("boolean"), TypeAct::Boolean);
    assert_eq!(get_acttype_from_string("symbol"), TypeAct::Symbol);
    assert_eq!(get_acttype_from_string("object"), TypeAct::Unknown);
    assert_eq!(get_acttype_from_string("unknown"), TypeAct::Unknown);
    assert_eq!(get_acttype_from_string("Float32Array"), TypeAct::Float32Array);
    assert_eq!(get_acttype_from_string("Float64Array"), TypeAct::Float64Array);
    assert_eq!(get_acttype_from_string("Int8Array"), TypeAct::Int8Array);
    assert_eq!(get_acttype_from_string("Int16Array"), TypeAct::Int16Array);
    assert_eq!(get_acttype_from_string("Int32Array"), TypeAct::Int32Array);
    assert_eq!(get_acttype_from_string("Uint8Array"), TypeAct::Uint8Array);
    assert_eq!(
        get_acttype_from_string("Uint8ClampedArray"),
        TypeAct::Uint8ClampedArray
    );
    assert_eq!(get_acttype_from_string("Uint16Array"), TypeAct::Uint16Array);
    assert_eq!(get_acttype_from_string("Uint32Array"), TypeAct::Uint32Array);
    assert_eq!(
        get_acttype_from_string("BigInt64Array"),
        TypeAct::BigInt64Array
    );
    assert_eq!(
        get_acttype_from_string("BigUint64Array"),
        TypeAct::BigUint64Array
    );
    assert_eq!(get_acttype_from_string("Date"), TypeAct::Unknown);
}

#[test]
fn category_names_operators_and_constructors() {
    assert_eq!(get_ts_type_from_acttype(&TypeAct::Number), "number");
    assert_eq!(get_ts_type_from_acttype(&TypeAct::Uint8Array), "Uint8Array");
    assert_eq!(get_ts_type_from_acttype(&TypeAct::Unknown), "unknown");
    assert_eq!(get_js_constructor_from_acttype(&TypeAct::Number), "Number");
    assert_eq!(
        get_js_constructor_from_acttype(&TypeAct::BigInt64Array),
        "new BigInt64Array"
    );
    assert_eq!(get_js_constructor_from_acttype(&TypeAct::Unknown), "");
    assert_eq!(get_typeinfo_operator_from_acttype(&TypeAct::Symbol), "typeof");
    assert_eq!(
        get_typeinfo_operator_from_acttype(&TypeAct::Int16Array),
        "instanceof"
    );
    assert_eq!(get_typeinfo_operator_from_acttype(&TypeAct::Unknown), "");
}

#[test]
fn keyword_kinds_classify_directly() {
    assert_eq!(get_typeact_from_typeid(TsKeywordKind::Boolean), TypeAct::Boolean);
    assert_eq!(get_typeact_from_typeid(TsKeywordKind::Number), TypeAct::Number);
    assert_eq!(get_typeact_from_typeid(TsKeywordKind::String), TypeAct::String);
    assert_eq!(get_typeact_from_typeid(TsKeywordKind::Unknown), TypeAct::Unknown);
    assert_eq!(get_typeact_from_typeid(TsKeywordKind::BigInt), TypeAct::BigInt);
    assert_eq!(get_typeact_from_typeid(TsKeywordKind::Symbol), TypeAct::Symbol);
    assert_eq!(get_typeact_from_typeid(TsKeywordKind::Other), TypeAct::Unknown);
}

#[test]
fn optional_unannotated_and_unrecognized_parameters_are_unknown() {
    let optional = Pat::Ident {
        name: String::from("a"),
        optional: true,
        type_ann: keyword(TsKeywordKind::Number),
    };
    assert_eq!(get_param_type_act(&optional), TypeAct::Unknown);

    let unannotated = ident("b", None);
    assert_eq!(get_param_type_act(&unannotated), TypeAct::Unknown);

    let unrecognized = ident("c", type_ref("Date"));
    assert_eq!(get_param_type_act(&unrecognized), TypeAct::Unknown);

    let structural = ident("d", Some(TypeAnn::Other));
    assert_eq!(get_param_type_act(&structural), TypeAct::Unknown);

    let non_ident_reference = ident(
        "e",
        Some(TypeAnn::TypeRef { ident: None }),
    );
    assert_eq!(get_param_type_act(&non_ident_reference), TypeAct::Unknown);

    let destructuring = Pat::Other;
    assert_eq!(get_param_type_act(&destructuring), TypeAct::Unknown);
}

#[test]
fn annotated_parameters_classify_to_their_category() {
    assert_eq!(
        get_param_type_act(&ident("n", keyword(TsKeywordKind::Number))),
        TypeAct::Number
    );
    assert_eq!(
        get_param_type_act(&ident("v", type_ref("Float32Array"))),
        TypeAct::Float32Array
    );
}

#[test]
fn missing_annotation_is_reported_when_resolving() {
    let unannotated = ident("b", None);
    assert_eq!(
        get_param_type_ann(&unannotated).unwrap_err(),
        "param_ident.type_ann.is_none()"
    );
    let optional = Pat::Ident {
        name: String::from("a"),
        optional: true,
        type_ann: None,
    };
    assert!(get_param_type_ann(&optional).is_ok());
}

#[test]
fn function_params_keep_declaration_order_and_names() {
    let params = vec![
        ident("a", keyword(TsKeywordKind::String)),
        ident("b", keyword(TsKeywordKind::Number)),
        Pat::Other,
    ];
    let extracted = get_function_params(params);
    assert_eq!(extracted.len(), 3);
    assert_eq!(extracted[0].name, "a");
    assert_eq!(extracted[0].act_type, TypeAct::String);
    assert_eq!(extracted[1].name, "b");
    assert_eq!(extracted[1].act_type, TypeAct::Number);
    assert_eq!(extracted[2].name, "unknown");
    assert_eq!(extracted[2].act_type, TypeAct::Unknown);
}

#[test]
fn function_act_records_name_params_and_body_start() {
    let function = FunctionDef {
        params: vec![ident("x", keyword(TsKeywordKind::Boolean))],
        body: Some(FnBody { start: 17 }),
    };
    let act = get_function_act(String::from("f"), function);
    assert_eq!(act.name, "f");
    assert_eq!(act.body_start, 17);
    assert_eq!(act.params.len(), 1);
    assert_eq!(act.params[0].act_type, TypeAct::Boolean);
}

#[test]
fn unknown_parameters_contribute_zero_patches() {
    let function = FunctionDef {
        params: vec![
            ident("a", None),
            Pat::Ident {
                name: String::from("b"),
                optional: true,
                type_ann: keyword(TsKeywordKind::Number),
            },
            ident("c", type_ref("Date")),
        ],
        body: Some(FnBody { start: 10 }),
    };
    let decl = FnDeclDef {
        name: String::from("f"),
        function,
    };
    let patches = process_decl(Decl::Fn(decl), PatchType::Error);
    assert_eq!(patches.len(), 0);
}

#[test]
fn bodiless_declaration_is_skipped() {
    let decl = FnDeclDef {
        name: String::from("overload"),
        function: FunctionDef {
            params: vec![ident("a", keyword(TsKeywordKind::Number))],
            body: None,
        },
    };
    let patches = process_decl(Decl::Fn(decl), PatchType::Error);
    assert_eq!(patches.len(), 0);
}

#[test]
fn zero_parameter_constructor_produces_no_signature() {
    let class = ClassDef {
        name: String::from("C"),
        members: vec![ClassMember::Constructor {
            params: vec![],
            body: Some(FnBody { start: 25 }),
        }],
    };
    let act = get_class_act(class);
    assert_eq!(act.name, "C");
    assert_eq!(act.methods.len(), 0);
}

#[test]
fn zero_parameter_constructor_produces_no_patches() {
    let class = ClassDef {
        name: String::from("C"),
        members: vec![ClassMember::Constructor {
            params: vec![],
            body: Some(FnBody { start: 25 }),
        }],
    };
    let patches = process_class_decl(class, PatchType::Error);
    assert_eq!(patches.len(), 0);
}

#[test]
fn constructor_with_parameters_contributes_patches() {
    let class = ClassDef {
        name: String::from("C"),
        members: vec![
            ClassMember::Constructor {
                params: vec![
                    CtorParam::Param(ident("x", keyword(TsKeywordKind::Number))),
                    CtorParam::Prop,
                ],
                body: Some(FnBody { start: 30 }),
            },
            ClassMember::Method {
                key: Some(String::from("m")),
                function: FunctionDef {
                    params: vec![ident("y", keyword(TsKeywordKind::String))],
                    body: Some(FnBody { start: 60 }),
                },
            },
            ClassMember::Other,
        ],
    };
    let act = get_class_act(class);
    assert_eq!(act.methods.len(), 2);
    assert_eq!(act.methods[0].function.name, "constructor");
    assert_eq!(act.methods[0].function.params.len(), 1);
    assert_eq!(act.methods[1].function.name, "m");
    let patches = process_class_decl(
        ClassDef {
            name: String::from("C"),
            members: vec![
                ClassMember::Constructor {
                    params: vec![
                        CtorParam::Param(ident("x", keyword(TsKeywordKind::Number))),
                        CtorParam::Prop,
                    ],
                    body: Some(FnBody { start: 30 }),
                },
                ClassMember::Method {
                    key: Some(String::from("y")),
                    function: FunctionDef {
                        params: vec![ident("y", keyword(TsKeywordKind::String))],
                        body: Some(FnBody { start: 60 }),
                    },
                },
            ],
        },
        PatchType::Warning,
    );
    assert_eq!(patches.len(), 2);
    assert_eq!(patches[0].byte_pos, 30);
    assert_eq!(patches[1].byte_pos, 60);
}

#[test]
fn parameter_properties_are_not_checkable_inputs() {
    let pats = get_pat_from_param(vec![
        CtorParam::Param(ident("x", None)),
        CtorParam::Prop,
        CtorParam::Param(Pat::Other),
    ]);
    assert_eq!(pats.len(), 2);
}

#[test]
fn var_decl_with_function_expression_contributes_patches() {
    let var = VarDef {
        decls: vec![VarDeclarator {
            name: Some(String::from("f")),
            init: Some(VarInit::FnExpr(FnExprDef {
                name: None,
                function: FunctionDef {
                    params: vec![ident("a", keyword(TsKeywordKind::Number))],
                    body: Some(FnBody { start: 12 }),
                },
            })),
        }],
    };
    let patches = process_var_decl(var, PatchType::Error);
    assert_eq!(patches.len(), 1);
    assert_eq!(patches[0].byte_pos, 12);
}

#[test]
fn var_decl_arrow_with_expression_body_is_skipped() {
    let var = VarDef {
        decls: vec![VarDeclarator {
            name: Some(String::from("f")),
            init: Some(VarInit::Arrow(ArrowDef {
                params: vec![ident("a", keyword(TsKeywordKind::Number))],
                body: ArrowBody::Expr,
            })),
        }],
    };
    let patches = process_var_decl(var, PatchType::Error);
    assert_eq!(patches.len(), 0);
}

#[test]
fn var_decl_with_non_identifier_binding_still_patches() {
    let var = VarDef {
        decls: vec![VarDeclarator {
            name: None,
            init: Some(VarInit::Arrow(ArrowDef {
                params: vec![ident("a", keyword(TsKeywordKind::Number))],
                body: ArrowBody::Block(FnBody { start: 9 }),
            })),
        }],
    };
    let patches = process_var_decl(var, PatchType::Warning);
    assert_eq!(patches.len(), 1);
    assert_eq!(patches[0].byte_pos, 9);
}

#[test]
fn statement_level_function_and_arrow_expressions_are_walked() {
    let fn_expr = FnExprDef {
        name: Some(String::from("g")),
        function: FunctionDef {
            params: vec![ident("a", keyword(TsKeywordKind::String))],
            body: Some(FnBody { start: 5 }),
        },
    };
    assert_eq!(process_function_expr(fn_expr, PatchType::Error).len(), 1);

    let arrow = ArrowDef {
        params: vec![ident("a", keyword(TsKeywordKind::String))],
        body: ArrowBody::Block(FnBody { start: 7 }),
    };
    assert_eq!(process_function_arrow(arrow, PatchType::Error).len(), 1);

    let bare_arrow = ArrowDef {
        params: vec![ident("a", keyword(TsKeywordKind::String))],
        body: ArrowBody::Expr,
    };
    assert_eq!(process_function_arrow(bare_arrow, PatchType::Error).len(), 0);
}

#[test]
fn exported_declarations_are_walked_like_plain_ones() {
    let exported = ModuleItem::ExportDecl(Decl::Fn(FnDeclDef {
        name: String::from("f"),
        function: FunctionDef {
            params: vec![ident("a", keyword(TsKeywordKind::Number))],
            body: Some(FnBody { start: 3 }),
        },
    }));
    let items = vec![
        exported,
        ModuleItem::OtherModuleDecl,
        ModuleItem::Stmt(Stmt::Other),
        ModuleItem::Stmt(Stmt::Expr(ExprKind::Other)),
    ];
    let patches = process_module_items(items, PatchType::Error).unwrap();
    assert_eq!(patches.len(), 1);
    assert_eq!(patches[0].byte_pos, 3);
}

#[test]
fn no_checkable_parameters_round_trips_the_file() {
    let source = b"function f(a) { return a; }".to_vec();
    let items = vec![ModuleItem::Stmt(Stmt::Decl(Decl::Fn(FnDeclDef {
        name: String::from("f"),
        function: FunctionDef {
            params: vec![ident("a", None)],
            body: Some(FnBody { start: 15 }),
        },
    })))];
    let patches = process_module_items(items, PatchType::Error).unwrap();
    assert_eq!(patches.len(), 0);
    let out = apply_patches(patches, source.clone()).unwrap();
    assert_eq!(out, source);
}

#[test]
fn end_to_end_error_mode_guards_both_parameters_in_order() {
    let source = "function f(a: string, b: number) { return a + b; }";
    let body_start = source.find('{').unwrap() as u32 + 1;
    let items = vec![ModuleItem::Stmt(Stmt::Decl(Decl::Fn(FnDeclDef {
        name: String::from("f"),
        function: FunctionDef {
            params: vec![
                ident("a", keyword(TsKeywordKind::String)),
                ident("b", keyword(TsKeywordKind::Number)),
            ],
            body: Some(FnBody { start: body_start }),
        },
    })))];
    let patches = process_module_items(items, PatchType::Error).unwrap();
    assert_eq!(patches.len(), 2);
    assert_eq!(patches[0].byte_pos, body_start);
    assert_eq!(patches[1].byte_pos, body_start);

    let out = apply_patches(patches, source.as_bytes().to_vec()).unwrap();
    let guard_a = "\n    if(typeof a !== 'string'){\n    \
                   throw `a isn't of type string but of type ${typeof a}`;\
                   \n    }\n    ";
    let guard_b = "\n    if(typeof b !== 'number'){\n    \
                   throw `b isn't of type number but of type ${typeof b}`;\
                   \n    }\n    ";
    let split = body_start as usize;
    let expected = format!(
        "{}{}{}{}",
        &source[..split],
        guard_a,
        guard_b,
        &source[split..]
    );
    assert_eq!(String::from_utf8(out).unwrap(), expected);
}
