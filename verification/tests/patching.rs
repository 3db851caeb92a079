use act_lib::act_patch::{apply_patches, gen_param_type_check_patch, PatchType};
use act_lib::act_structs::{ParamAct, PatchAct, TypeAct};
use act_lib::patch_index_helper::PatchIndexHelper;

fn patch(byte_pos: u32, text: &str) -> PatchAct {
    PatchAct {
        byte_pos,
        patch: text.as_bytes().to_vec(),
    }
}

#[test]
fn drift_applies_in_either_order() {
    let buffer = b"ABCDE".to_vec();
    let forward = vec![patch(1, "X"), patch(3, "YZ")];
    let backward = vec![patch(3, "YZ"), patch(1, "X")];
    let out_forward = apply_patches(forward, buffer.clone()).unwrap();
    let out_backward = apply_patches(backward, buffer).unwrap();
    assert_eq!(out_forward, b"AXBCYZDE".to_vec());
    assert_eq!(out_backward, b"AXBCYZDE".to_vec());
}

#[test]
fn offset_invariance_over_permutations() {
    let buffer = b"0123456789".to_vec();
    let a = (0u32, "aa");
    let b = (4u32, "b");
    let c = (9u32, "ccc");
    let orders = vec![
        vec![a, b, c],
        vec![a, c, b],
        vec![b, a, c],
        vec![b, c, a],
        vec![c, a, b],
        vec![c, b, a],
    ];
    let mut results: Vec<Vec<u8>> = vec![];
    for order in orders {
        let patches: Vec<PatchAct> = order.iter().map(|(p, t)| patch(*p, t)).collect();
        results.push(apply_patches(patches, buffer.clone()).unwrap());
    }
    let expected = b"aa0123b45678ccc9".to_vec();
    for r in results {
        assert_eq!(r, expected);
    }
}

#[test]
fn same_offset_keeps_registration_order() {
    let buffer = b"ABCDE".to_vec();
    let first = apply_patches(vec![patch(2, "1"), patch(2, "2")], buffer.clone()).unwrap();
    assert_eq!(first, b"AB12CDE".to_vec());
    let swapped = apply_patches(vec![patch(2, "2"), patch(2, "1")], buffer).unwrap();
    assert_eq!(swapped, b"AB21CDE".to_vec());
}

#[test]
fn apply_no_patches_returns_input_unchanged() {
    let buffer = b"nothing to check here".to_vec();
    let out = apply_patches(vec![], buffer.clone()).unwrap();
    assert_eq!(out, buffer);
}

#[test]
fn apply_at_buffer_end_appends() {
    let buffer = b"AB".to_vec();
    let out = apply_patches(vec![patch(2, "C")], buffer).unwrap();
    assert_eq!(out, b"ABC".to_vec());
}

#[test]
fn apply_rejects_out_of_bounds_offset() {
    let buffer = b"ABCDE".to_vec();
    let result = apply_patches(vec![patch(6, "X")], buffer);
    assert_eq!(result, Err(String::from("patch position out of bounds")));
}

#[test]
fn apply_rejects_out_of_bounds_after_valid_patch() {
    let buffer = b"ABCDE".to_vec();
    let result = apply_patches(vec![patch(0, "X"), patch(9, "Y")], buffer);
    assert!(result.is_err());
}

#[test]
fn drift_ledger_accumulates_sizes_at_or_before_offset() {
    let mut helper = PatchIndexHelper::new();
    assert_eq!(helper.higher_index, 0);
    helper.register_patched_index(1, 1);
    helper.register_patched_index(3, 2);
    assert_eq!(helper.get_drifted_index(0), 0);
    assert_eq!(helper.get_drifted_index(1), 2);
    assert_eq!(helper.get_drifted_index(2), 3);
    assert_eq!(helper.get_drifted_index(3), 6);
    assert_eq!(helper.get_drifted_index(100), 103);
}

#[test]
fn drift_ledger_is_order_independent() {
    let mut forward = PatchIndexHelper::new();
    forward.register_patched_index(1, 1);
    forward.register_patched_index(3, 2);
    let mut backward = PatchIndexHelper::new();
    backward.register_patched_index(3, 2);
    backward.register_patched_index(1, 1);
    for x in 0..6 {
        assert_eq!(forward.get_drifted_index(x), backward.get_drifted_index(x));
    }
}

#[test]
fn patch_type_parses_the_three_modes() {
    assert!(matches!(PatchType::from_str("warning"), Ok(PatchType::Warning)));
    assert!(matches!(PatchType::from_str("error"), Ok(PatchType::Error)));
    assert!(matches!(PatchType::from_str("fix"), Ok(PatchType::Fix)));
    assert_eq!(
        PatchType::from_str("strict"),
        Err(String::from("Invalid enum value"))
    );
}

fn number_param(name: &str) -> ParamAct {
    ParamAct {
        name: String::from(name),
        act_type: TypeAct::Number,
    }
}

#[test]
fn error_mode_guard_throws() {
    let text = gen_param_type_check_patch(number_param("b"), PatchType::Error);
    let expected = "\n    if(typeof b !== 'number'){\n    \
                    throw `b isn't of type number but of type ${typeof b}`;\
                    \n    }\n    ";
    assert_eq!(text, expected);
}

#[test]
fn warning_mode_guard_only_reports() {
    let text = gen_param_type_check_patch(number_param("b"), PatchType::Warning);
    let expected = "\n    if(typeof b !== 'number'){\n    \
                    console.warn(`b isn't of type number but of type ${typeof b}`);\
                    \n    }\n    ";
    assert_eq!(text, expected);
    assert!(!text.contains("throw"));
}

#[test]
fn fix_mode_guard_reports_and_coerces() {
    let text = gen_param_type_check_patch(number_param("b"), PatchType::Fix);
    let expected = "\n    if(typeof b !== 'number'){\n    \
                    console.warn(`b isn't of type number but of type ${typeof b}`,\
                    \" and was casted\"); Number(b);\
                    \n    }\n    ";
    assert_eq!(text, expected);
    assert!(!text.contains("throw"));
}

#[test]
fn fix_mode_uses_the_repair_constructor_of_the_category() {
    let param = ParamAct {
        name: String::from("v"),
        act_type: TypeAct::Float32Array,
    };
    let text = gen_param_type_check_patch(param, PatchType::Fix);
    assert!(text.contains("new Float32Array(v);"));
    assert!(text.starts_with("\n    if(!(v instanceof Float32Array)){"));
}

#[test]
fn typed_array_guard_tests_with_instanceof() {
    let param = ParamAct {
        name: String::from("v"),
        act_type: TypeAct::Int8Array,
    };
    let text = gen_param_type_check_patch(param, PatchType::Error);
    let expected = "\n    if(!(v instanceof Int8Array)){\n    \
                    throw `v isn't of type Int8Array but of type ${typeof v}`;\
                    \n    }\n    ";
    assert_eq!(text, expected);
    assert!(!text.contains("typeof v !=="));
}

#[test]
fn scalar_guard_tests_with_typeof() {
    let param = ParamAct {
        name: String::from("s"),
        act_type: TypeAct::String,
    };
    let text = gen_param_type_check_patch(param, PatchType::Warning);
    assert!(text.starts_with("\n    if(typeof s !== 'string'){"));
    assert!(!text.contains("instanceof"));
}
