//! Patch synthesis and drift-correcting application.
//!
//! A guard clause is synthesized for every checkable parameter of a
//! signature, anchored at the body-start offset of the function, and the
//! applier splices each patch into the growing buffer at the live position
//! computed from the drift ledger.

use vstd::prelude::*;
use vstd::utf8::encode_utf8;

use crate::act_structs::{
    get_js_constructor_from_acttype, get_ts_type_from_acttype, get_typeinfo_operator_from_acttype,
    params_act_view, patches_view, spec_js_constructor, spec_ts_type, spec_typeinfo_operator,
    str_eq, ParamAct, ParamModel, PatchAct, PatchModel, TypeAct,
};
use crate::patch_index_helper::{
    lemma_drift_bounds, spec_drift, spec_total_size, ModifiedIndex, PatchIndexHelper,
};

verus! {

broadcast use vstd::string::group_string_axioms;

/// What a guard clause does when its check fails: report and continue,
/// raise a failure, or report and attempt a repair.
#[derive(Debug, Clone, Copy, PartialEq, Eq, Structural)]
pub enum PatchType {
    Warning,
    Error,
    Fix,
}

impl PatchType {
    /// Parses a mode name. Exactly `"warning"`, `"error"` and `"fix"` are
    /// accepted; anything else is rejected.
    pub fn from_str(s: &str) -> (r: Result<PatchType, String>)
        ensures
            s@ == "warning"@ ==> r == Ok::<PatchType, String>(PatchType::Warning),
            s@ == "error"@ ==> r == Ok::<PatchType, String>(PatchType::Error),
            s@ == "fix"@ ==> r == Ok::<PatchType, String>(PatchType::Fix),
            s@ != "warning"@ && s@ != "error"@ && s@ != "fix"@ ==> (r matches Err(m) && m@
                == "Invalid enum value"@),
    {
        proof {
            reveal_strlit("warning");
            reveal_strlit("error");
            reveal_strlit("fix");
            assert("warning"@.len() == 7);
            assert("error"@.len() == 5);
            assert("fix"@.len() == 3);
        }
        if str_eq(s, "warning") {
            Ok(PatchType::Warning)
        } else if str_eq(s, "error") {
            Ok(PatchType::Error)
        } else if str_eq(s, "fix") {
            Ok(PatchType::Fix)
        } else {
            Err(String::from_str("Invalid enum value"))
        }
    }
}

/// The diagnostic template-literal text naming the parameter, its expected
/// type and the observed type.
pub open spec fn spec_log_message(name: Seq<char>, ts_type: Seq<char>) -> Seq<char> {
    "`"@ + name + " isn't of type "@ + ts_type + " but of type ${typeof "@ + name + "}`"@
}

/// The statement a guard executes when the check fails, by mode: a raised
/// failure in `Error` mode, a diagnostic alone in `Warning` mode, and a
/// diagnostic followed by a repair-constructor call in `Fix` mode.
pub open spec fn spec_patch_body(
    patch_type: PatchType,
    name: Seq<char>,
    ts_type: Seq<char>,
    js_constructor: Seq<char>,
) -> Seq<char> {
    match patch_type {
        PatchType::Fix => "console.warn("@ + spec_log_message(name, ts_type)
            + ",\" and was casted\"); "@ + js_constructor + "("@ + name + ");"@,
        PatchType::Error => "throw "@ + spec_log_message(name, ts_type) + ";"@,
        PatchType::Warning => "console.warn("@ + spec_log_message(name, ts_type) + ");"@,
    }
}

/// The condition a guard tests, built from the category's runtime check
/// operator: a `typeof` comparison against the canonical type name for
/// scalar categories, an `instanceof` test against the type's
/// constructor for typed-array categories. `Unknown` has no operator and
/// is never patched; its text keeps the scalar shape.
pub open spec fn spec_guard_condition(p: ParamModel) -> Seq<char> {
    match p.act_type {
        TypeAct::Number | TypeAct::String | TypeAct::BigInt | TypeAct::Boolean
            | TypeAct::Symbol => spec_typeinfo_operator(p.act_type) + " "@ + p.name + " !== '"@
            + spec_ts_type(p.act_type) + "'"@,
        TypeAct::Unknown => "typeof "@ + p.name + " !== '"@ + spec_ts_type(p.act_type) + "'"@,
        _ => "!("@ + p.name + " "@ + spec_typeinfo_operator(p.act_type) + " "@ + spec_ts_type(
            p.act_type,
        ) + ")"@,
    }
}

/// The full guard-clause text generated for one parameter.
pub open spec fn spec_param_patch_text(patch_type: PatchType, p: ParamModel) -> Seq<char> {
    "\n    if("@ + spec_guard_condition(p) + "){\n    "@ + spec_patch_body(
        patch_type,
        p.name,
        spec_ts_type(p.act_type),
        spec_js_constructor(p.act_type),
    ) + "\n    }\n    "@
}

/// The patch record generated for one parameter: the guard text as bytes,
/// anchored at the body-start offset.
pub open spec fn spec_param_patch(patch_type: PatchType, p: ParamModel, body_start: u32) -> PatchModel {
    PatchModel { byte_pos: body_start, patch: encode_utf8(spec_param_patch_text(patch_type, p)) }
}

/// The patches of a whole parameter list: one per parameter whose category
/// is checkable, in parameter declaration order, all at the same offset.
pub open spec fn spec_params_patches(
    patch_type: PatchType,
    params: Seq<ParamModel>,
    body_start: u32,
) -> Seq<PatchModel>
    decreases params.len(),
{
    if params.len() == 0 {
        Seq::empty()
    } else {
        let rest = spec_params_patches(patch_type, params.drop_last(), body_start);
        if params.last().act_type is Unknown {
            rest
        } else {
            rest.push(spec_param_patch(patch_type, params.last(), body_start))
        }
    }
}

/// Generates the guard-clause text for one parameter, in the given mode.
///
/// The guard tests the parameter's runtime type with the category's
/// operator — a `typeof` comparison against the canonical type name for
/// scalars, an `instanceof` test for typed arrays — and, on mismatch,
/// executes the mode's action.
pub fn gen_param_type_check_patch(param: ParamAct, patch_type: PatchType) -> (r: String)
    ensures
        r@ == spec_param_patch_text(patch_type, param@),
{
    let param_ts_type = get_ts_type_from_acttype(&param.act_type);
    let param_js_constructor = get_js_constructor_from_acttype(&param.act_type);
    let param_operator = get_typeinfo_operator_from_acttype(&param.act_type);
    let guard_condition = match param.act_type {
        TypeAct::Number | TypeAct::String | TypeAct::BigInt | TypeAct::Boolean
        | TypeAct::Symbol => {
            let mut c = param_operator;
            c.append(" ");
            c.append(param.name.as_str());
            c.append(" !== '");
            c.append(param_ts_type.as_str());
            c.append("'");
            c
        },
        TypeAct::Unknown => {
            let mut c = String::from_str("typeof ");
            c.append(param.name.as_str());
            c.append(" !== '");
            c.append(param_ts_type.as_str());
            c.append("'");
            c
        },
        _ => {
            let mut c = String::from_str("!(");
            c.append(param.name.as_str());
            c.append(" ");
            c.append(param_operator.as_str());
            c.append(" ");
            c.append(param_ts_type.as_str());
            c.append(")");
            c
        },
    };
    proof {
        assert(guard_condition@ =~= spec_guard_condition(param@));
    }
    let mut log_message = String::from_str("`");
    log_message.append(param.name.as_str());
    log_message.append(" isn't of type ");
    log_message.append(param_ts_type.as_str());
    log_message.append(" but of type ${typeof ");
    log_message.append(param.name.as_str());
    log_message.append("}`");
    let patch_body = match patch_type {
        PatchType::Fix => {
            let mut b = String::from_str("console.warn(");
            b.append(log_message.as_str());
            b.append(",\" and was casted\"); ");
            b.append(param_js_constructor.as_str());
            b.append("(");
            b.append(param.name.as_str());
            b.append(");");
            b
        },
        PatchType::Error => {
            let mut b = String::from_str("throw ");
            b.append(log_message.as_str());
            b.append(";");
            b
        },
        PatchType::Warning => {
            let mut b = String::from_str("console.warn(");
            b.append(log_message.as_str());
            b.append(");");
            b
        },
    };
    let mut patch_string = String::from_str("\n    if(");
    patch_string.append(guard_condition.as_str());
    patch_string.append("){\n    ");
    patch_string.append(patch_body.as_str());
    patch_string.append("\n    }\n    ");
    patch_string
}

/// Wraps one parameter's guard text into a patch record anchored at the
/// function's body-start offset.
pub fn get_function_param_patch(param: ParamAct, body_start: u32, patch_type: PatchType) -> (r:
    PatchAct)
    ensures
        r@ == spec_param_patch(patch_type, param@, body_start),
{
    let patch_string = gen_param_type_check_patch(param, patch_type);
    let patch_bytes = patch_string.as_str().as_bytes_vec();
    PatchAct { byte_pos: body_start, patch: patch_bytes }
}

/// Synthesizes the patches of one signature: one guard per parameter whose
/// category is not `Unknown`, in declaration order, all anchored at the
/// body-start offset.
pub fn get_function_params_patches(
    params: Vec<ParamAct>,
    body_start: u32,
    patch_type: PatchType,
) -> (r: Vec<PatchAct>)
    ensures
        patches_view(r@) == spec_params_patches(patch_type, params_act_view(params@), body_start),
{
    let ghost models = params_act_view(params@);
    let mut params_patches: Vec<PatchAct> = Vec::new();
    let n = params.len();
    let mut i: usize = 0;
    while i < n
        invariant
            n == params@.len(),
            models == params_act_view(params@),
            i <= n,
            patches_view(params_patches@) == spec_params_patches(
                patch_type,
                models.take(i as int),
                body_start,
            ),
        decreases n - i,
    {
        proof {
            assert(models.take(i + 1).drop_last() =~= models.take(i as int));
            assert(models.take(i + 1).last() == models[i as int]);
        }
        let param = &params[i];
        if !matches!(param.act_type, TypeAct::Unknown) {
            let owned = ParamAct { name: param.name.clone(), act_type: param.act_type };
            let patch = get_function_param_patch(owned, body_start, patch_type);
            params_patches.push(patch);
            proof {
                assert(patches_view(params_patches@) =~= patches_view(
                    params_patches@.drop_last(),
                ).push(params_patches@.last()@));
            }
        }
        i = i + 1;
    }
    proof {
        assert(models.take(n as int) =~= models);
    }
    params_patches
}

/// The drift a set of already-applied patches imposes on an original
/// offset `x`: the combined size of every applied patch whose own original
/// position is at or before `x`.
pub open spec fn spec_patch_drift(done: Seq<PatchModel>, x: int) -> int
    decreases done.len(),
{
    if done.len() == 0 {
        0
    } else {
        spec_patch_drift(done.drop_last(), x) + if done.last().byte_pos <= x {
            done.last().patch.len() as int
        } else {
            0
        }
    }
}

/// The combined size of a set of patches.
pub open spec fn spec_patch_total(patches: Seq<PatchModel>) -> int
    decreases patches.len(),
{
    if patches.len() == 0 {
        0
    } else {
        spec_patch_total(patches.drop_last()) + patches.last().patch.len() as int
    }
}

/// A buffer with `text` inserted at position `pos`: a pure insertion, no
/// byte overwritten or removed.
pub open spec fn spec_insert(buf: Seq<u8>, pos: int, text: Seq<u8>) -> Seq<u8> {
    buf.subrange(0, pos) + text + buf.subrange(pos, buf.len() as int)
}

/// The buffer after applying `todo`, in order, on top of a state in which
/// the patches of `done` have already been applied: each patch lands at
/// its original offset plus the drift of the patches applied before it.
pub open spec fn spec_apply_from(
    buf: Seq<u8>,
    done: Seq<PatchModel>,
    todo: Seq<PatchModel>,
) -> Seq<u8>
    decreases todo.len(),
{
    if todo.len() == 0 {
        buf
    } else {
        let p = todo[0];
        let live = p.byte_pos + spec_patch_drift(done, p.byte_pos as int);
        spec_apply_from(spec_insert(buf, live, p.patch), done.push(p), todo.drop_first())
    }
}

/// The buffer that results from applying `patches`, in the order supplied,
/// to the original buffer `buf`.
pub open spec fn spec_apply(buf: Seq<u8>, patches: Seq<PatchModel>) -> Seq<u8> {
    spec_apply_from(buf, Seq::empty(), patches)
}

pub proof fn lemma_patch_drift_bounds(done: Seq<PatchModel>, x: int)
    ensures
        0 <= spec_patch_drift(done, x) <= spec_patch_total(done),
    decreases done.len(),
{
    if done.len() > 0 {
        lemma_patch_drift_bounds(done.drop_last(), x);
    }
}

/// Combined size distributes over concatenation.
pub proof fn lemma_patch_total_concat(a: Seq<PatchModel>, b: Seq<PatchModel>)
    ensures
        spec_patch_total(a + b) == spec_patch_total(a) + spec_patch_total(b),
    decreases b.len(),
{
    if b.len() == 0 {
        assert(a + b =~= a);
    } else {
        assert((a + b).drop_last() =~= a + b.drop_last());
        lemma_patch_total_concat(a, b.drop_last());
    }
}

/// The combined size of a prefix never exceeds that of the whole, and
/// every total is non-negative.
pub proof fn lemma_patch_total_take(patches: Seq<PatchModel>, i: int)
    requires
        0 <= i <= patches.len(),
    ensures
        0 <= spec_patch_total(patches.take(i)) <= spec_patch_total(patches),
        spec_patch_total(patches) == spec_patch_total(patches.take(i)) + spec_patch_total(
            patches.skip(i),
        ),
{
    assert(patches =~= patches.take(i) + patches.skip(i));
    lemma_patch_total_concat(patches.take(i), patches.skip(i));
    lemma_patch_total_nonneg(patches.take(i));
    lemma_patch_total_nonneg(patches.skip(i));
}

pub proof fn lemma_patch_total_nonneg(patches: Seq<PatchModel>)
    ensures
        spec_patch_total(patches) >= 0,
    decreases patches.len(),
{
    if patches.len() > 0 {
        lemma_patch_total_nonneg(patches.drop_last());
    }
}

/// A ledger whose entries record, position for position, the offsets and
/// sizes of a set of applied patches imposes the same drift on every offset.
proof fn lemma_drift_correspond(entries: Seq<ModifiedIndex>, done: Seq<PatchModel>, x: int)
    requires
        entries.len() == done.len(),
        forall|i: int|
            0 <= i < done.len() ==> entries[i].pos == done[i].byte_pos && entries[i].size
                == done[i].patch.len(),
    ensures
        spec_drift(entries, x) == spec_patch_drift(done, x),
        spec_total_size(entries) == spec_patch_total(done),
    decreases done.len(),
{
    if done.len() > 0 {
        lemma_drift_correspond(entries.drop_last(), done.drop_last(), x);
    }
}

/// Builds a new buffer equal to `buf` with `text` spliced in at `pos`.
fn insert_bytes(buf: &Vec<u8>, pos: usize, text: &Vec<u8>) -> (r: Vec<u8>)
    requires
        pos <= buf@.len(),
    ensures
        r@ == spec_insert(buf@, pos as int, text@),
{
    let mut r: Vec<u8> = Vec::new();
    let mut i: usize = 0;
    while i < pos
        invariant
            i <= pos <= buf@.len(),
            r@ =~= buf@.subrange(0, i as int),
        decreases pos - i,
    {
        r.push(buf[i]);
        i = i + 1;
    }
    let mut j: usize = 0;
    let text_len = text.len();
    while j < text_len
        invariant
            pos <= buf@.len(),
            j <= text_len == text@.len(),
            r@ =~= buf@.subrange(0, pos as int) + text@.subrange(0, j as int),
        decreases text_len - j,
    {
        r.push(text[j]);
        j = j + 1;
    }
    let mut k: usize = pos;
    let buf_len = buf.len();
    while k < buf_len
        invariant
            pos <= k <= buf_len == buf@.len(),
            text@.subrange(0, text@.len() as int) =~= text@,
            r@ =~= buf@.subrange(0, pos as int) + text@ + buf@.subrange(pos as int, k as int),
        decreases buf_len - k,
    {
        r.push(buf[k]);
        k = k + 1;
    }
    proof {
        assert(r@ =~= spec_insert(buf@, pos as int, text@));
    }
    r
}

/// Applies every patch, in the order supplied, to the original buffer.
///
/// Each patch lands at its original offset plus the accumulated drift of
/// the patches applied before it, so the result does not depend on the
/// order in which patches with distinct offsets are supplied. A patch
/// whose offset lies beyond the end of the original buffer is an
/// internal-consistency violation and is rejected outright.
pub fn apply_patches(patches: Vec<PatchAct>, buffer: Vec<u8>) -> (r: Result<Vec<u8>, String>)
    requires
        buffer@.len() + spec_patch_total(patches_view(patches@)) <= u32::MAX,
    ensures
        r is Ok <==> (forall|j: int|
            0 <= j < patches@.len() ==> patches@[j].byte_pos <= buffer@.len()),
        r matches Ok(out) ==> out@ == spec_apply(buffer@, patches_view(patches@)),
        r matches Err(m) ==> m@ == "patch position out of bounds"@,
{
    let ghost orig = buffer@;
    let ghost models = patches_view(patches@);
    let orig_len = buffer.len();
    let mut buf = buffer;
    let mut patch_index_helper = PatchIndexHelper::new();
    proof {
        assert(models.take(0) =~= Seq::<PatchModel>::empty());
        assert(models.skip(0) =~= models);
        lemma_patch_total_nonneg(models);
    }
    let n = patches.len();
    let mut i: usize = 0;
    while i < n
        invariant
            n == patches@.len(),
            models == patches_view(patches@),
            orig == buffer@,
            orig_len == orig.len(),
            orig.len() + spec_patch_total(models) <= u32::MAX,
            i <= n,
            forall|j: int| 0 <= j < i ==> patches@[j].byte_pos <= orig.len(),
            patch_index_helper.indexes_modified@.len() == i,
            forall|j: int|
                0 <= j < i ==> patch_index_helper.indexes_modified@[j].pos == models[j].byte_pos
                    && patch_index_helper.indexes_modified@[j].size == models[j].patch.len(),
            buf@.len() == orig.len() + spec_patch_total(models.take(i as int)),
            spec_apply_from(buf@, models.take(i as int), models.skip(i as int)) == spec_apply(
                orig,
                models,
            ),
        decreases n - i,
    {
        let byte_pos = patches[i].byte_pos;
        proof {
            assert(models[i as int] == patches@[i as int]@);
        }
        if byte_pos as usize > orig_len {
            proof {
                assert(patches@[i as int].byte_pos > orig.len());
            }
            return Err(String::from_str("patch position out of bounds"));
        }
        proof {
            lemma_patch_total_take(models, i as int);
            lemma_drift_correspond(
                patch_index_helper.indexes_modified@,
                models.take(i as int),
                byte_pos as int,
            );
            lemma_patch_drift_bounds(models.take(i as int), byte_pos as int);
        }
        let pos: u32 = patch_index_helper.get_drifted_index(byte_pos);
        proof {
            assert(models.take(i + 1).drop_last() =~= models.take(i as int));
            assert(models.take(i + 1).last() == models[i as int]);
            lemma_patch_total_take(models, i + 1);
            assert(models.skip(i as int)[0] == models[i as int]);
            assert(models.skip(i as int).drop_first() =~= models.skip(i + 1));
            assert(models.take(i as int).push(models[i as int]) =~= models.take(i + 1));
        }
        let new_buf = insert_bytes(&buf, pos as usize, &patches[i].patch);
        buf = new_buf;
        let patch_len = patches[i].patch.len();
        patch_index_helper.register_patched_index(byte_pos, patch_len as u32);
        i = i + 1;
    }
    proof {
        assert(models.take(n as int) =~= models);
        assert(models.skip(n as int) =~= Seq::<PatchModel>::empty());
    }
    Ok(buf)
}

} // verus!
