//! Core data model: runtime-checkable type categories, the normalized
//! signature records produced by the extractor, and the patch records
//! consumed by the applier.

use vstd::prelude::*;

verus! {

/// The closed set of runtime-checkable type categories.
///
/// Every category except `Unknown` maps to exactly one runtime check
/// operator and one repair constructor. `Unknown` is the default for
/// unannotated, optional, or unresolvable parameters and is never patched.
#[derive(Debug, Clone, Copy, PartialEq, Eq, Structural)]
pub enum TypeAct {
    Number,
    String,
    BigInt,
    Boolean,
    Symbol,
    Float32Array,
    Float64Array,
    Int8Array,
    Int16Array,
    Int32Array,
    Uint8Array,
    Uint8ClampedArray,
    Uint16Array,
    Uint32Array,
    BigInt64Array,
    BigUint64Array,
    Unknown,
}

/// One extracted parameter: its declared name and its classified category.
#[derive(Debug)]
pub struct ParamAct {
    pub name: String,
    pub act_type: TypeAct,
}

/// Mathematical value of a [`ParamAct`].
pub struct ParamModel {
    pub name: Seq<char>,
    pub act_type: TypeAct,
}

impl View for ParamAct {
    type V = ParamModel;

    open spec fn view(&self) -> ParamModel {
        ParamModel { name: self.name@, act_type: self.act_type }
    }
}

/// One textual insertion, anchored at a byte offset of the original,
/// unmodified source buffer.
#[derive(Debug)]
pub struct PatchAct {
    pub byte_pos: u32,
    pub patch: Vec<u8>,
}

/// Mathematical value of a [`PatchAct`].
pub struct PatchModel {
    pub byte_pos: u32,
    pub patch: Seq<u8>,
}

impl View for PatchAct {
    type V = PatchModel;

    open spec fn view(&self) -> PatchModel {
        PatchModel { byte_pos: self.byte_pos, patch: self.patch@ }
    }
}

/// The view of a sequence of patch records.
pub open spec fn patches_view(patches: Seq<PatchAct>) -> Seq<PatchModel> {
    patches.map_values(|p: PatchAct| p@)
}

/// The view of a sequence of parameter records.
pub open spec fn params_act_view(params: Seq<ParamAct>) -> Seq<ParamModel> {
    params.map_values(|p: ParamAct| p@)
}

/// One function-like entity eligible for patching: its name, its
/// parameters in declaration order, and the byte offset (in the original
/// source) of the first byte inside its body's opening delimiter.
#[derive(Debug)]
pub struct FunctionAct {
    pub name: String,
    pub params: Vec<ParamAct>,
    pub body_start: u32,
}

/// Mathematical value of a [`FunctionAct`].
pub struct FunctionModel {
    pub name: Seq<char>,
    pub params: Seq<ParamModel>,
    pub body_start: u32,
}

impl View for FunctionAct {
    type V = FunctionModel;

    open spec fn view(&self) -> FunctionModel {
        FunctionModel {
            name: self.name@,
            params: params_act_view(self.params@),
            body_start: self.body_start,
        }
    }
}

/// One class method (or non-trivial constructor), normalized to a function.
#[derive(Debug)]
pub struct MethodAct {
    pub function: FunctionAct,
}

impl View for MethodAct {
    type V = FunctionModel;

    open spec fn view(&self) -> FunctionModel {
        self.function@
    }
}

/// One class: its name and the methods eligible for patching.
#[derive(Debug)]
pub struct ClassAct {
    pub name: String,
    pub methods: Vec<MethodAct>,
}

/// Mathematical value of a [`ClassAct`].
pub struct ClassModel {
    pub name: Seq<char>,
    pub methods: Seq<FunctionModel>,
}

/// The view of a sequence of method records.
pub open spec fn methods_view(methods: Seq<MethodAct>) -> Seq<FunctionModel> {
    methods.map_values(|m: MethodAct| m@)
}

impl View for ClassAct {
    type V = ClassModel;

    open spec fn view(&self) -> ClassModel {
        ClassModel { name: self.name@, methods: methods_view(self.methods@) }
    }
}

/// The canonical source-language name of a category, as it appears in
/// the guard's runtime check and in diagnostic messages.
pub open spec fn spec_ts_type(act_type: TypeAct) -> Seq<char> {
    match act_type {
        TypeAct::Number => "number"@,
        TypeAct::String => "string"@,
        TypeAct::BigInt => "bigint"@,
        TypeAct::Boolean => "boolean"@,
        TypeAct::Symbol => "symbol"@,
        TypeAct::Float32Array => "Float32Array"@,
        TypeAct::Float64Array => "Float64Array"@,
        TypeAct::Int8Array => "Int8Array"@,
        TypeAct::Int16Array => "Int16Array"@,
        TypeAct::Int32Array => "Int32Array"@,
        TypeAct::Uint8Array => "Uint8Array"@,
        TypeAct::Uint8ClampedArray => "Uint8ClampedArray"@,
        TypeAct::Uint16Array => "Uint16Array"@,
        TypeAct::Uint32Array => "Uint32Array"@,
        TypeAct::BigInt64Array => "BigInt64Array"@,
        TypeAct::BigUint64Array => "BigUint64Array"@,
        TypeAct::Unknown => "unknown"@,
    }
}

/// The repair-constructor expression of a category, used only by the
/// auto-fix mode. `Unknown` has none.
pub open spec fn spec_js_constructor(act_type: TypeAct) -> Seq<char> {
    match act_type {
        TypeAct::Number => "Number"@,
        TypeAct::String => "String"@,
        TypeAct::BigInt => "BigInt"@,
        TypeAct::Boolean => "Boolean"@,
        TypeAct::Symbol => "Symbol"@,
        TypeAct::Float32Array => "new Float32Array"@,
        TypeAct::Float64Array => "new Float64Array"@,
        TypeAct::Int8Array => "new Int8Array"@,
        TypeAct::Int16Array => "new Int16Array"@,
        TypeAct::Int32Array => "new Int32Array"@,
        TypeAct::Uint8Array => "new Uint8Array"@,
        TypeAct::Uint8ClampedArray => "new Uint8ClampedArray"@,
        TypeAct::Uint16Array => "new Uint16Array"@,
        TypeAct::Uint32Array => "new Uint32Array"@,
        TypeAct::BigInt64Array => "new BigInt64Array"@,
        TypeAct::BigUint64Array => "new BigUint64Array"@,
        TypeAct::Unknown => ""@,
    }
}

/// The category a named type reference resolves to: the fixed table of
/// typed-array names plus the scalar keywords; everything else is `Unknown`.
pub open spec fn spec_acttype_from_name(name: Seq<char>) -> TypeAct {
    if name == "number"@ {
        TypeAct::Number
    } else if name == "string"@ {
        TypeAct::String
    } else if name == "bigint"@ {
        TypeAct::BigInt
    } else if name == "boolean"@ {
        TypeAct::Boolean
    } else if name == "symbol"@ {
        TypeAct::Symbol
    } else if name == "Float32Array"@ {
        TypeAct::Float32Array
    } else if name == "Float64Array"@ {
        TypeAct::Float64Array
    } else if name == "Int8Array"@ {
        TypeAct::Int8Array
    } else if name == "Int16Array"@ {
        TypeAct::Int16Array
    } else if name == "Int32Array"@ {
        TypeAct::Int32Array
    } else if name == "Uint8Array"@ {
        TypeAct::Uint8Array
    } else if name == "Uint8ClampedArray"@ {
        TypeAct::Uint8ClampedArray
    } else if name == "Uint16Array"@ {
        TypeAct::Uint16Array
    } else if name == "Uint32Array"@ {
        TypeAct::Uint32Array
    } else if name == "BigInt64Array"@ {
        TypeAct::BigInt64Array
    } else if name == "BigUint64Array"@ {
        TypeAct::BigUint64Array
    } else {
        TypeAct::Unknown
    }
}

/// The runtime check operator of a category: `typeof` for scalars,
/// `instanceof` for typed arrays, none for `Unknown`.
pub open spec fn spec_typeinfo_operator(act_type: TypeAct) -> Seq<char> {
    match act_type {
        TypeAct::Number => "typeof"@,
        TypeAct::String => "typeof"@,
        TypeAct::BigInt => "typeof"@,
        TypeAct::Boolean => "typeof"@,
        TypeAct::Symbol => "typeof"@,
        TypeAct::Unknown => ""@,
        _ => "instanceof"@,
    }
}

pub fn get_ts_type_from_acttype(act_type: &TypeAct) -> (r: String)
    ensures
        r@ == spec_ts_type(*act_type),
{
    match act_type {
        TypeAct::Number => String::from_str("number"),
        TypeAct::String => String::from_str("string"),
        TypeAct::BigInt => String::from_str("bigint"),
        TypeAct::Boolean => String::from_str("boolean"),
        TypeAct::Symbol => String::from_str("symbol"),
        TypeAct::Float32Array => String::from_str("Float32Array"),
        TypeAct::Float64Array => String::from_str("Float64Array"),
        TypeAct::Int8Array => String::from_str("Int8Array"),
        TypeAct::Int16Array => String::from_str("Int16Array"),
        TypeAct::Int32Array => String::from_str("Int32Array"),
        TypeAct::Uint8Array => String::from_str("Uint8Array"),
        TypeAct::Uint8ClampedArray => String::from_str("Uint8ClampedArray"),
        TypeAct::Uint16Array => String::from_str("Uint16Array"),
        TypeAct::Uint32Array => String::from_str("Uint32Array"),
        TypeAct::BigInt64Array => String::from_str("BigInt64Array"),
        TypeAct::BigUint64Array => String::from_str("BigUint64Array"),
        TypeAct::Unknown => String::from_str("unknown"),
    }
}

pub fn get_js_constructor_from_acttype(act_type: &TypeAct) -> (r: String)
    ensures
        r@ == spec_js_constructor(*act_type),
{
    match act_type {
        TypeAct::Number => String::from_str("Number"),
        TypeAct::String => String::from_str("String"),
        TypeAct::BigInt => String::from_str("BigInt"),
        TypeAct::Boolean => String::from_str("Boolean"),
        TypeAct::Symbol => String::from_str("Symbol"),
        TypeAct::Float32Array => String::from_str("new Float32Array"),
        TypeAct::Float64Array => String::from_str("new Float64Array"),
        TypeAct::Int8Array => String::from_str("new Int8Array"),
        TypeAct::Int16Array => String::from_str("new Int16Array"),
        TypeAct::Int32Array => String::from_str("new Int32Array"),
        TypeAct::Uint8Array => String::from_str("new Uint8Array"),
        TypeAct::Uint8ClampedArray => String::from_str("new Uint8ClampedArray"),
        TypeAct::Uint16Array => String::from_str("new Uint16Array"),
        TypeAct::Uint32Array => String::from_str("new Uint32Array"),
        TypeAct::BigInt64Array => String::from_str("new BigInt64Array"),
        TypeAct::BigUint64Array => String::from_str("new BigUint64Array"),
        TypeAct::Unknown => String::from_str(""),
    }
}

/// Equality of two string slices, decided by value.
pub(crate) fn str_eq(a: &str, b: &str) -> (r: bool)
    ensures
        r == (a@ == b@),
{
    let sa = String::from_str(a);
    let sb = String::from_str(b);
    sa == sb
}

pub fn get_acttype_from_string(type_str: &str) -> (r: TypeAct)
    ensures
        r == spec_acttype_from_name(type_str@),
{
    if str_eq(type_str, "number") {
        TypeAct::Number
    } else if str_eq(type_str, "string") {
        TypeAct::String
    } else if str_eq(type_str, "bigint") {
        TypeAct::BigInt
    } else if str_eq(type_str, "boolean") {
        TypeAct::Boolean
    } else if str_eq(type_str, "symbol") {
        TypeAct::Symbol
    } else if str_eq(type_str, "Float32Array") {
        TypeAct::Float32Array
    } else if str_eq(type_str, "Float64Array") {
        TypeAct::Float64Array
    } else if str_eq(type_str, "Int8Array") {
        TypeAct::Int8Array
    } else if str_eq(type_str, "Int16Array") {
        TypeAct::Int16Array
    } else if str_eq(type_str, "Int32Array") {
        TypeAct::Int32Array
    } else if str_eq(type_str, "Uint8Array") {
        TypeAct::Uint8Array
    } else if str_eq(type_str, "Uint8ClampedArray") {
        TypeAct::Uint8ClampedArray
    } else if str_eq(type_str, "Uint16Array") {
        TypeAct::Uint16Array
    } else if str_eq(type_str, "Uint32Array") {
        TypeAct::Uint32Array
    } else if str_eq(type_str, "BigInt64Array") {
        TypeAct::BigInt64Array
    } else if str_eq(type_str, "BigUint64Array") {
        TypeAct::BigUint64Array
    } else {
        TypeAct::Unknown
    }
}

pub fn get_typeinfo_operator_from_acttype(act_type: &TypeAct) -> (r: String)
    ensures
        r@ == spec_typeinfo_operator(*act_type),
{
    match act_type {
        TypeAct::Number => String::from_str("typeof"),
        TypeAct::String => String::from_str("typeof"),
        TypeAct::BigInt => String::from_str("typeof"),
        TypeAct::Boolean => String::from_str("typeof"),
        TypeAct::Symbol => String::from_str("typeof"),
        TypeAct::Unknown => String::from_str(""),
        _ => String::from_str("instanceof"),
    }
}

} // verus!
