//! The signature transformer: maps the raw, pointer-based parameter list to
//! the safe-facing parameter list, by the convention table on parameter
//! names. Order and arity are preserved; order decides the positional call
//! at the raw boundary.

use vstd::prelude::*;
use crate::names::{NameClass, classify_name, name_class_spec};
use crate::syntax::{
    Ptr, PtrV, RawParam, RawParamV, TransformError, param_views, parse_input, parse_input_spec,
};

verus! {

/// The safe-facing type of one wrapper parameter.
#[derive(Debug, PartialEq, Eq)]
pub enum SafeType {
    /// A mutable reference to a 32-bit signed integer: the error/status
    /// slot, whatever the declared pointee was.
    RefMutInt32,
    /// A read-only array view over the pointee type.
    ArrayView(String),
    /// A mutable array view over the pointee type.
    ArrayViewMut(String),
    /// The bare pointee type itself, taken by value.
    Value(String),
}

/// Ghost image of `SafeType`.
pub enum SafeTypeV {
    RefMutInt32,
    ArrayView(Seq<char>),
    ArrayViewMut(Seq<char>),
    Value(Seq<char>),
}

impl View for SafeType {
    type V = SafeTypeV;

    open spec fn view(&self) -> SafeTypeV {
        match self {
            SafeType::RefMutInt32 => SafeTypeV::RefMutInt32,
            SafeType::ArrayView(t) => SafeTypeV::ArrayView(t@),
            SafeType::ArrayViewMut(t) => SafeTypeV::ArrayViewMut(t@),
            SafeType::Value(t) => SafeTypeV::Value(t@),
        }
    }
}

/// One safe-facing parameter: the raw parameter's name with its safe type.
#[derive(Debug, PartialEq, Eq)]
pub struct SafeParam {
    pub name: String,
    pub ty: SafeType,
}

/// Ghost image of `SafeParam`.
pub struct SafeParamV {
    pub name: Seq<char>,
    pub ty: SafeTypeV,
}

impl View for SafeParam {
    type V = SafeParamV;

    open spec fn view(&self) -> SafeParamV {
        SafeParamV { name: self.name@, ty: self.ty@ }
    }
}

/// The ghost images of a safe parameter list, in order.
pub open spec fn safe_param_views(ps: Seq<SafeParam>) -> Seq<SafeParamV> {
    ps.map_values(|p: SafeParam| p@)
}

/// The rule table: the safe type of one parameter, from its name class and
/// its pointer descriptor. The error slot ignores the declared pointee; the
/// array-like names keep the pointee under a view whose mutability follows
/// the pointer's; every other name drops the indirection.
pub open spec fn safe_type_spec(name: Seq<char>, ptr: PtrV) -> SafeTypeV {
    match name_class_spec(name) {
        NameClass::ErrorSlot => SafeTypeV::RefMutInt32,
        NameClass::ArrayLike => match ptr {
            PtrV::Constant(t) => SafeTypeV::ArrayView(t),
            PtrV::Mutable(t) => SafeTypeV::ArrayViewMut(t),
        },
        NameClass::Scalar => SafeTypeV::Value(ptr.pointee()),
    }
}

/// The safe parameter derived from one analyzable raw parameter.
pub open spec fn safe_param_spec(p: RawParamV) -> SafeParamV
    recommends
        parse_input_spec(p) is Ok,
{
    let (name, ptr) = parse_input_spec(p)->Ok_0;
    SafeParamV { name, ty: safe_type_spec(name, ptr) }
}

/// Every parameter of the list can be analyzed.
pub open spec fn all_params_ok(ps: Seq<RawParamV>) -> bool {
    forall|i: int| 0 <= i < ps.len() ==> (#[trigger] parse_input_spec(ps[i])) is Ok
}

/// The error of the first parameter that cannot be analyzed.
pub open spec fn first_error(ps: Seq<RawParamV>) -> TransformError
    recommends
        !all_params_ok(ps),
    decreases ps.len(),
{
    if ps.len() == 0 {
        arbitrary()
    } else if parse_input_spec(ps[0]) is Err {
        parse_input_spec(ps[0])->Err_0
    } else {
        first_error(ps.skip(1))
    }
}

/// With every parameter before `i` analyzable and `i` itself not, the list's
/// error is the one at `i`.
pub proof fn lemma_first_error_at(ps: Seq<RawParamV>, i: int)
    requires
        0 <= i < ps.len(),
        parse_input_spec(ps[i]) is Err,
        forall|j: int| 0 <= j < i ==> (#[trigger] parse_input_spec(ps[j])) is Ok,
    ensures
        first_error(ps) == parse_input_spec(ps[i])->Err_0,
    decreases i,
{
    if i > 0 {
        assert(parse_input_spec(ps[0]) is Ok);
        assert forall|j: int| 0 <= j < i - 1 implies (#[trigger] parse_input_spec(
            ps.skip(1)[j],
        )) is Ok by {
            assert(ps.skip(1)[j] == ps[j + 1]);
        }
        assert(ps.skip(1)[i - 1] == ps[i]);
        lemma_first_error_at(ps.skip(1), i - 1);
    }
}

/// What the signature transformer yields on a parameter list: the safe
/// parameters in order, or the first parameter's error.
pub open spec fn signature_input_spec(ps: Seq<RawParamV>) -> Result<
    Seq<SafeParamV>,
    TransformError,
> {
    if all_params_ok(ps) {
        Ok(ps.map_values(|p: RawParamV| safe_param_spec(p)))
    } else {
        Err(first_error(ps))
    }
}

/// Map the raw parameter list to the safe-facing parameter list.
pub fn signature_input(params: &Vec<RawParam>) -> (r: Result<Vec<SafeParam>, TransformError>)
    ensures
        r is Ok <==> signature_input_spec(param_views(params@)) is Ok,
        r matches Ok(sps) ==> safe_param_views(sps@) == signature_input_spec(
            param_views(params@),
        )->Ok_0,
        r matches Err(e) ==> signature_input_spec(param_views(params@)) == Err::<
            Seq<SafeParamV>,
            _,
        >(e),
{
    let ghost pvs = param_views(params@);
    let mut out: Vec<SafeParam> = Vec::new();
    let mut i: usize = 0;
    while i < params.len()
        invariant
            i <= params@.len(),
            pvs == param_views(params@),
            pvs.len() == params@.len(),
            out@.len() == i,
            forall|j: int| 0 <= j < i ==> (#[trigger] parse_input_spec(pvs[j])) is Ok,
            forall|j: int| 0 <= j < i ==> safe_param_views(out@)[j] == safe_param_spec(pvs[j]),
        decreases params@.len() - i,
    {
        match parse_input(&params[i]) {
            Err(e) => {
                proof {
                    lemma_first_error_at(pvs, i as int);
                }
                return Err(e);
            },
            Ok((name, ptr)) => {
                let class = classify_name(name.as_str());
                let ty = match class {
                    NameClass::ErrorSlot => SafeType::RefMutInt32,
                    NameClass::ArrayLike => match ptr {
                        Ptr::Constant(t) => SafeType::ArrayView(t),
                        Ptr::Mutable(t) => SafeType::ArrayViewMut(t),
                    },
                    NameClass::Scalar => SafeType::Value(ptr.ty()),
                };
                let sp = SafeParam { name, ty };
                let ghost prev = out@;
                out.push(sp);
                proof {
                    assert(sp@ == safe_param_spec(pvs[i as int]));
                    assert forall|j: int| 0 <= j < i + 1 implies safe_param_views(out@)[j]
                        == safe_param_spec(pvs[j]) by {
                        if j < i {
                            assert(out@[j] == prev[j]);
                            assert(safe_param_views(prev)[j] == safe_param_spec(pvs[j]));
                        } else {
                            assert(out@[j] == sp);
                        }
                    }
                }
            },
        }
        i += 1;
    }
    proof {
        assert(safe_param_views(out@) =~= signature_input_spec(pvs)->Ok_0);
    }
    Ok(out)
}

/// The source text that a safe type stands for.
pub open spec fn safe_type_text(t: SafeTypeV) -> Seq<char> {
    match t {
        SafeTypeV::RefMutInt32 => "&mut i32"@,
        SafeTypeV::ArrayView(p) => "&["@ + p + "]"@,
        SafeTypeV::ArrayViewMut(p) => "&mut ["@ + p + "]"@,
        SafeTypeV::Value(p) => p,
    }
}

/// The source text of one safe parameter, `name: type`.
pub open spec fn safe_param_text(p: SafeParamV) -> Seq<char> {
    p.name + ": "@ + safe_type_text(p.ty)
}

impl SafeType {
    /// Write the safe type out as source text.
    pub fn render(&self) -> (s: String)
        ensures
            s@ == safe_type_text(self@),
    {
        match self {
            SafeType::RefMutInt32 => String::from_str("&mut i32"),
            SafeType::ArrayView(p) => String::from_str("&[").concat(p.as_str()).concat("]"),
            SafeType::ArrayViewMut(p) => String::from_str("&mut [").concat(p.as_str()).concat(
                "]",
            ),
            SafeType::Value(p) => p.clone(),
        }
    }
}

impl SafeParam {
    /// Write the safe parameter out as source text, `name: type`.
    pub fn render(&self) -> (s: String)
        ensures
            s@ == safe_param_text(self@),
    {
        let ty = self.ty.render();
        String::from_str(self.name.as_str()).concat(": ").concat(ty.as_str())
    }
}

/// The transformer keeps arity and order: on an analyzable list the output
/// has one safe parameter per raw parameter, in the same position and under
/// the same name.
pub proof fn lemma_signature_input_preserves_arity(ps: Seq<RawParamV>)
    requires
        signature_input_spec(ps) is Ok,
    ensures
        signature_input_spec(ps)->Ok_0.len() == ps.len(),
        forall|i: int| 0 <= i < ps.len() ==> (#[trigger] signature_input_spec(ps)->Ok_0[i])
            == safe_param_spec(ps[i]),
        forall|i: int| 0 <= i < ps.len() ==> (#[trigger] signature_input_spec(ps)->Ok_0[i]).name
            == parse_input_spec(ps[i])->Ok_0.0,
{
}

} // verus!
