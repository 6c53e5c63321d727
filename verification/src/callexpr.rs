//! The call-expression generator: maps the raw parameter list to the
//! argument expressions with which the wrapper invokes the raw routine. It
//! re-derives name and descriptor exactly as the signature transformer does,
//! so the two stay inverse to each other.

use vstd::prelude::*;
use crate::names::{NameClass, classify_name, name_class_spec};
use crate::signature::{all_params_ok, first_error};
use crate::syntax::{
    Ptr, PtrV, RawParam, RawParamV, TransformError, param_views, parse_input, parse_input_spec,
};

verus! {

/// The argument expression substituted for one parameter at the call site.
/// Each form carries the wrapper parameter's name.
#[derive(Debug, PartialEq, Eq)]
pub enum CallExpr {
    /// The safe value itself, passed directly: the error slot's mutable
    /// reference, left to the reference-to-pointer coercion at the foreign
    /// boundary.
    Direct(String),
    /// A read-only raw pointer taken from an array view.
    PtrOf(String),
    /// A mutable raw pointer taken from an array view.
    MutPtrOf(String),
    /// The immutable address of a scalar value.
    RefOf(String),
    /// The mutable address of a scalar value.
    RefMutOf(String),
    /// The immutable address of a byte scalar, first cast to the platform
    /// character type.
    RefCharCast(String),
    /// The mutable address of a byte scalar, first cast to the platform
    /// character type.
    RefMutCharCast(String),
}

/// Ghost image of `CallExpr`.
pub enum CallExprV {
    Direct(Seq<char>),
    PtrOf(Seq<char>),
    MutPtrOf(Seq<char>),
    RefOf(Seq<char>),
    RefMutOf(Seq<char>),
    RefCharCast(Seq<char>),
    RefMutCharCast(Seq<char>),
}

impl View for CallExpr {
    type V = CallExprV;

    open spec fn view(&self) -> CallExprV {
        match self {
            CallExpr::Direct(n) => CallExprV::Direct(n@),
            CallExpr::PtrOf(n) => CallExprV::PtrOf(n@),
            CallExpr::MutPtrOf(n) => CallExprV::MutPtrOf(n@),
            CallExpr::RefOf(n) => CallExprV::RefOf(n@),
            CallExpr::RefMutOf(n) => CallExprV::RefMutOf(n@),
            CallExpr::RefCharCast(n) => CallExprV::RefCharCast(n@),
            CallExpr::RefMutCharCast(n) => CallExprV::RefMutCharCast(n@),
        }
    }
}

/// The ghost images of an argument list, in order.
pub open spec fn call_expr_views(es: Seq<CallExpr>) -> Seq<CallExprV> {
    es.map_values(|e: CallExpr| e@)
}

/// The rule table in the call direction: the argument expression for one
/// parameter, from its name class and its pointer descriptor. The error slot
/// passes its reference directly; array-like names take a raw pointer from
/// their view; every other name takes the scalar's address, with a byte
/// pointee first cast to the platform character type.
pub open spec fn call_expr_spec(name: Seq<char>, ptr: PtrV) -> CallExprV {
    match name_class_spec(name) {
        NameClass::ErrorSlot => CallExprV::Direct(name),
        NameClass::ArrayLike => match ptr {
            PtrV::Constant(_) => CallExprV::PtrOf(name),
            PtrV::Mutable(_) => CallExprV::MutPtrOf(name),
        },
        NameClass::Scalar => match ptr {
            PtrV::Constant(t) => if t == "u8"@ {
                CallExprV::RefCharCast(name)
            } else {
                CallExprV::RefOf(name)
            },
            PtrV::Mutable(t) => if t == "u8"@ {
                CallExprV::RefMutCharCast(name)
            } else {
                CallExprV::RefMutOf(name)
            },
        },
    }
}

/// The argument expression derived from one analyzable raw parameter.
pub open spec fn call_arg_spec(p: RawParamV) -> CallExprV
    recommends
        parse_input_spec(p) is Ok,
{
    let (name, ptr) = parse_input_spec(p)->Ok_0;
    call_expr_spec(name, ptr)
}

/// What the generator yields on a parameter list: one argument expression
/// per parameter, in order, or the first parameter's error.
pub open spec fn call_spec(ps: Seq<RawParamV>) -> Result<Seq<CallExprV>, TransformError> {
    if all_params_ok(ps) {
        Ok(ps.map_values(|p: RawParamV| call_arg_spec(p)))
    } else {
        Err(first_error(ps))
    }
}

/// Map the raw parameter list to the call-site argument expressions.
pub fn call(params: &Vec<RawParam>) -> (r: Result<Vec<CallExpr>, TransformError>)
    ensures
        r is Ok <==> call_spec(param_views(params@)) is Ok,
        r matches Ok(es) ==> call_expr_views(es@) == call_spec(param_views(params@))->Ok_0,
        r matches Err(e) ==> call_spec(param_views(params@)) == Err::<Seq<CallExprV>, _>(e),
{
    let ghost pvs = param_views(params@);
    let mut out: Vec<CallExpr> = Vec::new();
    let mut i: usize = 0;
    while i < params.len()
        invariant
            i <= params@.len(),
            pvs == param_views(params@),
            pvs.len() == params@.len(),
            out@.len() == i,
            forall|j: int| 0 <= j < i ==> (#[trigger] parse_input_spec(pvs[j])) is Ok,
            forall|j: int| 0 <= j < i ==> call_expr_views(out@)[j] == call_arg_spec(pvs[j]),
        decreases params@.len() - i,
    {
        match parse_input(&params[i]) {
            Err(e) => {
                proof {
                    crate::signature::lemma_first_error_at(pvs, i as int);
                }
                return Err(e);
            },
            Ok((name, ptr)) => {
                let class = classify_name(name.as_str());
                let expr = match class {
                    NameClass::ErrorSlot => CallExpr::Direct(name),
                    NameClass::ArrayLike => match ptr {
                        Ptr::Constant(_) => CallExpr::PtrOf(name),
                        Ptr::Mutable(_) => CallExpr::MutPtrOf(name),
                    },
                    NameClass::Scalar => {
                        let byte = String::from_str("u8");
                        match ptr {
                            Ptr::Constant(t) => if t == byte {
                                CallExpr::RefCharCast(name)
                            } else {
                                CallExpr::RefOf(name)
                            },
                            Ptr::Mutable(t) => if t == byte {
                                CallExpr::RefMutCharCast(name)
                            } else {
                                CallExpr::RefMutOf(name)
                            },
                        }
                    },
                };
                let ghost prev = out@;
                out.push(expr);
                proof {
                    assert(expr@ == call_arg_spec(pvs[i as int]));
                    assert forall|j: int| 0 <= j < i + 1 implies call_expr_views(out@)[j]
                        == call_arg_spec(pvs[j]) by {
                        if j < i {
                            assert(out@[j] == prev[j]);
                            assert(call_expr_views(prev)[j] == call_arg_spec(pvs[j]));
                        } else {
                            assert(out@[j] == expr);
                        }
                    }
                }
            },
        }
        i += 1;
    }
    proof {
        assert(call_expr_views(out@) =~= call_spec(pvs)->Ok_0);
    }
    Ok(out)
}

/// The source text of one argument expression.
pub open spec fn call_expr_text(e: CallExprV) -> Seq<char> {
    match e {
        CallExprV::Direct(n) => n,
        CallExprV::PtrOf(n) => n + ".as_ptr()"@,
        CallExprV::MutPtrOf(n) => n + ".as_mut_ptr()"@,
        CallExprV::RefOf(n) => "&"@ + n,
        CallExprV::RefMutOf(n) => "&mut "@ + n,
        CallExprV::RefCharCast(n) => "&("@ + n + " as c_char)"@,
        CallExprV::RefMutCharCast(n) => "&mut ("@ + n + " as c_char)"@,
    }
}

impl CallExpr {
    /// Write the argument expression out as source text.
    pub fn render(&self) -> (s: String)
        ensures
            s@ == call_expr_text(self@),
    {
        match self {
            CallExpr::Direct(n) => n.clone(),
            CallExpr::PtrOf(n) => String::from_str(n.as_str()).concat(".as_ptr()"),
            CallExpr::MutPtrOf(n) => String::from_str(n.as_str()).concat(".as_mut_ptr()"),
            CallExpr::RefOf(n) => String::from_str("&").concat(n.as_str()),
            CallExpr::RefMutOf(n) => String::from_str("&mut ").concat(n.as_str()),
            CallExpr::RefCharCast(n) => String::from_str("&(").concat(n.as_str()).concat(
                " as c_char)",
            ),
            CallExpr::RefMutCharCast(n) => String::from_str("&mut (").concat(n.as_str()).concat(
                " as c_char)",
            ),
        }
    }
}

/// The byte special case: a scalar parameter whose pointee is the single
/// byte type is cast to the platform character type before its address is
/// taken, immutably for a constant pointer and mutably for a mutable one.
pub proof fn lemma_byte_scalar_is_cast(name: Seq<char>)
    requires
        name_class_spec(name) == NameClass::Scalar,
    ensures
        call_expr_spec(name, PtrV::Constant("u8"@)) == CallExprV::RefCharCast(name),
        call_expr_spec(name, PtrV::Mutable("u8"@)) == CallExprV::RefMutCharCast(name),
{
}

} // verus!
