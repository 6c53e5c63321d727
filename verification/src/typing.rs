//! Round-trip consistency: substituted into the raw declaration, the
//! generated argument expressions are well typed against the raw parameter
//! types, given the safe parameter list that the wrapper declares.
//!
//! The judgment models the target language's rules at the foreign-call
//! boundary: an array view yields a raw pointer of its element type, the
//! address of a scalar of type `T` yields a pointer to `T`, a reference
//! coerces to the matching raw pointer (and a mutable one also to a
//! constant pointer), and the one sanctioned conversion is the byte
//! scalar's explicit cast to the platform character type.

use vstd::prelude::*;
use crate::callexpr::{CallExprV, call_arg_spec, call_spec};
use crate::names::{NameClass, name_class_spec};
use crate::signature::{SafeParamV, SafeTypeV, safe_param_spec, signature_input_spec};
use crate::syntax::{PtrV, RawParamV, TransformError, parse_input_spec};

verus! {

/// `t` names the 32-bit signed integer type: either its fixed-width name or
/// the C alias that the targeted platforms bind to it. The error slot's
/// reference only coerces to the raw pointer when the declared pointee is
/// this type.
pub open spec fn names_int32(t: Seq<char>) -> bool {
    t == "i32"@ || t == "c_int"@
}

/// One argument expression is well typed against one raw parameter: under
/// the safe parameter `sp`, expression `e` yields a pointer compatible with
/// the raw parameter's descriptor `ptr`.
pub open spec fn arg_well_typed(sp: SafeParamV, e: CallExprV, ptr: PtrV) -> bool {
    match ptr {
        PtrV::Constant(t) => {
            ||| (e matches CallExprV::PtrOf(n) && n == sp.name && sp.ty == SafeTypeV::ArrayView(t))
            ||| (e matches CallExprV::RefOf(n) && n == sp.name && sp.ty == SafeTypeV::Value(t))
            ||| (e matches CallExprV::RefCharCast(n) && n == sp.name && sp.ty == SafeTypeV::Value(
                t,
            ) && t == "u8"@)
            ||| (e matches CallExprV::Direct(n) && n == sp.name && sp.ty
                == SafeTypeV::RefMutInt32 && names_int32(t))
        },
        PtrV::Mutable(t) => {
            ||| (e matches CallExprV::MutPtrOf(n) && n == sp.name && sp.ty
                == SafeTypeV::ArrayViewMut(t))
            ||| (e matches CallExprV::RefMutOf(n) && n == sp.name && sp.ty == SafeTypeV::Value(t))
            ||| (e matches CallExprV::RefMutCharCast(n) && n == sp.name && sp.ty
                == SafeTypeV::Value(t) && t == "u8"@)
            ||| (e matches CallExprV::Direct(n) && n == sp.name && sp.ty
                == SafeTypeV::RefMutInt32 && names_int32(t))
        },
    }
}

/// If the parameter is the error slot, its declared pointee names the
/// 32-bit signed integer type. The slot's safe type is that integer
/// whatever the declaration said, so only such declarations can round-trip.
pub open spec fn error_slot_pointee_ok(p: RawParamV) -> bool {
    parse_input_spec(p) matches Ok(nv) ==> (name_class_spec(nv.0) == NameClass::ErrorSlot
        ==> names_int32(nv.1.pointee()))
}

/// The signature transformer and the call-expression generator accept and
/// refuse exactly the same parameter lists, with the same error.
pub proof fn lemma_signature_call_agree(ps: Seq<RawParamV>)
    ensures
        signature_input_spec(ps) is Ok <==> call_spec(ps) is Ok,
        signature_input_spec(ps) matches Err(e) ==> call_spec(ps) == Err::<Seq<CallExprV>, _>(e),
{
}

/// Round-trip consistency: on a list that the transformer accepts, and
/// whose error slot (if any) declares a 32-bit pointee, the generator
/// accepts too, yields one expression per parameter, and each expression is
/// well typed against its raw parameter under the transformed signature.
pub proof fn lemma_round_trip_well_typed(ps: Seq<RawParamV>)
    requires
        signature_input_spec(ps) is Ok,
        forall|i: int| 0 <= i < ps.len() ==> #[trigger] error_slot_pointee_ok(ps[i]),
    ensures
        call_spec(ps) is Ok,
        call_spec(ps)->Ok_0.len() == ps.len(),
        signature_input_spec(ps)->Ok_0.len() == ps.len(),
        forall|i: int| 0 <= i < ps.len() ==> arg_well_typed(
            #[trigger] signature_input_spec(ps)->Ok_0[i],
            call_spec(ps)->Ok_0[i],
            parse_input_spec(ps[i])->Ok_0.1,
        ),
{
    assert forall|i: int| 0 <= i < ps.len() implies arg_well_typed(
        #[trigger] signature_input_spec(ps)->Ok_0[i],
        call_spec(ps)->Ok_0[i],
        parse_input_spec(ps[i])->Ok_0.1,
    ) by {
        assert(parse_input_spec(ps[i]) is Ok);
        assert(error_slot_pointee_ok(ps[i]));
        assert(signature_input_spec(ps)->Ok_0[i] == safe_param_spec(ps[i]));
        assert(call_spec(ps)->Ok_0[i] == call_arg_spec(ps[i]));
    }
}

} // verus!
