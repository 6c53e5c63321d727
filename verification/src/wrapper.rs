//! The wrapper emitter: assembles the derived public name, the safe
//! parameter list, the kept return type and the generated call into one
//! wrapper declaration, and the transformation entry point that drives it.
//!
//! The wrapper's body is exactly one call of the raw routine. The emitted
//! wrapper is public and marked as carrying unchecked invariants: nothing
//! ties an array view's length to the dimension scalars beside it, and that
//! gap is deliberate and documented, not closed here.

use vstd::prelude::*;
use crate::callexpr::{CallExpr, CallExprV, call, call_expr_views, call_spec};
use crate::names::{strip_trailing_underscores, strip_trailing_underscores_spec};
use crate::signature::{
    SafeParam, SafeParamV, all_params_ok, first_error, safe_param_views, signature_input,
    signature_input_spec,
};
use crate::syntax::{RawDecl, RawDeclV, TransformError};

verus! {

/// The generated wrapper: its identifier (the raw one with trailing
/// underscores stripped), the safe parameter list, the raw declaration's
/// return type, and the one call of the raw routine with its argument
/// expressions.
#[derive(Debug, PartialEq, Eq)]
pub struct WrapperDecl {
    /// The raw routine that the wrapper's body calls.
    pub raw_name: String,
    /// The wrapper's own identifier.
    pub name: String,
    pub params: Vec<SafeParam>,
    pub call_args: Vec<CallExpr>,
    /// The return type, kept exactly as declared; `None` when the raw
    /// declaration has none.
    pub ret: Option<String>,
}

/// Ghost image of `WrapperDecl`.
pub struct WrapperDeclV {
    pub raw_name: Seq<char>,
    pub name: Seq<char>,
    pub params: Seq<SafeParamV>,
    pub call_args: Seq<CallExprV>,
    pub ret: Option<Seq<char>>,
}

impl View for WrapperDecl {
    type V = WrapperDeclV;

    open spec fn view(&self) -> WrapperDeclV {
        WrapperDeclV {
            raw_name: self.raw_name@,
            name: self.name@,
            params: safe_param_views(self.params@),
            call_args: call_expr_views(self.call_args@),
            ret: match self.ret {
                Some(t) => Some(t@),
                None => None,
            },
        }
    }
}

/// What the emitter yields on a raw declaration: the whole wrapper, or the
/// first parameter's error.
pub open spec fn wrap_spec(d: RawDeclV) -> Result<WrapperDeclV, TransformError> {
    if all_params_ok(d.params) {
        Ok(
            WrapperDeclV {
                raw_name: d.name,
                name: strip_trailing_underscores_spec(d.name),
                params: signature_input_spec(d.params)->Ok_0,
                call_args: call_spec(d.params)->Ok_0,
                ret: d.ret,
            },
        )
    } else {
        Err(first_error(d.params))
    }
}

/// Derive the wrapper declaration from a raw declaration.
pub fn wrap(d: &RawDecl) -> (r: Result<WrapperDecl, TransformError>)
    ensures
        r is Ok <==> wrap_spec(d@) is Ok,
        r matches Ok(w) ==> wrap_spec(d@) == Ok::<_, TransformError>(w@),
        r matches Err(e) ==> wrap_spec(d@) == Err::<WrapperDeclV, _>(e),
{
    let params = match signature_input(&d.params) {
        Err(e) => {
            return Err(e);
        },
        Ok(ps) => ps,
    };
    let call_args = match call(&d.params) {
        Err(e) => {
            return Err(e);
        },
        Ok(es) => es,
    };
    let w = WrapperDecl {
        raw_name: d.name.clone(),
        name: strip_trailing_underscores(d.name.as_str()),
        params,
        call_args,
        ret: match &d.ret {
            Some(t) => Some(t.clone()),
            None => None,
        },
    };
    Ok(w)
}

/// The annotated input as the tool sees it: either the one raw declaration
/// taken out of its C-calling-convention block, or anything else, which is
/// refused as a structure error.
pub enum MacroInput {
    Declaration(RawDecl),
    Malformed,
}

/// Ghost image of `MacroInput`.
pub enum MacroInputV {
    Declaration(RawDeclV),
    Malformed,
}

impl View for MacroInput {
    type V = MacroInputV;

    open spec fn view(&self) -> MacroInputV {
        match self {
            MacroInput::Declaration(d) => MacroInputV::Declaration(d@),
            MacroInput::Malformed => MacroInputV::Malformed,
        }
    }
}

/// What the whole transformation yields on the annotated input.
pub open spec fn transform_spec(m: MacroInputV) -> Result<WrapperDeclV, TransformError> {
    match m {
        MacroInputV::Malformed => Err(TransformError::Structure),
        MacroInputV::Declaration(d) => wrap_spec(d),
    }
}

/// The transformation entry point: refuse a malformed block, otherwise
/// derive the wrapper. The caller emits the untouched raw declaration and
/// the wrapper side by side; on any error no output is produced at all.
pub fn transform(input: &MacroInput) -> (r: Result<WrapperDecl, TransformError>)
    ensures
        r is Ok <==> transform_spec(input@) is Ok,
        r matches Ok(w) ==> transform_spec(input@) == Ok::<_, TransformError>(w@),
        r matches Err(e) ==> transform_spec(input@) == Err::<WrapperDeclV, _>(e),
{
    match input {
        MacroInput::Malformed => Err(TransformError::Structure),
        MacroInput::Declaration(d) => wrap(d),
    }
}

} // verus!
