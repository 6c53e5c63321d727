use lapack_derive::callexpr::CallExpr;
use lapack_derive::signature::{SafeParam, SafeType};
use lapack_derive::syntax::{ParamPat, ParamTy, PointeeTy, RawDecl, RawParam, TransformError};
use lapack_derive::wrapper::{transform, wrap, MacroInput};

fn const_ptr(name: &str, pointee: &str) -> RawParam {
    RawParam {
        pat: ParamPat::Ident(name.to_string()),
        ty: ParamTy::Pointer {
            mutable: false,
            pointee: PointeeTy::Named(pointee.to_string()),
        },
    }
}

fn mut_ptr(name: &str, pointee: &str) -> RawParam {
    RawParam {
        pat: ParamPat::Ident(name.to_string()),
        ty: ParamTy::Pointer {
            mutable: true,
            pointee: PointeeTy::Named(pointee.to_string()),
        },
    }
}

/// The `dgetrs_` declaration: only pointer parameters, no return type.
fn dgetrs_params() -> Vec<RawParam> {
    vec![
        const_ptr("trans", "u8"),
        const_ptr("n", "i32"),
        const_ptr("nrhs", "i32"),
        const_ptr("A", "f64"),
        const_ptr("lda", "i32"),
        const_ptr("ipiv", "i32"),
        mut_ptr("B", "f64"),
        const_ptr("ldb", "i32"),
        mut_ptr("info", "i32"),
    ]
}

/// The `dlange_` declaration: pointer parameters and an `f64` return type.
fn dlange_params() -> Vec<RawParam> {
    vec![
        const_ptr("norm", "u8"),
        const_ptr("m", "i32"),
        const_ptr("n", "i32"),
        const_ptr("A", "f64"),
        const_ptr("lda", "i32"),
        mut_ptr("work", "f64"),
    ]
}

fn rendered_params(ps: &[SafeParam]) -> Vec<String> {
    ps.iter().map(|p| p.render()).collect()
}

fn rendered_args(es: &[CallExpr]) -> Vec<String> {
    es.iter().map(|e| e.render()).collect()
}

#[test]
fn signature_input() {
    let result = lapack_derive::signature::signature_input(&dgetrs_params()).unwrap();
    let answer = vec![
        "trans: u8",
        "n: i32",
        "nrhs: i32",
        "A: &[f64]",
        "lda: i32",
        "ipiv: &[i32]",
        "B: &mut [f64]",
        "ldb: i32",
        "info: &mut i32",
    ];
    assert_eq!(rendered_params(&result), answer);
}

#[test]
fn call() {
    let result = lapack_derive::callexpr::call(&dgetrs_params()).unwrap();
    let answer = vec![
        "&(trans as c_char)",
        "&n",
        "&nrhs",
        "A.as_ptr()",
        "&lda",
        "ipiv.as_ptr()",
        "B.as_mut_ptr()",
        "&ldb",
        "info",
    ];
    assert_eq!(rendered_args(&result), answer);
}

#[test]
fn wrap_dgetrs() {
    let decl = RawDecl {
        name: "dgetrs_".to_string(),
        params: dgetrs_params(),
        ret: None,
    };
    let w = wrap(&decl).unwrap();
    assert_eq!(w.name, "dgetrs");
    assert_eq!(w.raw_name, "dgetrs_");
    assert_eq!(w.ret, None);
    assert_eq!(
        rendered_params(&w.params),
        vec![
            "trans: u8",
            "n: i32",
            "nrhs: i32",
            "A: &[f64]",
            "lda: i32",
            "ipiv: &[i32]",
            "B: &mut [f64]",
            "ldb: i32",
            "info: &mut i32",
        ]
    );
    assert_eq!(
        rendered_args(&w.call_args),
        vec![
            "&(trans as c_char)",
            "&n",
            "&nrhs",
            "A.as_ptr()",
            "&lda",
            "ipiv.as_ptr()",
            "B.as_mut_ptr()",
            "&ldb",
            "info",
        ]
    );
}

#[test]
fn wrap_dlange() {
    let decl = RawDecl {
        name: "dlange_".to_string(),
        params: dlange_params(),
        ret: Some("f64".to_string()),
    };
    let w = wrap(&decl).unwrap();
    assert_eq!(w.name, "dlange");
    assert_eq!(w.raw_name, "dlange_");
    assert_eq!(w.ret, Some("f64".to_string()));
    assert_eq!(
        rendered_params(&w.params),
        vec![
            "norm: u8",
            "m: i32",
            "n: i32",
            "A: &[f64]",
            "lda: i32",
            "work: &mut [f64]",
        ]
    );
    assert_eq!(
        rendered_args(&w.call_args),
        vec![
            "&(norm as c_char)",
            "&m",
            "&n",
            "A.as_ptr()",
            "&lda",
            "work.as_mut_ptr()",
        ]
    );
}

#[test]
fn arity_and_order_kept() {
    let params = dgetrs_params();
    let result = lapack_derive::signature::signature_input(&params).unwrap();
    assert_eq!(result.len(), params.len());
    let names: Vec<&str> = result.iter().map(|p| p.name.as_str()).collect();
    assert_eq!(
        names,
        vec!["trans", "n", "nrhs", "A", "lda", "ipiv", "B", "ldb", "info"]
    );
}

#[test]
fn error_slot_pointee_is_ignored() {
    let params = vec![mut_ptr("info", "c_int")];
    let result = lapack_derive::signature::signature_input(&params).unwrap();
    assert_eq!(rendered_params(&result), vec!["info: &mut i32"]);
    let args = lapack_derive::callexpr::call(&params).unwrap();
    assert_eq!(rendered_args(&args), vec!["info"]);
}

#[test]
fn byte_scalar_is_cast_constant() {
    let args = lapack_derive::callexpr::call(&vec![const_ptr("uplo", "u8")]).unwrap();
    assert_eq!(rendered_args(&args), vec!["&(uplo as c_char)"]);
}

#[test]
fn byte_scalar_is_cast_mutable() {
    let args = lapack_derive::callexpr::call(&vec![mut_ptr("uplo", "u8")]).unwrap();
    assert_eq!(rendered_args(&args), vec!["&mut (uplo as c_char)"]);
}

#[test]
fn mutable_scalar_takes_mutable_address() {
    let args = lapack_derive::callexpr::call(&vec![mut_ptr("n", "i32")]).unwrap();
    assert_eq!(rendered_args(&args), vec!["&mut n"]);
}

#[test]
fn pointer_to_pointer_is_refused() {
    let params = vec![
        const_ptr("n", "i32"),
        RawParam {
            pat: ParamPat::Ident("a".to_string()),
            ty: ParamTy::Pointer {
                mutable: true,
                pointee: PointeeTy::Other,
            },
        },
    ];
    assert_eq!(
        lapack_derive::signature::signature_input(&params),
        Err(TransformError::UnsupportedPointee)
    );
    assert_eq!(lapack_derive::callexpr::call(&params), Err(TransformError::UnsupportedPointee));
    let decl = RawDecl {
        name: "xgesv_".to_string(),
        params,
        ret: None,
    };
    assert_eq!(wrap(&decl), Err(TransformError::UnsupportedPointee));
}

#[test]
fn destructured_pattern_is_refused() {
    let params = vec![RawParam {
        pat: ParamPat::Other,
        ty: ParamTy::Pointer {
            mutable: false,
            pointee: PointeeTy::Named("i32".to_string()),
        },
    }];
    assert_eq!(lapack_derive::signature::signature_input(&params), Err(TransformError::Shape));
    let decl = RawDecl {
        name: "xgesv_".to_string(),
        params,
        ret: None,
    };
    assert_eq!(wrap(&decl), Err(TransformError::Shape));
}

#[test]
fn non_pointer_parameter_is_refused() {
    let params = vec![RawParam {
        pat: ParamPat::Ident("n".to_string()),
        ty: ParamTy::Other,
    }];
    assert_eq!(lapack_derive::signature::signature_input(&params), Err(TransformError::Shape));
    assert_eq!(lapack_derive::callexpr::call(&params), Err(TransformError::Shape));
}

#[test]
fn first_failing_parameter_decides_the_error() {
    let params = vec![
        RawParam {
            pat: ParamPat::Other,
            ty: ParamTy::Other,
        },
        RawParam {
            pat: ParamPat::Ident("a".to_string()),
            ty: ParamTy::Pointer {
                mutable: false,
                pointee: PointeeTy::Other,
            },
        },
    ];
    assert_eq!(lapack_derive::signature::signature_input(&params), Err(TransformError::Shape));
}

#[test]
fn malformed_block_is_refused() {
    assert_eq!(
        transform(&MacroInput::Malformed),
        Err(TransformError::Structure)
    );
}

#[test]
fn transform_declaration() {
    let decl = RawDecl {
        name: "dlange_".to_string(),
        params: dlange_params(),
        ret: Some("f64".to_string()),
    };
    let w = transform(&MacroInput::Declaration(decl)).unwrap();
    assert_eq!(w.name, "dlange");
    assert_eq!(w.params.len(), 6);
    assert_eq!(w.call_args.len(), 6);
}

#[test]
fn render_safe_types() {
    assert_eq!(SafeType::RefMutInt32.render(), "&mut i32");
    assert_eq!(SafeType::ArrayView("f64".to_string()).render(), "&[f64]");
    assert_eq!(
        SafeType::ArrayViewMut("i32".to_string()).render(),
        "&mut [i32]"
    );
    assert_eq!(SafeType::Value("u8".to_string()).render(), "u8");
}

#[test]
fn render_call_exprs() {
    assert_eq!(CallExpr::Direct("info".to_string()).render(), "info");
    assert_eq!(CallExpr::PtrOf("A".to_string()).render(), "A.as_ptr()");
    assert_eq!(
        CallExpr::MutPtrOf("B".to_string()).render(),
        "B.as_mut_ptr()"
    );
    assert_eq!(CallExpr::RefOf("n".to_string()).render(), "&n");
    assert_eq!(CallExpr::RefMutOf("n".to_string()).render(), "&mut n");
    assert_eq!(
        CallExpr::RefCharCast("trans".to_string()).render(),
        "&(trans as c_char)"
    );
    assert_eq!(
        CallExpr::RefMutCharCast("trans".to_string()).render(),
        "&mut (trans as c_char)"
    );
}
