use lapack_derive::names::{classify_name, strip_trailing_underscores, NameClass};
use lapack_derive::syntax::{PointeeTy, Ptr, TransformError};

#[test]
fn strip_one_underscore() {
    assert_eq!(strip_trailing_underscores("dgetrs_"), "dgetrs");
}

#[test]
fn strip_many_underscores() {
    assert_eq!(strip_trailing_underscores("dlange__"), "dlange");
}

#[test]
fn strip_without_underscore_is_a_noop() {
    assert_eq!(strip_trailing_underscores("dgetrs"), "dgetrs");
}

#[test]
fn strip_keeps_inner_underscores() {
    assert_eq!(strip_trailing_underscores("a_b_"), "a_b");
}

#[test]
fn classification_is_case_insensitive() {
    assert_eq!(classify_name("A"), NameClass::ArrayLike);
    assert_eq!(classify_name("a"), NameClass::ArrayLike);
    assert_eq!(classify_name("B"), NameClass::ArrayLike);
    assert_eq!(classify_name("ipiv"), NameClass::ArrayLike);
    assert_eq!(classify_name("IPIV"), NameClass::ArrayLike);
    assert_eq!(classify_name("IpIv"), NameClass::ArrayLike);
    assert_eq!(classify_name("work"), NameClass::ArrayLike);
    assert_eq!(classify_name("Work"), NameClass::ArrayLike);
    assert_eq!(classify_name("info"), NameClass::ErrorSlot);
    assert_eq!(classify_name("INFO"), NameClass::ErrorSlot);
    assert_eq!(classify_name("Info"), NameClass::ErrorSlot);
}

#[test]
fn other_names_are_scalars() {
    assert_eq!(classify_name("trans"), NameClass::Scalar);
    assert_eq!(classify_name("lda"), NameClass::Scalar);
    assert_eq!(classify_name("n"), NameClass::Scalar);
    assert_eq!(classify_name("ab"), NameClass::Scalar);
    assert_eq!(classify_name("workx"), NameClass::Scalar);
    assert_eq!(classify_name(""), NameClass::Scalar);
}

#[test]
fn pointee_name_ignores_constness() {
    assert_eq!(Ptr::Constant("f64".to_string()).ty(), "f64");
    assert_eq!(Ptr::Mutable("i32".to_string()).ty(), "i32");
}

#[test]
fn classifier_preserves_constness() {
    assert_eq!(
        Ptr::classify(false, &PointeeTy::Named("f64".to_string())),
        Ok(Ptr::Constant("f64".to_string()))
    );
    assert_eq!(
        Ptr::classify(true, &PointeeTy::Named("f64".to_string())),
        Ok(Ptr::Mutable("f64".to_string()))
    );
    assert_eq!(
        Ptr::classify(true, &PointeeTy::Other),
        Err(TransformError::UnsupportedPointee)
    );
}
