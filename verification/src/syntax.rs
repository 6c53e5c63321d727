//! The syntactic model of a raw foreign declaration: parameter patterns,
//! parameter types, the classified pointer descriptor, and the analysis of
//! one raw parameter into its name and descriptor.

use vstd::prelude::*;

verus! {

/// Why a transformation was refused. Every failure is final: no partial
/// wrapper is ever produced.
#[derive(Clone, Copy, Debug, PartialEq, Eq, Structural)]
pub enum TransformError {
    /// The annotated input is not a C-calling-convention block holding
    /// exactly one foreign declaration.
    Structure,
    /// A parameter is not pointer-typed, or its binding is not a plain
    /// identifier.
    Shape,
    /// A pointer's pointee is not a simple named type (an array, a further
    /// pointer, or a parameterized type).
    UnsupportedPointee,
}

/// The binding pattern of one raw parameter: a plain identifier, or any
/// other pattern shape (destructuring, wildcard), which is refused.
#[derive(Debug, PartialEq, Eq)]
pub enum ParamPat {
    Ident(String),
    Other,
}

/// Ghost image of `ParamPat`.
pub enum ParamPatV {
    Ident(Seq<char>),
    Other,
}

impl View for ParamPat {
    type V = ParamPatV;

    open spec fn view(&self) -> ParamPatV {
        match self {
            ParamPat::Ident(s) => ParamPatV::Ident(s@),
            ParamPat::Other => ParamPatV::Other,
        }
    }
}

/// The pointee of a pointer-typed parameter: a simple named type, or any
/// other type shape, which is refused.
#[derive(Debug, PartialEq, Eq)]
pub enum PointeeTy {
    Named(String),
    Other,
}

/// Ghost image of `PointeeTy`.
pub enum PointeeTyV {
    Named(Seq<char>),
    Other,
}

impl View for PointeeTy {
    type V = PointeeTyV;

    open spec fn view(&self) -> PointeeTyV {
        match self {
            PointeeTy::Named(s) => PointeeTyV::Named(s@),
            PointeeTy::Other => PointeeTyV::Other,
        }
    }
}

/// The surface type of one raw parameter: a constant or mutable pointer to
/// some pointee, or any non-pointer type, which is refused.
#[derive(Debug, PartialEq, Eq)]
pub enum ParamTy {
    Pointer { mutable: bool, pointee: PointeeTy },
    Other,
}

/// Ghost image of `ParamTy`.
pub enum ParamTyV {
    Pointer { mutable: bool, pointee: PointeeTyV },
    Other,
}

impl View for ParamTy {
    type V = ParamTyV;

    open spec fn view(&self) -> ParamTyV {
        match self {
            ParamTy::Pointer { mutable, pointee } => ParamTyV::Pointer {
                mutable: *mutable,
                pointee: pointee@,
            },
            ParamTy::Other => ParamTyV::Other,
        }
    }
}

/// One parameter of the raw declaration, exactly as written: a binding
/// pattern and a surface type.
#[derive(Debug, PartialEq, Eq)]
pub struct RawParam {
    pub pat: ParamPat,
    pub ty: ParamTy,
}

/// Ghost image of `RawParam`.
pub struct RawParamV {
    pub pat: ParamPatV,
    pub ty: ParamTyV,
}

impl View for RawParam {
    type V = RawParamV;

    open spec fn view(&self) -> RawParamV {
        RawParamV { pat: self.pat@, ty: self.ty@ }
    }
}

/// The ghost images of a parameter list, in order.
pub open spec fn param_views(ps: Seq<RawParam>) -> Seq<RawParamV> {
    ps.map_values(|p: RawParam| p@)
}

/// The whole raw declaration: its identifier, its ordered parameter list,
/// and its optional return type, kept as written.
#[derive(Debug, PartialEq, Eq)]
pub struct RawDecl {
    pub name: String,
    pub params: Vec<RawParam>,
    pub ret: Option<String>,
}

/// Ghost image of `RawDecl`.
pub struct RawDeclV {
    pub name: Seq<char>,
    pub params: Seq<RawParamV>,
    pub ret: Option<Seq<char>>,
}

impl View for RawDecl {
    type V = RawDeclV;

    open spec fn view(&self) -> RawDeclV {
        RawDeclV {
            name: self.name@,
            params: param_views(self.params@),
            ret: match self.ret {
                Some(t) => Some(t@),
                None => None,
            },
        }
    }
}

/// A classified pointer: constant or mutable pointer to a named pointee.
/// The constness of the source pointer is preserved exactly.
#[derive(Debug, PartialEq, Eq)]
pub enum Ptr {
    Constant(String),
    Mutable(String),
}

/// Ghost image of `Ptr`.
pub enum PtrV {
    Constant(Seq<char>),
    Mutable(Seq<char>),
}

impl View for Ptr {
    type V = PtrV;

    open spec fn view(&self) -> PtrV {
        match self {
            Ptr::Constant(t) => PtrV::Constant(t@),
            Ptr::Mutable(t) => PtrV::Mutable(t@),
        }
    }
}

impl PtrV {
    /// The pointed-to type's name, whatever the constness.
    pub open spec fn pointee(self) -> Seq<char> {
        match self {
            PtrV::Constant(t) => t,
            PtrV::Mutable(t) => t,
        }
    }
}

/// The pointer classifier: a constness flag and a pointee shape become a
/// descriptor when the pointee is a simple named type; any other pointee
/// shape is refused. The constness is preserved exactly, with no inference
/// or override.
pub open spec fn classify_ptr_spec(mutable: bool, pointee: PointeeTyV) -> Result<
    PtrV,
    TransformError,
> {
    match pointee {
        PointeeTyV::Other => Err(TransformError::UnsupportedPointee),
        PointeeTyV::Named(t) => Ok(
            if mutable {
                PtrV::Mutable(t)
            } else {
                PtrV::Constant(t)
            },
        ),
    }
}

impl Ptr {
    /// Classify one pointer type from its constness flag and its pointee.
    pub fn classify(mutable: bool, pointee: &PointeeTy) -> (r: Result<Ptr, TransformError>)
        ensures
            r matches Ok(d) ==> classify_ptr_spec(mutable, pointee@) == Ok::<_, TransformError>(
                d@,
            ),
            r matches Err(e) ==> classify_ptr_spec(mutable, pointee@) == Err::<PtrV, _>(e),
    {
        match pointee {
            PointeeTy::Other => Err(TransformError::UnsupportedPointee),
            PointeeTy::Named(t) => Ok(
                if mutable {
                    Ptr::Mutable(t.clone())
                } else {
                    Ptr::Constant(t.clone())
                },
            ),
        }
    }

    /// The pointed-to type's name, whatever the constness.
    pub fn ty(&self) -> (t: String)
        ensures
            t@ == self@.pointee(),
    {
        match self {
            Ptr::Constant(t) => t.clone(),
            Ptr::Mutable(t) => t.clone(),
        }
    }
}

/// What analyzing one raw parameter yields: its name and its classified
/// pointer, or the error that refuses it. The binding pattern is checked
/// first, then the surface type, then the pointee.
pub open spec fn parse_input_spec(p: RawParamV) -> Result<(Seq<char>, PtrV), TransformError> {
    match p.pat {
        ParamPatV::Other => Err(TransformError::Shape),
        ParamPatV::Ident(name) => match p.ty {
            ParamTyV::Other => Err(TransformError::Shape),
            ParamTyV::Pointer { mutable, pointee } => match classify_ptr_spec(mutable, pointee) {
                Err(e) => Err(e),
                Ok(d) => Ok((name, d)),
            },
        },
    }
}

/// Analyze one raw parameter into its name and classified pointer.
pub fn parse_input(p: &RawParam) -> (r: Result<(String, Ptr), TransformError>)
    ensures
        r matches Ok(np) ==> (parse_input_spec(p@) matches Ok(nv) && np.0@ == nv.0 && np.1@
            == nv.1),
        r matches Err(e) ==> parse_input_spec(p@) == Err::<(Seq<char>, PtrV), _>(e),
{
    match &p.pat {
        ParamPat::Other => Err(TransformError::Shape),
        ParamPat::Ident(name) => match &p.ty {
            ParamTy::Other => Err(TransformError::Shape),
            ParamTy::Pointer { mutable, pointee } => match Ptr::classify(*mutable, pointee) {
                Err(e) => Err(e),
                Ok(d) => Ok((name.clone(), d)),
            },
        },
    }
}

} // verus!
