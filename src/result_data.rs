use vstd::prelude::*;
use crate::conversion::{MethodOutcome, outcome_fits};

verus! {

/// One generic argument of a path segment, as far as the outcome model reads it.
#[derive(Debug)]
pub enum GenericArgument {
    /// A type argument, held as the type's source text.
    Type(String),
    /// A lifetime, a constant, a binding or a constraint.
    Other,
}

/// The arguments that follow one segment of a path.
#[derive(Debug)]
pub enum PathArguments {
    /// No arguments: `Result`.
    Bare,
    /// Arguments in angle brackets: `Result<T, E>`.
    AngleBracketed(Vec<GenericArgument>),
    /// Arguments in parentheses: `Fn(A) -> B`.
    Parenthesized,
}

/// One segment of a path: its identifier and the arguments that follow it.
#[derive(Debug)]
pub struct PathSegment {
    pub ident: String,
    pub arguments: PathArguments,
}

/// A path such as `std::result::Result<T, E>`.
#[derive(Debug)]
pub struct TypePath {
    /// The path starts with `::`.
    pub leading_colon: bool,
    pub segments: Vec<PathSegment>,
}

/// A declared type: its source text and, for a path type without a qualified `Self`, its
/// path.
#[derive(Debug)]
pub struct Type {
    pub text: String,
    pub path: Option<TypePath>,
}

/// What a method declares that it returns.
#[derive(Debug)]
pub enum ReturnType {
    /// Nothing is declared: the method returns `()`.
    Default,
    /// The declared type.
    Type(Type),
}

/// The outcome model of a method: a plain value, or a success and a failure type.
#[derive(Debug)]
pub enum ResultData {
    /// The method returns a plain value of this type and never fails.
    NotResult(String),
    /// The method returns a `Result` with these success and failure types.
    Result { ok_type: String, err_type: String },
}

/// The mathematical value of an outcome model: the types as character sequences.
pub enum ResultView {
    NotResult(Seq<char>),
    Result(Seq<char>, Seq<char>),
}

impl ResultView {
    /// The success type, or the plain type of a method that cannot fail.
    pub open spec fn ok(self) -> Seq<char> {
        match self {
            ResultView::NotResult(t) => t,
            ResultView::Result(ok, _) => ok,
        }
    }

    /// The method can fail.
    pub open spec fn is_fallible(self) -> bool {
        self is Result
    }

    /// The failure type of a method that can fail.
    pub open spec fn err(self) -> Seq<char>
        recommends
            self.is_fallible(),
    {
        match self {
            ResultView::NotResult(_) => Seq::empty(),
            ResultView::Result(_, err) => err,
        }
    }
}

impl View for ResultData {
    type V = ResultView;

    open spec fn view(&self) -> ResultView {
        match self {
            ResultData::NotResult(t) => ResultView::NotResult(t@),
            ResultData::Result { ok_type, err_type } => ResultView::Result(ok_type@, err_type@),
        }
    }
}

impl Clone for ResultData {
    fn clone(&self) -> (r: Self)
        ensures
            r == *self,
    {
        match self {
            ResultData::NotResult(t) => ResultData::NotResult(t.clone()),
            ResultData::Result { ok_type, err_type } => ResultData::Result {
                ok_type: ok_type.clone(),
                err_type: err_type.clone(),
            },
        }
    }
}

impl PartialEq for ResultData {
    fn eq(&self, other: &ResultData) -> (r: bool) {
        match (self, other) {
            (ResultData::NotResult(a), ResultData::NotResult(b)) => *a == *b,
            (
                ResultData::Result { ok_type: a_ok, err_type: a_err },
                ResultData::Result { ok_type: b_ok, err_type: b_err },
            ) => *a_ok == *b_ok && *a_err == *b_err,
            _ => false,
        }
    }
}

impl vstd::std_specs::cmp::PartialEqSpecImpl for ResultData {
    open spec fn obeys_eq_spec() -> bool {
        true
    }

    open spec fn eq_spec(&self, other: &ResultData) -> bool {
        self@ == other@
    }
}

impl Eq for ResultData {
}

/// The type text of `()`.
pub open spec fn unit_text() -> Seq<char> {
    "()"@
}

/// The arguments of the path's `Result` segment, when the path names `Result` (without a
/// leading `::`) or `std::result::Result`.
pub open spec fn result_arguments(path: TypePath) -> Option<PathArguments> {
    let segs = path.segments@;
    if segs.len() == 0 {
        None
    } else if segs[0].ident@ == "Result"@ && !path.leading_colon {
        Some(segs[0].arguments)
    } else if segs.len() >= 3 && segs[0].ident@ == "std"@ && segs[1].ident@ == "result"@
        && segs[2].ident@ == "Result"@ {
        Some(segs[2].arguments)
    } else {
        None
    }
}

/// The outcome read from a path that names `Result` with exactly two type arguments.
pub open spec fn extracted_result(path: TypePath) -> Option<ResultView> {
    match result_arguments(path) {
        Some(PathArguments::AngleBracketed(args)) => {
            if args@.len() == 2 && args@[0] is Type && args@[1] is Type {
                Some(ResultView::Result(args@[0]->Type_0@, args@[1]->Type_0@))
            } else {
                None
            }
        },
        _ => None,
    }
}

/// The outcome model of a declared type: a `Result` when its path names one with two type
/// arguments, a plain value of that type otherwise.
pub open spec fn outcome_of_type(t: Type) -> ResultView {
    match t.path {
        Some(p) => match extracted_result(p) {
            Some(v) => v,
            None => ResultView::NotResult(t.text@),
        },
        None => ResultView::NotResult(t.text@),
    }
}

/// The outcome model of a declared return type; a method without one returns `()`.
pub open spec fn outcome_of(rt: ReturnType) -> ResultView {
    match rt {
        ReturnType::Default => ResultView::NotResult(unit_text()),
        ReturnType::Type(t) => outcome_of_type(t),
    }
}

/// An outcome as a `Result`: a plain value or a success is `Ok`, a failure is `Err`.
pub open spec fn outcome_to_result<V>(o: MethodOutcome<V>) -> Result<V, V> {
    match o {
        MethodOutcome::Failure(e) => Err(e),
        MethodOutcome::Success(v) => Ok(v),
        MethodOutcome::Value(v) => Ok(v),
    }
}

/// The outcome of a method with model `result` read back from a `Result`; `None` for a
/// failure of a method that cannot fail.
pub open spec fn outcome_from_result<V>(result: ResultView, r: Result<V, V>) -> Option<
    MethodOutcome<V>,
> {
    match r {
        Ok(v) => Some(
            if result.is_fallible() {
                MethodOutcome::Success(v)
            } else {
                MethodOutcome::Value(v)
            },
        ),
        Err(e) => if result.is_fallible() {
            Some(MethodOutcome::Failure(e))
        } else {
            None
        },
    }
}

/// Turning a method's outcome into a `Result` and reading it back gives the outcome again.
pub proof fn lemma_result_round_trip<V>(result: ResultView, o: MethodOutcome<V>)
    requires
        outcome_fits(result, o),
    ensures
        outcome_from_result(result, outcome_to_result(o)) == Some(o),
{
}

/// The `String` for the type `()`.
pub fn unit_type() -> (r: String)
    ensures
        r@ == unit_text(),
{
    String::from_str("()")
}

/// Tells whether `s` holds exactly the characters of `lit`.
fn text_is(s: &String, lit: &str) -> (r: bool)
    ensures
        r == (s@ == lit@),
{
    *s == String::from_str(lit)
}

impl ResultData {
    /// Builds the outcome model of a method from its declared return type.
    pub fn new(return_type: &ReturnType) -> (r: ResultData)
        ensures
            r@ == outcome_of(*return_type),
    {
        match return_type {
            ReturnType::Default => ResultData::NotResult(unit_type()),
            ReturnType::Type(actual_return_type) => Self::parse_actual_return_type(
                actual_return_type,
            ),
        }
    }

    /// Builds the outcome model from a declared type.
    fn parse_actual_return_type(return_type: &Type) -> (r: ResultData)
        ensures
            r@ == outcome_of_type(*return_type),
    {
        match &return_type.path {
            Some(path) => match Self::extract_result_type(path) {
                Some(result) => result,
                None => ResultData::NotResult(return_type.text.clone()),
            },
            None => ResultData::NotResult(return_type.text.clone()),
        }
    }

    /// Reads the success and failure types from a path that names `Result`.
    fn extract_result_type(path: &TypePath) -> (r: Option<ResultData>)
        ensures
            match r {
                Some(d) => extracted_result(*path) == Some(d@),
                None => extracted_result(*path) is None,
            },
    {
        let arguments = match Self::extract_result_type_arguments(path) {
            Some(arguments) => arguments,
            None => return None,
        };
        let generic_types = match arguments {
            PathArguments::AngleBracketed(arguments) => arguments,
            _ => return None,
        };
        if generic_types.len() != 2 {
            return None;
        }
        let ok_type = match &generic_types[0] {
            GenericArgument::Type(ok_type) => ok_type.clone(),
            _ => return None,
        };
        let err_type = match &generic_types[1] {
            GenericArgument::Type(err_type) => err_type.clone(),
            _ => return None,
        };
        Some(ResultData::Result { ok_type, err_type })
    }

    /// The arguments of the `Result` segment of a path that is `Result` or
    /// `std::result::Result`.
    fn extract_result_type_arguments(path: &TypePath) -> (r: Option<&PathArguments>)
        ensures
            match r {
                Some(a) => result_arguments(*path) == Some(*a),
                None => result_arguments(*path) is None,
            },
    {
        let segments = &path.segments;
        if segments.len() == 0 {
            return None;
        }
        let first_segment = &segments[0];
        if text_is(&first_segment.ident, "Result") && !path.leading_colon {
            Some(&first_segment.arguments)
        } else {
            if segments.len() < 3 {
                return None;
            }
            let second_segment = &segments[1];
            let third_segment = &segments[2];
            if text_is(&first_segment.ident, "std") && text_is(&second_segment.ident, "result")
                && text_is(&third_segment.ident, "Result") {
                Some(&third_segment.arguments)
            } else {
                None
            }
        }
    }

    /// The success type, or the plain type when the method cannot fail.
    pub fn ok_type(&self) -> (r: &String)
        ensures
            r@ == self@.ok(),
    {
        match self {
            ResultData::NotResult(return_type) => return_type,
            ResultData::Result { ok_type, .. } => ok_type,
        }
    }

    /// The method's outcome as a `Result`: a plain value becomes a success.
    pub fn conversion_to_result<V>(&self, outcome: MethodOutcome<V>) -> (r: Result<V, V>)
        requires
            outcome_fits(self@, outcome),
        ensures
            r == outcome_to_result(outcome),
    {
        match outcome {
            MethodOutcome::Failure(e) => Err(e),
            MethodOutcome::Success(v) => Ok(v),
            MethodOutcome::Value(v) => Ok(v),
        }
    }

    /// The method's outcome read back from a `Result`; `None` for a failure of a method
    /// that cannot fail, a breach of the router's contract.
    pub fn conversion_from_result<V>(&self, result: Result<V, V>) -> (r: Option<MethodOutcome<V>>)
        ensures
            r == outcome_from_result(self@, result),
    {
        match self {
            ResultData::NotResult(_) => match result {
                Ok(v) => Some(MethodOutcome::Value(v)),
                Err(_) => None,
            },
            ResultData::Result { .. } => match result {
                Ok(v) => Some(MethodOutcome::Success(v)),
                Err(e) => Some(MethodOutcome::Failure(e)),
            },
        }
    }

    /// The failure type, when the method can fail.
    pub fn err_type(&self) -> (r: Option<&String>)
        ensures
            match r {
                Some(e) => self@.is_fallible() && e@ == self@.err(),
                None => !self@.is_fallible(),
            },
    {
        match self {
            ResultData::NotResult(_) => None,
            ResultData::Result { err_type, .. } => Some(err_type),
        }
    }
}

} // verus!
