use vstd::prelude::*;
use crate::text::{dec_str, u64_to_string};

verus! {

/// A (code, message) override pair attached to a schema instance. Once
/// attached it replaces the default code and message of every error the
/// schema produces.
#[derive(Debug)]
pub struct ErrorConfig {
    pub code: String,
    pub message: String,
}

impl View for ErrorConfig {
    type V = (Seq<char>, Seq<char>);

    open spec fn view(&self) -> (Seq<char>, Seq<char>) {
        (self.code@, self.message@)
    }
}

impl Clone for ErrorConfig {
    fn clone(&self) -> (r: Self)
        ensures
            r@ == self@,
    {
        ErrorConfig { code: self.code.clone(), message: self.message.clone() }
    }
}

/// The closed set of failure categories, each carrying what its default
/// message needs. An object failure aggregates the independent errors of
/// its fields, keyed by field name.
#[derive(Debug)]
pub enum ErrorType {
    Type { expected: String, got: String },
    Pattern { pattern: String, got: String },
    MinLength { min: usize, got: usize },
    MaxLength { max: usize, got: usize },
    MissingField { field: String },
    Literal { expected: String, got: String },
    Coercion { from: String, to: String },
    Object { errors: Vec<(String, ValidationError)> },
}

/// A validation failure: its category plus the final (code, message) pair,
/// immutable once constructed.
#[derive(Debug)]
pub struct ValidationError {
    pub code: String,
    pub message: String,
    pub error_type: ErrorType,
}

/// Every failure is returned as a typed result, never as an abort.
pub type ValidationResult<T> = Result<T, ValidationError>;

/// The model of an [`ErrorType`].
pub enum ErrKind {
    Type { expected: Seq<char>, got: Seq<char> },
    Pattern { pattern: Seq<char>, got: Seq<char> },
    MinLength { min: int, got: int },
    MaxLength { max: int, got: int },
    MissingField { field: Seq<char> },
    Literal { expected: Seq<char>, got: Seq<char> },
    Coercion { from: Seq<char>, to: Seq<char> },
    Object { errors: Seq<(Seq<char>, ErrModel)> },
}

/// The model of a [`ValidationError`].
pub struct ErrModel {
    pub kind: ErrKind,
    pub code: Seq<char>,
    pub message: Seq<char>,
}

/// The model of an error type.
pub open spec fn view_of_error_type(t: ErrorType) -> ErrKind
    decreases t,
{
    match t {
        ErrorType::Type { expected, got } => ErrKind::Type { expected: expected@, got: got@ },
        ErrorType::Pattern { pattern, got } => ErrKind::Pattern { pattern: pattern@, got: got@ },
        ErrorType::MinLength { min, got } => ErrKind::MinLength {
            min: min as int,
            got: got as int,
        },
        ErrorType::MaxLength { max, got } => ErrKind::MaxLength {
            max: max as int,
            got: got as int,
        },
        ErrorType::MissingField { field } => ErrKind::MissingField { field: field@ },
        ErrorType::Literal { expected, got } => ErrKind::Literal { expected: expected@, got: got@ },
        ErrorType::Coercion { from, to } => ErrKind::Coercion { from: from@, to: to@ },
        ErrorType::Object { errors } => ErrKind::Object { errors: view_of_err_entries(errors@) },
    }
}

/// The models of an aggregate's per-field errors, in order.
pub open spec fn view_of_err_entries(s: Seq<(String, ValidationError)>) -> Seq<
    (Seq<char>, ErrModel),
>
    decreases s,
{
    if s.len() == 0 {
        Seq::empty()
    } else {
        view_of_err_entries(s.drop_last()).push(
            (s.last().0@, view_of_validation_error(s.last().1)),
        )
    }
}

/// The model of a validation error.
pub open spec fn view_of_validation_error(e: ValidationError) -> ErrModel
    decreases e,
{
    ErrModel {
        kind: view_of_error_type(e.error_type),
        code: e.code@,
        message: e.message@,
    }
}

impl View for ErrorType {
    type V = ErrKind;

    open spec fn view(&self) -> ErrKind {
        view_of_error_type(*self)
    }
}

impl View for ValidationError {
    type V = ErrModel;

    open spec fn view(&self) -> ErrModel {
        view_of_validation_error(*self)
    }
}

pub broadcast proof fn lemma_view_of_err_entries(s: Seq<(String, ValidationError)>)
    ensures
        (#[trigger] view_of_err_entries(s)).len() == s.len(),
        forall|i: int|
            0 <= i < s.len() ==> #[trigger] view_of_err_entries(s)[i] == (
                s[i].0@,
                view_of_validation_error(s[i].1),
            ),
    decreases s,
{
    if s.len() > 0 {
        lemma_view_of_err_entries(s.drop_last());
    }
}

/// The canonical code of each failure category.
pub open spec fn default_code(k: ErrKind) -> Seq<char> {
    match k {
        ErrKind::Type { .. } => "TYPE_ERROR"@,
        ErrKind::Pattern { .. } => "PATTERN_ERROR"@,
        ErrKind::MinLength { .. } => "MIN_LENGTH_ERROR"@,
        ErrKind::MaxLength { .. } => "MAX_LENGTH_ERROR"@,
        ErrKind::MissingField { .. } => "MISSING_FIELD"@,
        ErrKind::Literal { .. } => "LITERAL_ERROR"@,
        ErrKind::Coercion { .. } => "COERCION_ERROR"@,
        ErrKind::Object { .. } => "OBJECT_ERROR"@,
    }
}

/// The default message of an aggregate: `"field: message"` for every failed
/// field, comma-joined, in the aggregate's order.
pub open spec fn object_message(errors: Seq<(Seq<char>, ErrModel)>) -> Seq<char>
    decreases errors.len(),
{
    if errors.len() == 0 {
        Seq::empty()
    } else if errors.len() == 1 {
        errors[0].0 + ": "@ + errors[0].1.message
    } else {
        object_message(errors.drop_last()) + ", "@ + errors.last().0 + ": "@
            + errors.last().1.message
    }
}

/// The canonical message of each failure category.
pub open spec fn default_message(k: ErrKind) -> Seq<char> {
    match k {
        ErrKind::Type { expected, got } => "Type error: expected "@ + expected + ", got "@ + got,
        ErrKind::Pattern { pattern, got } => "Pattern error: '"@ + got
            + "' does not match pattern '"@ + pattern + "'"@,
        ErrKind::MinLength { min, got } => "Length error: expected at least "@ + dec_str(
            min as nat,
        ) + " characters, got "@ + dec_str(got as nat),
        ErrKind::MaxLength { max, got } => "Length error: expected at most "@ + dec_str(
            max as nat,
        ) + " characters, got "@ + dec_str(got as nat),
        ErrKind::MissingField { field } => "Missing required field: '"@ + field + "'"@,
        ErrKind::Literal { expected, got } => "Literal error: expected "@ + expected + ", got "@
            + got,
        ErrKind::Coercion { from, to } => "Coercion error: cannot convert "@ + from + " to "@ + to,
        ErrKind::Object { errors } => object_message(errors),
    }
}

/// What [`ValidationError::new`] builds: the override verbatim when one is
/// attached, else the category's canonical (code, message).
pub open spec fn spec_new_error(kind: ErrKind, config: Option<(Seq<char>, Seq<char>)>) -> ErrModel {
    match config {
        Some(cfg) => ErrModel { kind, code: cfg.0, message: cfg.1 },
        None => ErrModel { kind, code: default_code(kind), message: default_message(kind) },
    }
}

/// The model of an optional error override.
pub open spec fn config_view(config: Option<ErrorConfig>) -> Option<(Seq<char>, Seq<char>)> {
    match config {
        Some(cfg) => Some(cfg@),
        None => None,
    }
}

fn usize_to_string(n: usize) -> (r: String)
    ensures
        r@ == dec_str(n as nat),
{
    u64_to_string(n as u64)
}

impl ValidationError {
    /// Builds the error for a failure category: the override's code and
    /// message verbatim when one is attached, else the canonical pair of
    /// the category.
    pub fn new(error_type: ErrorType, config: Option<ErrorConfig>) -> (r: Self)
        ensures
            r@ == spec_new_error(error_type@, config_view(config)),
    {
        if let Some(cfg) = config {
            return ValidationError { code: cfg.code, message: cfg.message, error_type };
        }
        let code: &'static str = match &error_type {
            ErrorType::Type { .. } => "TYPE_ERROR",
            ErrorType::Pattern { .. } => "PATTERN_ERROR",
            ErrorType::MinLength { .. } => "MIN_LENGTH_ERROR",
            ErrorType::MaxLength { .. } => "MAX_LENGTH_ERROR",
            ErrorType::MissingField { .. } => "MISSING_FIELD",
            ErrorType::Literal { .. } => "LITERAL_ERROR",
            ErrorType::Coercion { .. } => "COERCION_ERROR",
            ErrorType::Object { .. } => "OBJECT_ERROR",
        };
        let message: String = match &error_type {
            ErrorType::Type { expected, got } => {
                let mut m = String::from_str("Type error: expected ");
                m.append(expected.as_str());
                m.append(", got ");
                m.append(got.as_str());
                proof {
                    assert(m@ =~= default_message(error_type@));
                }
                m
            },
            ErrorType::Pattern { pattern, got } => {
                let mut m = String::from_str("Pattern error: '");
                m.append(got.as_str());
                m.append("' does not match pattern '");
                m.append(pattern.as_str());
                m.append("'");
                proof {
                    assert(m@ =~= default_message(error_type@));
                }
                m
            },
            ErrorType::MinLength { min, got } => {
                let mut m = String::from_str("Length error: expected at least ");
                let min_digits = usize_to_string(*min);
                m.append(min_digits.as_str());
                m.append(" characters, got ");
                let got_digits = usize_to_string(*got);
                m.append(got_digits.as_str());
                proof {
                    assert(m@ =~= default_message(error_type@));
                }
                m
            },
            ErrorType::MaxLength { max, got } => {
                let mut m = String::from_str("Length error: expected at most ");
                let max_digits = usize_to_string(*max);
                m.append(max_digits.as_str());
                m.append(" characters, got ");
                let got_digits = usize_to_string(*got);
                m.append(got_digits.as_str());
                proof {
                    assert(m@ =~= default_message(error_type@));
                }
                m
            },
            ErrorType::MissingField { field } => {
                let mut m = String::from_str("Missing required field: '");
                m.append(field.as_str());
                m.append("'");
                proof {
                    assert(m@ =~= default_message(error_type@));
                }
                m
            },
            ErrorType::Literal { expected, got } => {
                let mut m = String::from_str("Literal error: expected ");
                m.append(expected.as_str());
                m.append(", got ");
                m.append(got.as_str());
                proof {
                    assert(m@ =~= default_message(error_type@));
                }
                m
            },
            ErrorType::Coercion { from, to } => {
                let mut m = String::from_str("Coercion error: cannot convert ");
                m.append(from.as_str());
                m.append(" to ");
                m.append(to.as_str());
                proof {
                    assert(m@ =~= default_message(error_type@));
                }
                m
            },
            ErrorType::Object { errors } => {
                let mut m = String::new();
                let n = errors.len();
                let mut i: usize = 0;
                proof {
                    lemma_view_of_err_entries(errors@);
                    assert(view_of_err_entries(errors@).take(0) =~= Seq::empty());
                }
                while i < n
                    invariant
                        0 <= i <= n,
                        n == errors@.len(),
                        view_of_err_entries(errors@).len() == n,
                        m@ == object_message(view_of_err_entries(errors@).take(i as int)),
                    decreases n - i,
                {
                    proof {
                        lemma_view_of_err_entries(errors@);
                    }
                    if i > 0 {
                        m.append(", ");
                    }
                    m.append(errors[i].0.as_str());
                    m.append(": ");
                    m.append(errors[i].1.message.as_str());
                    proof {
                        let ve = view_of_err_entries(errors@);
                        assert(ve.take(i as int + 1).drop_last() =~= ve.take(i as int));
                        assert(ve.take(i as int + 1).last() == ve[i as int]);
                        if i == 0 {
                            assert(ve.take(1)[0] == ve[0]);
                            assert(m@ =~= object_message(ve.take(1)));
                        } else {
                            assert(m@ =~= object_message(ve.take(i as int + 1)));
                        }
                    }
                    i = i + 1;
                }
                proof {
                    assert(view_of_err_entries(errors@).take(n as int) =~= view_of_err_entries(
                        errors@,
                    ));
                }
                m
            },
        };
        let r = ValidationError { code: String::from_str(code), message, error_type };
        r
    }
}

} // verus!
