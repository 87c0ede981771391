use vstd::prelude::*;
use crate::error::{ErrModel, ValidationResult};
use crate::value::{vwf, Val, Value};

verus! {

/// The external assembler contract: a type that can be built from a
/// validated field mapping. An implementation reads the fields it needs
/// and returns nothing — rather than aborting — when one is absent or has
/// the wrong shape; the library turns that refusal into a structural type
/// error.
pub trait FromFields: Sized {
    /// Builds a value from validated object fields, or refuses.
    fn from_fields(fields: &Vec<(String, Value)>) -> Option<Self>;
}

/// Validation with direct assembly into a structured type.
pub trait ValidateAs {
    /// Whether every value this schema stores is well formed.
    spec fn wf(&self) -> bool;

    /// What validating the mapping returns, before assembly.
    spec fn spec_validate_map(&self, v: Val) -> Result<Val, ErrModel>;

    /// The structural error reported when the assembler refuses.
    spec fn assembly_error(&self) -> ErrModel;

    /// Validates the value and assembles it into `T`: validation errors
    /// pass through unchanged, success comes only from a validated
    /// mapping, and the one other failure is the assembler's structural
    /// error.
    fn validate_as<T: FromFields>(&self, value: &Value) -> (r: ValidationResult<T>)
        requires
            self.wf(),
            vwf(value@),
        ensures
            self.spec_validate_map(value@) matches Err(e) ==> (r matches Err(e2) && e2@ == e),
            r is Ok ==> self.spec_validate_map(value@) is Ok,
            self.spec_validate_map(value@) is Ok ==> (r matches Err(e2) ==> e2@
                == self.assembly_error()),
    ;
}

} // verus!
