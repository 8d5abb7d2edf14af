//! The signature validator for the validated-function mode: a user-declared
//! handler function is checked against the required contract — exactly one
//! parameter, that parameter a reference to the fault record type, and a
//! divergent return type — before it may be installed.
//!
//! The declaration is examined here through a model of the parts the
//! validator reads: the kind of each declared parameter and whether the
//! declared return type is divergent. The surrounding build tooling reduces
//! the declaration's syntax tree to this model.

use vstd::prelude::*;

verus! {

/// What a single declared parameter is, as far as the validator cares: passed
/// by value, a reference to the fault record type, or a reference to any
/// other type.
#[derive(Clone, Copy, PartialEq, Eq, Structural, Debug)]
pub enum ParamKind {
    ByValue,
    RefToFaultRecord,
    RefToOther,
}

/// The validated parts of a user-declared handler function: the kinds of its
/// declared parameters, in order, and whether its declared return type is the
/// divergent one.
pub struct HandlerSignature {
    pub params: Vec<ParamKind>,
    pub diverges: bool,
}

/// The specific constraint a malformed signature violates. Each rejection
/// names exactly one of these.
#[derive(Clone, Copy, PartialEq, Eq, Structural, Debug)]
pub enum SignatureError {
    MissingParameter,
    TooManyParameters,
    ParameterNotReference,
    WrongReferencedType,
    NonDivergentReturn,
}

/// The required contract: exactly one parameter, a reference to the fault
/// record type, and a divergent return type.
pub open spec fn sig_well_formed(s: HandlerSignature) -> bool {
    &&& s.params@.len() == 1
    &&& s.params@[0] is RefToFaultRecord
    &&& s.diverges
}

/// The constraint a malformed signature is reported against: parameter count
/// first, then the parameter's kind, then its referenced type, then the
/// return type.
pub open spec fn first_violation(s: HandlerSignature) -> SignatureError
    recommends
        !sig_well_formed(s),
{
    if s.params@.len() == 0 {
        SignatureError::MissingParameter
    } else if s.params@.len() > 1 {
        SignatureError::TooManyParameters
    } else if s.params@[0] is ByValue {
        SignatureError::ParameterNotReference
    } else if s.params@[0] is RefToOther {
        SignatureError::WrongReferencedType
    } else {
        SignatureError::NonDivergentReturn
    }
}

/// Checks a declared signature against the required contract. Accepts exactly
/// the well-formed signatures; a malformed one is rejected with the specific
/// constraint it violates, and nothing is installed on its account.
pub fn validate_signature(s: &HandlerSignature) -> (r: Result<(), SignatureError>)
    ensures
        r is Ok <==> sig_well_formed(*s),
        r matches Err(e) ==> e == first_violation(*s),
{
    if s.params.len() == 0 {
        Err(SignatureError::MissingParameter)
    } else if s.params.len() > 1 {
        Err(SignatureError::TooManyParameters)
    } else {
        let kind = s.params[0];
        match kind {
            ParamKind::ByValue => Err(SignatureError::ParameterNotReference),
            ParamKind::RefToOther => Err(SignatureError::WrongReferencedType),
            ParamKind::RefToFaultRecord => if s.diverges {
                Ok(())
            } else {
                Err(SignatureError::NonDivergentReturn)
            },
        }
    }
}

/// The diagnostic a rejected declaration is reported with: a fixed message
/// naming the violated constraint.
pub fn diagnostic(e: &SignatureError) -> (m: &'static str)
    ensures
        e is MissingParameter ==> m@ == "the handler must declare exactly one parameter, but none was declared"@,
        e is TooManyParameters ==> m@ == "the handler must declare exactly one parameter, but more than one was declared"@,
        e is ParameterNotReference ==> m@ == "the parameter must be a reference to the fault record type"@,
        e is WrongReferencedType ==> m@ == "the parameter is a reference, but not to the fault record type"@,
        e is NonDivergentReturn ==> m@ == "the handler must declare the divergent return type"@,
{
    match e {
        SignatureError::MissingParameter => "the handler must declare exactly one parameter, but none was declared",
        SignatureError::TooManyParameters => "the handler must declare exactly one parameter, but more than one was declared",
        SignatureError::ParameterNotReference => "the parameter must be a reference to the fault record type",
        SignatureError::WrongReferencedType => "the parameter is a reference, but not to the fault record type",
        SignatureError::NonDivergentReturn => "the handler must declare the divergent return type",
    }
}

} // verus!
