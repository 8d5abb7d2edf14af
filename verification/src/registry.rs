//! The entry point installer: the binary's unique fault entry function is
//! established once, through a write-once registration slot. A request
//! installs either no user behavior, a user code block, or a validated
//! user-declared function; a malformed declaration or a second registration
//! is rejected and leaves the slot untouched.

use vstd::prelude::*;

use crate::validator::{
    HandlerSignature, SignatureError, first_violation, sig_well_formed, validate_signature,
};

verus! {

/// The user-supplied diagnostic code that runs when a fault arrives, before
/// the terminal behavior: an opaque tag standing for the code block, and
/// whether that code diverges on its own (for instance by looping forever).
#[derive(Clone, Copy, PartialEq, Eq, Structural, Debug)]
pub struct UserHandler {
    pub body: u64,
    pub diverges: bool,
}

/// A user-declared handler function offered in validated mode: its declared
/// signature, and the handler its body becomes once the signature is
/// approved. The body is forwarded unchanged.
pub struct HandlerDeclaration {
    pub sig: HandlerSignature,
    pub handler: UserHandler,
}

/// One request to install the binary's fault entry function: with no user
/// code, with a user code block, or with a user-declared function that must
/// first pass the signature validator.
pub enum HandlerRequest {
    Bare,
    Expression(UserHandler),
    Validated(HandlerDeclaration),
}

/// The generated fault entry function: what user code, if any, runs before
/// control falls through to the selected terminal behavior.
#[derive(Clone, Copy, PartialEq, Eq, Structural, Debug)]
pub struct EntryFunction {
    pub handler: Option<UserHandler>,
}

/// Why an installation request was rejected: the declared signature violated
/// a constraint, or an entry function was already registered.
#[derive(Clone, Copy, PartialEq, Eq, Structural, Debug)]
pub enum InstallError {
    Signature(SignatureError),
    DuplicateEntry,
}

/// The constraint a request's declaration violates, if any. Only a validated
/// request carries a declaration to check.
pub open spec fn request_violation(req: HandlerRequest) -> Option<SignatureError> {
    match req {
        HandlerRequest::Validated(decl) => if sig_well_formed(decl.sig) {
            Option::None
        } else {
            Option::Some(first_violation(decl.sig))
        },
        _ => Option::None,
    }
}

/// The entry function a request generates once accepted: a bare request
/// installs no user code; the other two install their handler, its body
/// forwarded unchanged.
pub open spec fn generated_entry(req: HandlerRequest) -> EntryFunction {
    match req {
        HandlerRequest::Bare => EntryFunction { handler: Option::None },
        HandlerRequest::Expression(h) => EntryFunction { handler: Option::Some(h) },
        HandlerRequest::Validated(decl) => EntryFunction { handler: Option::Some(decl.handler) },
    }
}

/// What installing a request against a slot in the given state comes to: a
/// signature violation is rejected first, then a duplicate registration; an
/// accepted request yields the generated entry function.
pub open spec fn install_result(prior: Option<EntryFunction>, req: HandlerRequest) -> Result<
    EntryFunction,
    InstallError,
> {
    match request_violation(req) {
        Option::Some(e) => Err(InstallError::Signature(e)),
        Option::None => if prior is Some {
            Err(InstallError::DuplicateEntry)
        } else {
            Ok(generated_entry(req))
        },
    }
}

/// The process-wide registration slot for the fault entry function: written
/// at most once, never reassigned.
pub struct Registry {
    entry: Option<EntryFunction>,
}

impl Registry {
    /// The entry function this registry holds, if one was installed.
    pub closed spec fn installed(self) -> Option<EntryFunction> {
        self.entry
    }

    /// A fresh registry with nothing installed.
    pub fn new() -> (r: Registry)
        ensures
            r.installed() is None,
    {
        Registry { entry: Option::None }
    }

    /// Installs the binary's fault entry function. Succeeds exactly when the
    /// request's declaration, if any, is well-formed and nothing was
    /// installed before; a rejected request names the violated constraint or
    /// the duplicate registration, and leaves the slot unchanged — no partial
    /// installation occurs.
    pub fn install(&mut self, req: HandlerRequest) -> (r: Result<(), InstallError>)
        ensures
            r is Ok <==> request_violation(req) is None && old(self).installed() is None,
            r is Ok ==> final(self).installed() == Some(generated_entry(req)),
            r is Err ==> final(self).installed() == old(self).installed(),
            request_violation(req) matches Some(e) ==> r == Err::<(), InstallError>(
                InstallError::Signature(e),
            ),
            request_violation(req) is None && old(self).installed() is Some ==> r == Err::<
                (),
                InstallError,
            >(InstallError::DuplicateEntry),
    {
        match &req {
            HandlerRequest::Validated(decl) => {
                match validate_signature(&decl.sig) {
                    Err(e) => {
                        return Err(InstallError::Signature(e));
                    },
                    Ok(()) => {},
                }
            },
            _ => {},
        }
        if self.entry.is_some() {
            return Err(InstallError::DuplicateEntry);
        }
        let entry = match req {
            HandlerRequest::Bare => EntryFunction { handler: Option::None },
            HandlerRequest::Expression(h) => EntryFunction { handler: Option::Some(h) },
            HandlerRequest::Validated(decl) => EntryFunction {
                handler: Option::Some(decl.handler),
            },
        };
        self.entry = Some(entry);
        Ok(())
    }

    /// The installed entry function, observable by the consuming build.
    pub fn installed_entry(&self) -> (e: Option<EntryFunction>)
        ensures
            e == self.installed(),
    {
        self.entry
    }
}

/// Law: registration is a singleton. Once some entry function is installed,
/// every further request fails, whatever it asks for.
pub proof fn lemma_singleton_registration(prior: Option<EntryFunction>, req: HandlerRequest)
    requires
        prior is Some,
    ensures
        install_result(prior, req) is Err,
{
}

/// Law: validation is exhaustive. On an empty slot, a validated request
/// succeeds exactly when its declared signature is well-formed, with the body
/// forwarded unchanged; a malformed one is rejected with the one specific
/// constraint it violates first.
pub proof fn lemma_validation_exhaustive(decl: HandlerDeclaration)
    ensures
        sig_well_formed(decl.sig) ==> install_result(
            Option::None,
            HandlerRequest::Validated(decl),
        ) == Ok::<EntryFunction, InstallError>(generated_entry(HandlerRequest::Validated(decl))),
        !sig_well_formed(decl.sig) ==> install_result(
            Option::None,
            HandlerRequest::Validated(decl),
        ) == Err::<EntryFunction, InstallError>(InstallError::Signature(first_violation(decl.sig))),
        decl.sig.params@.len() == 0 ==> first_violation(decl.sig) is MissingParameter,
        decl.sig.params@.len() > 1 ==> first_violation(decl.sig) is TooManyParameters,
        decl.sig.params@.len() == 1 && decl.sig.params@[0] is ByValue ==> first_violation(
            decl.sig,
        ) is ParameterNotReference,
        decl.sig.params@.len() == 1 && decl.sig.params@[0] is RefToOther ==> first_violation(
            decl.sig,
        ) is WrongReferencedType,
        decl.sig.params@.len() == 1 && decl.sig.params@[0] is RefToFaultRecord && !decl.sig.diverges
            ==> first_violation(decl.sig) is NonDivergentReturn,
{
}

} // verus!
