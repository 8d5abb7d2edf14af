use panic_custom::registry::{HandlerDeclaration, HandlerRequest, InstallError, Registry, UserHandler};
use panic_custom::validator::{
    diagnostic, validate_signature, HandlerSignature, ParamKind, SignatureError,
};

fn signature(params: Vec<ParamKind>, diverges: bool) -> HandlerSignature {
    HandlerSignature { params, diverges }
}

#[test]
fn validate_missing_parameter() {
    let sig = signature(vec![], true);
    let r = validate_signature(&sig);
    assert_eq!(r, Err(SignatureError::MissingParameter));
    assert_eq!(
        diagnostic(&SignatureError::MissingParameter),
        "the handler must declare exactly one parameter, but none was declared"
    );
}

#[test]
fn validate_too_many_parameters() {
    let sig = signature(
        vec![ParamKind::RefToFaultRecord, ParamKind::RefToFaultRecord],
        true,
    );
    let r = validate_signature(&sig);
    assert_eq!(r, Err(SignatureError::TooManyParameters));
    assert_eq!(
        diagnostic(&SignatureError::TooManyParameters),
        "the handler must declare exactly one parameter, but more than one was declared"
    );
}

#[test]
fn validate_value_parameter_rejected() {
    let sig = signature(vec![ParamKind::ByValue], true);
    let r = validate_signature(&sig);
    assert_eq!(r, Err(SignatureError::ParameterNotReference));
    assert_eq!(
        diagnostic(&SignatureError::ParameterNotReference),
        "the parameter must be a reference to the fault record type"
    );
}

#[test]
fn validate_wrong_referenced_type() {
    let sig = signature(vec![ParamKind::RefToOther], true);
    let r = validate_signature(&sig);
    assert_eq!(r, Err(SignatureError::WrongReferencedType));
    assert_eq!(
        diagnostic(&SignatureError::WrongReferencedType),
        "the parameter is a reference, but not to the fault record type"
    );
}

#[test]
fn validate_non_divergent_return() {
    let sig = signature(vec![ParamKind::RefToFaultRecord], false);
    let r = validate_signature(&sig);
    assert_eq!(r, Err(SignatureError::NonDivergentReturn));
    assert_eq!(
        diagnostic(&SignatureError::NonDivergentReturn),
        "the handler must declare the divergent return type"
    );
}

#[test]
fn validate_well_formed_and_installable() {
    let sig = signature(vec![ParamKind::RefToFaultRecord], true);
    assert_eq!(validate_signature(&sig), Ok(()));

    // A well-formed declaration must also install into an empty registry.
    let mut reg = Registry::new();
    let decl = HandlerDeclaration {
        sig: signature(vec![ParamKind::RefToFaultRecord], true),
        handler: UserHandler { body: 3, diverges: true },
    };
    let r = reg.install(HandlerRequest::Validated(decl));
    assert_eq!(r, Ok(()));
    let entry = reg.installed_entry().expect("an entry function must be installed");
    assert_eq!(entry.handler, Some(UserHandler { body: 3, diverges: true }));
}

#[test]
fn scenario_validated_value_parameter_fails_build() {
    // Validated mode, function declared with a non-reference parameter type:
    // the build fails citing the parameter-must-be-a-reference diagnostic,
    // and nothing is installed.
    let mut reg = Registry::new();
    let decl = HandlerDeclaration {
        sig: signature(vec![ParamKind::ByValue], true),
        handler: UserHandler { body: 0, diverges: false },
    };
    let r = reg.install(HandlerRequest::Validated(decl));
    assert_eq!(
        r,
        Err(InstallError::Signature(SignatureError::ParameterNotReference))
    );
    let message = diagnostic(&SignatureError::ParameterNotReference);
    assert!(message.contains("must be a reference"));
    assert_eq!(reg.installed_entry(), None);
}

#[test]
fn duplicate_registration_fails() {
    let mut reg = Registry::new();
    assert_eq!(reg.install(HandlerRequest::Bare), Ok(()));
    let second = reg.install(HandlerRequest::Expression(UserHandler {
        body: 9,
        diverges: false,
    }));
    assert_eq!(second, Err(InstallError::DuplicateEntry));
    // The first registration is untouched.
    let entry = reg.installed_entry().expect("the first entry function must remain");
    assert_eq!(entry.handler, None);
}
