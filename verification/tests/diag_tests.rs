use nanocraft::diag::GlError;

#[test]
fn every_catalogued_code_classifies_to_its_condition() {
    assert_eq!(GlError::classify(0), GlError::NoError);
    assert_eq!(GlError::classify(0x0500), GlError::InvalidEnum);
    assert_eq!(GlError::classify(0x0501), GlError::InvalidValue);
    assert_eq!(GlError::classify(0x0502), GlError::InvalidOperation);
    assert_eq!(GlError::classify(0x0503), GlError::StackOverflow);
    assert_eq!(GlError::classify(0x0504), GlError::StackUnderflow);
    assert_eq!(GlError::classify(0x0505), GlError::OutOfMemory);
    assert_eq!(GlError::classify(0x0506), GlError::InvalidFramebufferOperation);
    assert_eq!(GlError::classify(0x0507), GlError::ContextLost);
}

#[test]
fn codes_outside_the_catalogue_are_unknown() {
    assert_eq!(GlError::classify(0x0508), GlError::Unknown);
    assert_eq!(GlError::classify(1), GlError::Unknown);
    assert_eq!(GlError::classify(u32::MAX), GlError::Unknown);
}

#[test]
fn only_the_quiet_case_is_not_reportable() {
    assert!(!GlError::NoError.is_reportable());
    assert!(GlError::InvalidEnum.is_reportable());
    assert!(GlError::OutOfMemory.is_reportable());
    assert!(GlError::Unknown.is_reportable());
}

#[test]
fn labels_carry_the_diagnostic_text() {
    assert_eq!(
        GlError::InvalidEnum.label(),
        "GL_INVALID_ENUM: Enumeration parameter is not a legal enumeration!"
    );
    assert_eq!(
        GlError::InvalidValue.label(),
        "GL_INVALID_VALUE: Value parameter is not a legal value for that function!"
    );
    assert_eq!(GlError::InvalidOperation.label(), "GL_INVALID_OPERATION: Illegal state for that command!");
    assert_eq!(GlError::StackOverflow.label(), "GL_STACK_OVERFLOW");
    assert_eq!(GlError::StackUnderflow.label(), "GL_STACK_UNDERFLOW");
    assert_eq!(GlError::OutOfMemory.label(), "GL_OUT_OF_MEMORY");
    assert_eq!(GlError::InvalidFramebufferOperation.label(), "GL_INVALID_FRAMEBUFFER_OPERATION");
    assert_eq!(GlError::ContextLost.label(), "GL_CONTEXT_LOST");
    assert_eq!(GlError::Unknown.label(), "Unknown Error");
}
