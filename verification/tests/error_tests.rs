use okto::{OktoError, OktoErrorKind, OktoResult};

#[test]
fn error_holds_its_kind() {
    let error = OktoError::new(OktoErrorKind::RegisterOutOfRange(9));
    assert_eq!(OktoErrorKind::RegisterOutOfRange(9), error.kind);
    assert_ne!(OktoError::new(OktoErrorKind::RegisterOutOfRange(8)), error);
    let result: OktoResult<u8> = Err(OktoError::new(OktoErrorKind::InvalidOpcode));
    assert_eq!(Err(OktoError::new(OktoErrorKind::InvalidOpcode)), result);
}

#[test]
fn description_of_each_kind() {
    assert_eq!("Stack overflow", OktoError::new(OktoErrorKind::StackOverflow).description());
    assert_eq!("Stack underflow", OktoError::new(OktoErrorKind::StackUnderflow).description());
    assert_eq!("ROM too large", OktoError::new(OktoErrorKind::RomTooLarge).description());
    assert_eq!(
        "Address out of range",
        OktoError::new(OktoErrorKind::AddressOutOfRange).description()
    );
    assert_eq!(
        "Invalid digit sprite",
        OktoError::new(OktoErrorKind::InvalidDigitSprite).description()
    );
    assert_eq!("Invalid sprite", OktoError::new(OktoErrorKind::InvalidSprite).description());
    assert_eq!("Invalid opcode", OktoError::new(OktoErrorKind::InvalidOpcode).description());
    assert_eq!(
        "Register out of range",
        OktoError::new(OktoErrorKind::RegisterOutOfRange(12)).description()
    );
    assert_eq!(
        "Unknown",
        OktoError::new(OktoErrorKind::Unknown(String::from("no key"))).description()
    );
}

#[test]
fn error_text_quotes_the_description() {
    assert_eq!(
        "Error('\"Stack overflow\"')",
        OktoError::new(OktoErrorKind::StackOverflow).to_string()
    );
    assert_eq!(
        "Error('\"Unknown\"')",
        OktoError::new(OktoErrorKind::Unknown(String::from("no key"))).to_string()
    );
    assert_eq!(
        format!("Error('{:?}')", "Register out of range"),
        OktoError::new(OktoErrorKind::RegisterOutOfRange(3)).to_string()
    );
}
