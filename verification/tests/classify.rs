use eore_api::error::OreError;
use submit_engine::classify::{classify, Classification, RemoteError, NEEDS_RESET_CODE};

#[test]
fn reset_code_is_the_programs() {
    assert_eq!(NEEDS_RESET_CODE, u32::from(OreError::NeedsReset));
}

#[test]
fn reset_code_needs_a_precondition() {
    assert_eq!(
        classify(RemoteError::InstructionLevelCustomCode(u32::from(OreError::NeedsReset))),
        Classification::NeedsPrecondition
    );
    assert_eq!(
        classify(RemoteError::InstructionLevelCustomCode(0)),
        Classification::NeedsPrecondition
    );
}

#[test]
fn other_custom_codes_are_fatal_with_their_code() {
    let codes: [u32; 5] = [1, 2, 7, 6000, u32::MAX];
    for code in codes {
        assert_eq!(
            classify(RemoteError::InstructionLevelCustomCode(code)),
            Classification::FatalCustom(code)
        );
    }
    assert_eq!(
        classify(RemoteError::InstructionLevelCustomCode(u32::from(OreError::HashInvalid))),
        Classification::FatalCustom(1)
    );
    assert_eq!(
        classify(RemoteError::InstructionLevelCustomCode(u32::from(OreError::AuthFailed))),
        Classification::FatalCustom(7)
    );
}

#[test]
fn other_instruction_errors_are_fatal() {
    assert_eq!(classify(RemoteError::InstructionLevelOtherCode), Classification::FatalOther);
}

#[test]
fn errors_outside_instructions_are_fatal() {
    assert_eq!(classify(RemoteError::NonInstructionError), Classification::FatalOther);
}
