use clips_nft::guard_result::GuardResult;
use clips_nft::types::Error;

#[test]
fn test_guard_result_pass() {
    let result = GuardResult::Pass;
    assert!(result.passed());
    assert!(!result.failed());
    assert_eq!(result.error(), None);
}

#[test]
fn test_guard_result_fail() {
    let result = GuardResult::Fail(Error::Unauthorized);
    assert!(!result.passed());
    assert!(result.failed());
    assert_eq!(result.error(), Some(Error::Unauthorized));
}

#[test]
fn test_guard_result_to_contract_result_pass() {
    let result = GuardResult::Pass;
    assert_eq!(result.to_contract_result(), Ok(()));
}

#[test]
fn test_guard_result_to_contract_result_fail() {
    let result = GuardResult::Fail(Error::TokenNotFound);
    assert_eq!(result.to_contract_result(), Err(Error::TokenNotFound));
}

#[test]
fn test_from_guard_result_to_result() {
    let result: Result<(), Error> = GuardResult::Pass.into();
    assert_eq!(result, Ok(()));

    let result: Result<(), Error> = GuardResult::Fail(Error::Unauthorized).into();
    assert_eq!(result, Err(Error::Unauthorized));
}

#[test]
fn test_from_result_to_guard_result() {
    let result: GuardResult = Ok::<(), Error>(()).into();
    assert_eq!(result, GuardResult::Pass);

    let result: GuardResult = Err::<(), Error>(Error::ContractPaused).into();
    assert_eq!(result, GuardResult::Fail(Error::ContractPaused));
}

#[test]
fn test_guard_result_equality() {
    assert_eq!(GuardResult::Pass, GuardResult::Pass);
    assert_eq!(
        GuardResult::Fail(Error::Unauthorized),
        GuardResult::Fail(Error::Unauthorized)
    );
    assert_ne!(
        GuardResult::Fail(Error::Unauthorized),
        GuardResult::Fail(Error::TokenNotFound)
    );
}
