use unite::CustomError;

#[test]
fn each_rule_has_its_sentence() {
    assert_eq!(CustomError::NotVerified.message(), "Organizer is not verified.");
    assert_eq!(CustomError::NoCollateral.message(), "No collateral to refund.");
    assert_eq!(CustomError::EventCancelled.message(), "Event is cancelled.");
    assert_eq!(CustomError::EventAlreadyConfirmed.message(), "Event already confirmed.");
    assert_eq!(CustomError::EventFull.message(), "Event has reached max capacity.");
    assert_eq!(CustomError::EventClosed.message(), "Event deadline has passed.");
    assert_eq!(CustomError::AlreadyVerified.message(), "Organiser is already initialized");
    assert_eq!(
        CustomError::InsufficientCollateral.message(),
        "Collateral is below the minimum threshold."
    );
}

#[test]
fn rules_compare_by_variant() {
    assert_eq!(CustomError::EventFull, CustomError::EventFull);
    assert_ne!(CustomError::EventFull, CustomError::EventClosed);
}
