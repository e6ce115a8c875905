use finalspark_rs::{Batch, LiveMEA, MeaError, Session};

#[test]
fn test_validate_mea_id() {
    assert!(LiveMEA::validate_mea_id(1).is_ok());
    assert!(LiveMEA::validate_mea_id(4).is_ok());
    assert!(LiveMEA::validate_mea_id(0).is_err());
    assert!(LiveMEA::validate_mea_id(5).is_err());
}

#[test]
fn every_selector_in_range_is_accepted() {
    for id in 1..=4u32 {
        assert_eq!(LiveMEA::validate_mea_id(id), Ok(()));
        assert!(Session::new(id).is_ok());
        assert!(Batch::new(id, 2).is_ok());
    }
}

#[test]
fn selectors_out_of_range_are_rejected() {
    for id in [0u32, 5, 6, 100, u32::MAX] {
        assert_eq!(
            LiveMEA::validate_mea_id(id),
            Err(MeaError::InvalidSelector { mea_id: id })
        );
        assert!(matches!(
            Session::new(id),
            Err(MeaError::InvalidSelector { mea_id }) if mea_id == id
        ));
        assert!(matches!(
            Batch::new(id, 3),
            Err(MeaError::InvalidSelector { mea_id }) if mea_id == id
        ));
    }
}

#[test]
fn new_handle_holds_nothing() {
    let _mea = LiveMEA::new();
}
