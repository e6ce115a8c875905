use vstd::prelude::*;

use crate::error::MeaError;

verus! {

/// Whether a device selector lies in `1..=4`.
pub open spec fn valid_selector(mea_id: u32) -> bool {
    1 <= mea_id <= 4
}

/// The handle through which samples are requested from the devices.
pub struct LiveMEA {}

impl LiveMEA {
    /// A new handle; it holds no connection.
    pub fn new() -> (r: LiveMEA)
        ensures
            r == (LiveMEA {}),
    {
        LiveMEA {}
    }

    /// Accepts the selectors `1..=4` and rejects every other one with `InvalidSelector`.
    pub fn validate_mea_id(mea_id: u32) -> (r: Result<(), MeaError>)
        ensures
            r is Ok <==> valid_selector(mea_id),
            r is Err ==> r == Err::<(), MeaError>(MeaError::InvalidSelector { mea_id }),
    {
        if mea_id < 1 || mea_id > 4 {
            return Err(MeaError::InvalidSelector { mea_id });
        }
        Ok(())
    }
}

} // verus!
