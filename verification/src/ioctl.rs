//! Control codes of the WinRing0 driver.

use vstd::prelude::*;

verus! {

/// The operations this client can ask the driver for.
#[allow(non_camel_case_types)]
#[derive(Clone, Copy, Debug, PartialEq, Eq)]
pub enum IOCTL {
    /// Read a model-specific register: 4-byte selector in, 8-byte value out.
    OLS_READ_MSR,
    /// Write a model-specific register: selector and value in, nothing out.
    OLS_WRITE_MSR,
    /// Read a performance counter: 4-byte index in, 8-byte value out.
    OLS_READ_PMC,
}

impl IOCTL {
    /// The number that selects the operation.
    pub open spec fn spec_code(self) -> u32 {
        match self {
            IOCTL::OLS_READ_MSR => 0x821,
            IOCTL::OLS_WRITE_MSR => 0x822,
            IOCTL::OLS_READ_PMC => 0x823,
        }
    }

    /// The number that selects the operation.
    #[verifier::when_used_as_spec(spec_code)]
    pub fn code(self) -> (code: u32)
        ensures
            code == self.spec_code(),
    {
        match self {
            IOCTL::OLS_READ_MSR => 0x821,
            IOCTL::OLS_WRITE_MSR => 0x822,
            IOCTL::OLS_READ_PMC => 0x823,
        }
    }

    /// The operation that `code` selects, if it selects one.
    pub fn from_code(code: u32) -> (ioctl: Option<IOCTL>)
        ensures
            (match ioctl {
                Some(found) => found.spec_code() == code,
                None => forall|other: IOCTL| other.spec_code() != code,
            }),
    {
        if code == 0x821 {
            Some(IOCTL::OLS_READ_MSR)
        } else if code == 0x822 {
            Some(IOCTL::OLS_WRITE_MSR)
        } else if code == 0x823 {
            Some(IOCTL::OLS_READ_PMC)
        } else {
            None
        }
    }
}

} // verus!
