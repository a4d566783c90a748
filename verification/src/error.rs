//! Error values shared by every operation of the hypervisor core.

use vstd::prelude::*;

verus! {

/// The kinds of failure, named after the errno values that the guest sees.
#[derive(Clone, Copy, Debug, PartialEq, Eq, Structural)]
pub enum HvErrorNum {
    EPERM,
    ENOENT,
    EIO,
    E2BIG,
    ENOMEM,
    EFAULT,
    EBUSY,
    EEXIST,
    ENODEV,
    EINVAL,
    ERANGE,
    ENOSYS,
}

impl HvErrorNum {
    /// The positive errno number of this kind of failure.
    pub open spec fn spec_errno(self) -> int {
        match self {
            HvErrorNum::EPERM => 1,
            HvErrorNum::ENOENT => 2,
            HvErrorNum::EIO => 5,
            HvErrorNum::E2BIG => 7,
            HvErrorNum::ENOMEM => 12,
            HvErrorNum::EFAULT => 14,
            HvErrorNum::EBUSY => 16,
            HvErrorNum::EEXIST => 17,
            HvErrorNum::ENODEV => 19,
            HvErrorNum::EINVAL => 22,
            HvErrorNum::ERANGE => 34,
            HvErrorNum::ENOSYS => 38,
        }
    }

    pub fn errno(self) -> (n: u32)
        ensures
            n == self.spec_errno(),
            1 <= n <= 38,
    {
        match self {
            HvErrorNum::EPERM => 1,
            HvErrorNum::ENOENT => 2,
            HvErrorNum::EIO => 5,
            HvErrorNum::E2BIG => 7,
            HvErrorNum::ENOMEM => 12,
            HvErrorNum::EFAULT => 14,
            HvErrorNum::EBUSY => 16,
            HvErrorNum::EEXIST => 17,
            HvErrorNum::ENODEV => 19,
            HvErrorNum::EINVAL => 22,
            HvErrorNum::ERANGE => 34,
            HvErrorNum::ENOSYS => 38,
        }
    }
}

/// A failure of a hypervisor operation.
#[derive(Clone, Copy, Debug, PartialEq, Eq, Structural)]
pub struct HvError {
    pub num: HvErrorNum,
}

pub type HvResult<T = ()> = Result<T, HvError>;

impl HvError {
    pub fn new(num: HvErrorNum) -> (e: HvError)
        ensures
            e.num == num,
    {
        HvError { num }
    }

    /// The numeric code of the error: the negated errno.
    pub open spec fn spec_code(self) -> int {
        -self.num.spec_errno()
    }

    pub fn code(&self) -> (c: i32)
        ensures
            c == self.spec_code(),
    {
        let n: u32 = self.num.errno();
        -(n as i32)
    }

    /// The error code as the guest reads it in a 64-bit register: the
    /// two's complement image of the negative code.
    pub open spec fn spec_register_image(self) -> u64 {
        (0x1_0000_0000_0000_0000 - self.num.spec_errno()) as u64
    }

    pub fn register_image(&self) -> (v: u64)
        ensures
            v == self.spec_register_image(),
    {
        let n: u32 = self.num.errno();
        u64::MAX - (n as u64 - 1)
    }
}

} // verus!
