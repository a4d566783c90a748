use hvcore::error::{HvError, HvErrorNum};

#[test]
fn error_code_is_negated_errno() {
    assert_eq!(HvError::new(HvErrorNum::EPERM).code(), -1);
    assert_eq!(HvError::new(HvErrorNum::ENOENT).code(), -2);
    assert_eq!(HvError::new(HvErrorNum::EIO).code(), -5);
    assert_eq!(HvError::new(HvErrorNum::E2BIG).code(), -7);
    assert_eq!(HvError::new(HvErrorNum::ENOMEM).code(), -12);
    assert_eq!(HvError::new(HvErrorNum::EFAULT).code(), -14);
    assert_eq!(HvError::new(HvErrorNum::EBUSY).code(), -16);
    assert_eq!(HvError::new(HvErrorNum::EEXIST).code(), -17);
    assert_eq!(HvError::new(HvErrorNum::ENODEV).code(), -19);
    assert_eq!(HvError::new(HvErrorNum::EINVAL).code(), -22);
    assert_eq!(HvError::new(HvErrorNum::ERANGE).code(), -34);
    assert_eq!(HvError::new(HvErrorNum::ENOSYS).code(), -38);
}

#[test]
fn error_register_image_is_twos_complement_of_code() {
    assert_eq!(HvError::new(HvErrorNum::ENOSYS).register_image(), 0xFFFF_FFFF_FFFF_FFDA);
    assert_eq!(HvError::new(HvErrorNum::EPERM).register_image(), u64::MAX);
    let e = HvError::new(HvErrorNum::EIO);
    assert_eq!(e.register_image(), e.code() as i64 as u64);
}

#[test]
fn errno_numbers() {
    assert_eq!(HvErrorNum::EBUSY.errno(), 16);
    assert_eq!(HvErrorNum::ENODEV.errno(), 19);
}
