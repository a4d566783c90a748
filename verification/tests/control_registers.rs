use hvcore::bits::{
    CR0_CACHE_DISABLE, CR0_DEFINED, CR0_NOT_WRITE_THROUGH, CR0_PAGING, CR0_PROTECTED_MODE_ENABLE,
    CR4_DEFINED, CR4_OSXSAVE, CR4_VMXE,
};
use hvcore::cr::{
    composite, cr0_fixed_bits, cr4_fixed_bits, cr_image, requested, CrImage, FixedBits,
};
use x86_64::registers::control::{Cr0Flags, Cr4Flags};

#[test]
fn bit_constants_are_those_of_the_register_crate() {
    assert_eq!(CR0_PROTECTED_MODE_ENABLE, Cr0Flags::PROTECTED_MODE_ENABLE.bits());
    assert_eq!(CR0_NOT_WRITE_THROUGH, Cr0Flags::NOT_WRITE_THROUGH.bits());
    assert_eq!(CR0_CACHE_DISABLE, Cr0Flags::CACHE_DISABLE.bits());
    assert_eq!(CR0_PAGING, Cr0Flags::PAGING.bits());
    assert_eq!(CR0_DEFINED, Cr0Flags::all().bits());
    assert_eq!(CR4_VMXE, Cr4Flags::VIRTUAL_MACHINE_EXTENSIONS.bits());
    assert_eq!(CR4_OSXSAVE, Cr4Flags::OSXSAVE.bits());
    assert_eq!(CR4_DEFINED, Cr4Flags::all().bits());
}

#[test]
fn cr0_masks_keep_caching_on_and_leave_paging_free() {
    let fixed = cr0_fixed_bits(0x8000_0021, 0xFFFF_FFFF);
    assert_eq!(fixed, FixedBits { must0: 0x9FFF_FFFF, must1: 0x20 });
    // Even a processor that would allow and demand everything.
    let fixed = cr0_fixed_bits(u64::MAX, u64::MAX);
    assert_eq!(fixed.must0 & (CR0_NOT_WRITE_THROUGH | CR0_CACHE_DISABLE), 0);
    assert_eq!(fixed.must1 & (CR0_PAGING | CR0_PROTECTED_MODE_ENABLE), 0);
    assert_eq!(fixed.must0, 0xFFFF_FFFF_9FFF_FFFF);
    assert_eq!(fixed.must1, 0xFFFF_FFFF_7FFF_FFFE);
}

#[test]
fn cr4_masks_are_the_capability_registers() {
    assert_eq!(cr4_fixed_bits(0x2000, 0x37_27FF), FixedBits { must0: 0x37_27FF, must1: 0x2000 });
}

#[test]
fn cr4_request_always_has_vmxe() {
    assert_eq!(requested(4, 0), 0x2000);
    assert_eq!(requested(4, 0x34_06E0), 0x34_26E0);
    assert_eq!(requested(0, 0x11), 0x11);
    assert_eq!(requested(3, 0x1234_5000), 0x1234_5000);
}

#[test]
fn cr_image_exact_values() {
    let fixed = FixedBits { must0: 0x9FFF_FFFF, must1: 0x20 };
    assert_eq!(
        cr_image(0x6000_0010, fixed),
        CrImage { stored: 0x30, shadow: 0x6000_0010, host_mask: 0xFFFF_FFFF_6000_0020 }
    );
    assert_eq!(
        cr_image(0, fixed),
        CrImage { stored: 0x20, shadow: 0, host_mask: 0xFFFF_FFFF_6000_0020 }
    );
    assert_eq!(
        cr_image(u64::MAX, fixed),
        CrImage { stored: 0x9FFF_FFFF, shadow: u64::MAX, host_mask: 0xFFFF_FFFF_6000_0020 }
    );
}

#[test]
fn stored_value_obeys_literal_masks() {
    let masks = [
        FixedBits { must0: 0x9FFF_FFFF, must1: 0x20 },
        FixedBits { must0: 0x37_27FF, must1: 0x2000 },
        FixedBits { must0: 0xFFFF, must1: 0 },
        FixedBits { must0: 0, must1: 0 },
        FixedBits { must0: u64::MAX, must1: u64::MAX },
    ];
    let values = [0u64, 1, 0x2000, 0x8005_0033, 0x34_06E0, 0xDEAD_BEEF_0BAD_F00D, u64::MAX];
    for fixed in masks {
        for value in values {
            let image = cr_image(value, fixed);
            let s = image.stored;
            assert_eq!((s & fixed.must0) | fixed.must1, s);
            assert_eq!(s & fixed.must1, fixed.must1);
            let guest_owned = fixed.must0 & !fixed.must1;
            assert_eq!(s & guest_owned, value & guest_owned);
        }
    }
}

#[test]
fn cr4_write_stores_vmxe_regardless_of_input() {
    let fixed = cr4_fixed_bits(0x2000, 0x37_27FF);
    for value in [0u64, 0x20, 0x34_06E0, u64::MAX, !0x2000u64] {
        let image = cr_image(requested(4, value), fixed);
        assert_eq!(image.stored & CR4_VMXE, CR4_VMXE);
    }
    // Where the guest owns the bit it is stored as 1 all the same.
    let fixed = FixedBits { must0: 0x2000, must1: 0 };
    assert_eq!(cr_image(requested(4, 0), fixed).stored, 0x2000);
}

#[test]
fn composite_takes_host_bits_from_shadow() {
    assert_eq!(composite(0xFF00, 0xF0F0, 0x00FF), 0xF00F);
    assert_eq!(composite(0x1234, 0, 0xABCD), 0xABCD);
    assert_eq!(composite(0x1234, u64::MAX, 0xABCD), 0x1234);
}

#[test]
fn read_after_write_is_the_request() {
    let fixed = FixedBits { must0: 0x9FFF_FFFF, must1: 0x20 };
    for value in [0u64, 0x6000_0010, 0x8005_0033, u64::MAX] {
        let image = cr_image(value, fixed);
        assert_eq!(composite(image.shadow, image.host_mask, image.stored), value);
    }
}
