use hvcore::cpu::{
    current_time_nanos, frequency, frequency_of, phys_id, phys_id_of, DEFAULT_FREQUENCY,
};

#[test]
fn frequency_is_at_least_the_default() {
    assert_eq!(DEFAULT_FREQUENCY, 4000);
    assert_eq!(frequency_of(None), 4000);
    assert_eq!(frequency_of(Some(0)), 4000);
    assert_eq!(frequency_of(Some(2400)), 4000);
    assert_eq!(frequency_of(Some(4000)), 4000);
    assert_eq!(frequency_of(Some(4001)), 4001);
    assert_eq!(frequency_of(Some(u16::MAX)), u16::MAX);
}

#[test]
fn frequency_of_this_processor_is_at_least_the_default() {
    assert!(frequency() >= 4000);
    assert_eq!(frequency(), frequency());
}

#[test]
fn phys_id_fits_a_byte() {
    if let Some(id) = phys_id() {
        assert!(id <= 255);
    }
}

#[test]
fn nanoseconds_from_cycles() {
    assert_eq!(current_time_nanos(0, 4000), 0);
    assert_eq!(current_time_nanos(4000, 4000), 1000);
    assert_eq!(current_time_nanos(8_000_000_000, 4000), 2_000_000_000);
    assert_eq!(current_time_nanos(7, 4000), 1);
    assert_eq!(current_time_nanos(3, 4000), 0);
    assert_eq!(current_time_nanos(18_446_744_073_709_551, 4000), 4_611_686_018_427_387);
    assert_eq!(current_time_nanos(1000, 1), 1_000_000);
}

#[test]
fn phys_id_is_the_apic_identifier() {
    assert_eq!(phys_id_of(None), None);
    assert_eq!(phys_id_of(Some(0)), Some(0));
    assert_eq!(phys_id_of(Some(7)), Some(7));
    assert_eq!(phys_id_of(Some(255)), Some(255));
}
