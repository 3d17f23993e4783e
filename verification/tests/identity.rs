use com_impls::blob::VecBlob;
use com_impls::guid::{eq_guid, uuid, IUnknown, Interface, Uuid};
use com_impls::hresult::{succeeded, E_INVALIDARG, E_NOINTERFACE, S_OK};
use com_impls::refcount::{acquired, released, Disposal};

fn sample() -> Uuid {
    uuid(0x11223344, 0x5566, 0x7788, [1, 2, 3, 4, 5, 6, 7, 8])
}

#[test]
fn uuid_keeps_its_fields() {
    let id = sample();
    assert_eq!(id.data1, 0x11223344);
    assert_eq!(id.data2, 0x5566);
    assert_eq!(id.data3, 0x7788);
    assert_eq!(id.data4, [1, 2, 3, 4, 5, 6, 7, 8]);
}

#[test]
fn equal_identifiers_compare_equal() {
    assert!(eq_guid(&sample(), &sample()));
    assert!(eq_guid(&IUnknown::iid(), &IUnknown::iid()));
    assert!(eq_guid(&VecBlob::iid(), &VecBlob::iid()));
}

#[test]
fn a_difference_in_any_field_is_seen() {
    let base = sample();
    let mut other = sample();
    other.data1 ^= 1;
    assert!(!eq_guid(&base, &other));
    let mut other = sample();
    other.data2 ^= 1;
    assert!(!eq_guid(&base, &other));
    let mut other = sample();
    other.data3 ^= 1;
    assert!(!eq_guid(&base, &other));
    for i in 0..8 {
        let mut other = sample();
        other.data4[i] ^= 0x80;
        assert!(!eq_guid(&base, &other));
        assert!(!eq_guid(&other, &base));
    }
}

#[test]
fn interface_identifiers_have_their_fixed_values() {
    let base = IUnknown::iid();
    assert_eq!(base.data1, 0);
    assert_eq!(base.data2, 0);
    assert_eq!(base.data3, 0);
    assert_eq!(base.data4, [0xC0, 0, 0, 0, 0, 0, 0, 0x46]);
    let blob = VecBlob::iid();
    assert_eq!(blob.data1, 0x8ba5fb08);
    assert_eq!(blob.data2, 0x5195);
    assert_eq!(blob.data3, 0x40e2);
    assert_eq!(blob.data4, [0xac, 0x58, 0x0d, 0x98, 0x9c, 0x3a, 0x01, 0x02]);
    assert!(!eq_guid(&base, &blob));
}

#[test]
fn result_codes_have_their_declared_values() {
    assert_eq!(S_OK, 0);
    assert_eq!(E_INVALIDARG, 0x80070057u32 as i32);
    assert_eq!(E_INVALIDARG, -2147024809);
    assert_eq!(E_NOINTERFACE, 0x80004002u32 as i32);
    assert_eq!(E_NOINTERFACE, -2147467262);
}

#[test]
fn error_codes_are_below_zero() {
    assert!(E_INVALIDARG < 0);
    assert!(E_NOINTERFACE < 0);
    assert_ne!(E_INVALIDARG, E_NOINTERFACE);
}

#[test]
fn only_ok_is_success() {
    assert!(succeeded(S_OK));
    assert!(!succeeded(E_INVALIDARG));
    assert!(!succeeded(E_NOINTERFACE));
    assert!(!succeeded(1));
    assert!(!succeeded(-1));
}

#[test]
fn acquired_adds_one() {
    assert_eq!(acquired(0), 1);
    assert_eq!(acquired(1), 2);
    assert_eq!(acquired(41), 42);
    assert_eq!(acquired(u32::MAX - 1), u32::MAX);
}

#[test]
fn acquired_wraps_at_the_largest_count() {
    assert_eq!(acquired(u32::MAX), 0);
}

#[test]
fn released_at_zero_wraps_and_keeps_the_storage() {
    assert_eq!(released(0), (u32::MAX, Disposal::Keep));
}

#[test]
fn released_takes_one_and_tells_the_last() {
    assert_eq!(released(1), (0, Disposal::Destroy));
    assert_eq!(released(2), (1, Disposal::Keep));
    assert_eq!(released(3), (2, Disposal::Keep));
    assert_eq!(released(u32::MAX), (u32::MAX - 1, Disposal::Keep));
}
