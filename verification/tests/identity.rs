use vst3::UID;

#[test]
fn test_from_guid() {
    let uid = UID::new([0xABCDEF12, 0x34567890, 0x12345678, 0x90123456]);
    let bytes = uid.to_foreign_bytes();
    assert_eq!(UID::from_foreign_bytes(bytes.as_slice()).unwrap(), uid);
}

#[test]
fn foreign_bytes_are_big_endian_per_word() {
    let uid = UID::new([0x01020304, 0x05060708, 0x090A0B0C, 0x0D0E0F10]);
    let bytes = uid.to_foreign_bytes();
    assert_eq!(bytes.len(), 16);
    assert_eq!(
        bytes,
        vec![1, 2, 3, 4, 5, 6, 7, 8, 9, 10, 11, 12, 13, 14, 15, 16]
    );
}

#[test]
fn from_foreign_bytes_rejects_wrong_length() {
    assert!(UID::from_foreign_bytes(&[0u8; 15]).is_none());
    assert!(UID::from_foreign_bytes(&[0u8; 17]).is_none());
    assert!(UID::from_foreign_bytes(&[]).is_none());
}

#[test]
fn round_trip_holds_for_extremes() {
    for uid in [
        UID::new([0, 0, 0, 0]),
        UID::new([u32::MAX, u32::MAX, u32::MAX, u32::MAX]),
        UID::new([1, 2, 3, 4]),
    ] {
        let bytes = uid.to_foreign_bytes();
        assert_eq!(UID::from_foreign_bytes(bytes.as_slice()).unwrap(), uid);
    }
}

#[test]
fn auto_inc_and_dec_wrap_on_last_word() {
    let uid = UID::new([1, 2, 3, 4]);
    let up = uid.auto_inc();
    assert_eq!(up, UID::new([1, 2, 3, 5]));
    assert_eq!(up.auto_dec(), uid);

    let top = UID::new([1, 2, 3, u32::MAX]);
    assert_eq!(top.auto_inc(), UID::new([1, 2, 3, 0]));
    let bottom = UID::new([1, 2, 3, 0]);
    assert_eq!(bottom.auto_dec(), UID::new([1, 2, 3, u32::MAX]));
}
