use remote_process::UnknownField;

#[test]
fn equal_bytes_compare_equal() {
    let a = UnknownField::<4>::new([1, 2, 3, 4]);
    let b = UnknownField::<4>::new([1, 2, 3, 4]);
    assert!(a == b);
}

#[test]
fn one_differing_byte_compares_unequal() {
    let a = UnknownField::<4>::new([1, 2, 3, 4]);
    for i in 0..4 {
        let mut d = [1u8, 2, 3, 4];
        d[i] ^= 0x80;
        assert!(a != UnknownField::<4>::new(d));
    }
}

#[test]
fn default_field_is_all_zero() {
    let z = UnknownField::<8>::default();
    assert_eq!(z.bytes(), [0u8; 8]);
    assert!(z == UnknownField::<8>::new([0; 8]));
    assert_eq!(UnknownField::<0>::default().bytes(), [0u8; 0]);
}

#[test]
fn field_renders_hex_bytes() {
    let a = UnknownField::<3>::new([0x00, 0xab, 0x7f]);
    assert_eq!(a.render(), " 00 ab 7f");
    assert_eq!(UnknownField::<0>::default().render(), "");
}
