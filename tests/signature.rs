use remote_process::{MemoryError, Signature, SignatureType};

#[test]
fn absolute_adds_offset() {
    let s = SignatureType::Absolute { offset: 0x10 };
    assert_eq!(s.resolve(0x1000, 0, &[]), Ok(0x1010));
    assert_eq!(s.operand_address(0x1000), Ok(0x1010));
}

#[test]
fn relative32_reads_pointer() {
    let s = SignatureType::Relative32 { offset: 0x4 };
    let mut image = vec![0u8; 16];
    image[4..8].copy_from_slice(&0x2000u32.to_le_bytes());
    assert_eq!(s.resolve(0x1000, 0x1000, &image), Ok(0x2000));
}

#[test]
fn relative32_outside_image_is_not_found() {
    let s = SignatureType::Relative32 { offset: 0x4 };
    let image = vec![0u8; 7];
    assert_eq!(s.resolve(0x1000, 0x1000, &image), Err(MemoryError::NotFound));
    assert_eq!(s.resolve(0x1000, 0x2000, &image), Err(MemoryError::NotFound));
}

#[test]
fn negative_offsets_and_overflow() {
    let s = SignatureType::Absolute { offset: -0x10 };
    assert_eq!(s.resolve(0x1000, 0, &[]), Ok(0xff0));
    assert_eq!(s.resolve(0x8, 0, &[]), Err(MemoryError::NotFound));
    let t = SignatureType::Absolute { offset: 1 };
    assert_eq!(t.operand_address(u64::MAX), Err(MemoryError::NotFound));
    let m = SignatureType::Absolute { offset: i64::MIN };
    assert_eq!(m.operand_address(u64::MAX), Ok(u64::MAX - 0x8000_0000_0000_0000));
}

#[test]
fn default_signature_is_absolute_zero() {
    assert_eq!(SignatureType::default(), SignatureType::Absolute { offset: 0 });
    let sig = Signature::default();
    assert!(sig.bytes.is_empty());
    assert_eq!(sig.sigtype, SignatureType::Absolute { offset: 0 });
    let pattern = ["48", "8b", "??", "05"];
    let sig = Signature { bytes: &pattern, sigtype: SignatureType::Relative32 { offset: 3 } };
    assert_eq!(sig.bytes.len(), 4);
}
