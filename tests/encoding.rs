use hash_str::{HashStr, HashedStr, RefFromBytesError, SIZE_HASH};

#[test]
fn macro_vs_constructor() {
    let hash = HashedStr::new("hey").precomputed_hash();
    let owned = HashStr::anonymous("hey".to_owned());
    let h1 = owned.as_hash_str();
    let bytes = h1.as_hash_str_bytes();
    let h2 = HashStr::ref_from_bytes(&bytes).unwrap();
    assert_eq!(h1, h2);
    assert_eq!(h1.as_str(), "hey");
    assert_eq!(h2.as_str(), "hey");
    assert_eq!(h1.as_str().len(), 3);
    assert_eq!(h2.as_str().len(), 3);
    assert_eq!(h1.as_hash_str_bytes().len(), 3 + SIZE_HASH);
    assert_eq!(h2.as_hash_str_bytes().len(), 3 + SIZE_HASH);
    assert_eq!(hash, h1.precomputed_hash(), "make_hash does not equal runtime hash");
    assert_eq!(hash, h2.precomputed_hash(), "make_hash does not equal const hash");
}

#[test]
fn decode_too_short() {
    assert!(matches!(HashStr::ref_from_bytes(&[0x01, 0x02, 0x03]), Err(RefFromBytesError::TooShort)));
    assert!(matches!(HashStr::ref_from_bytes(&[]), Err(RefFromBytesError::TooShort)));
}

#[test]
fn decode_invalid_utf8() {
    let mut bytes = 5u64.to_ne_bytes().to_vec();
    bytes.push(0xFF);
    assert!(matches!(HashStr::ref_from_bytes(&bytes), Err(RefFromBytesError::UTF8(_))));
}

#[test]
fn decode_hash_only_is_empty_string() {
    let bytes = 42u64.to_ne_bytes();
    let h = HashStr::ref_from_bytes(&bytes).unwrap();
    assert_eq!(h.precomputed_hash(), 42);
    assert_eq!(h.as_str(), "");
}

#[test]
fn encode_layout_and_round_trip() {
    let owned = HashStr::anonymous("héllo".to_owned());
    let h = owned.as_hash_str();
    let bytes = h.as_hash_str_bytes();
    assert_eq!(bytes.len(), SIZE_HASH + "héllo".len());
    assert_eq!(&bytes[..SIZE_HASH], &h.precomputed_hash().to_ne_bytes());
    assert_eq!(&bytes[SIZE_HASH..], "héllo".as_bytes());
    let back = HashStr::ref_from_bytes(&bytes).unwrap();
    assert_eq!(back, h);
    assert_eq!(back.precomputed_hash(), h.precomputed_hash());
    assert_eq!(back.as_str(), "héllo");
}

#[test]
fn decode_reads_in_place() {
    let mut bytes = 1u64.to_ne_bytes().to_vec();
    bytes.extend_from_slice(b"abc");
    let h = HashStr::ref_from_bytes(&bytes).unwrap();
    assert!(core::ptr::addr_eq(h.as_str().as_ptr(), bytes[SIZE_HASH..].as_ptr()));
}

#[test]
fn equality_needs_hash_and_content() {
    let a = HashStr::from_parts(1, "same");
    let b = HashStr::from_parts(2, "same");
    let c = HashStr::from_parts(1, "other");
    assert_ne!(a, b);
    assert_ne!(a, c);
    assert_eq!(a, HashStr::from_parts(1, "same"));
    assert!(a.matches(1, "same"));
    assert!(!a.matches(1, "Same"));
}

#[test]
fn order_is_by_content_alone() {
    let a = HashStr::from_parts(9, "apple");
    let b = HashStr::from_parts(1, "banana");
    let ab = HashStr::from_parts(5, "app");
    assert!(a < b);
    assert!(ab < a);
    assert_eq!(a.partial_cmp(&HashStr::from_parts(0, "apple")), Some(core::cmp::Ordering::Equal));
    assert_eq!(hash_str::hash_str::cmp_content("é", "z"), core::cmp::Ordering::Greater);
}
