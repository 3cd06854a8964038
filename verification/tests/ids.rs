use blake2::digest::Digest;
use obce::hash::{into_u16, into_u32};
use obce::ids::{assign_id, composite_id, lookup_ids, split_ext_id, split_method_id, IdOverride};

fn blake2b_first_bytes(name: &str) -> [u8; 4] {
    let mut hasher = blake2::Blake2b::<blake2::digest::consts::U32>::new();
    hasher.update(name.as_bytes());
    let digest = hasher.finalize();
    [digest[0], digest[1], digest[2], digest[3]]
}

#[test]
fn into_u16_is_top_bits_of_blake2() {
    for name in ["method", "another_method", "ChainExtension", ""] {
        let b = blake2b_first_bytes(name);
        assert_eq!(into_u16(name), u16::from_be_bytes([b[0], b[1]]));
    }
}

#[test]
fn into_u32_is_top_bits_of_blake2() {
    for name in ["method", "another_method", "ChainExtension"] {
        let b = blake2b_first_bytes(name);
        assert_eq!(into_u32(name), u32::from_be_bytes(b));
    }
}

#[test]
fn assignment_is_idempotent() {
    assert_eq!(into_u16("method"), into_u16("method"));
    assert_eq!(into_u32("method"), into_u32("method"));
    assert_eq!(
        assign_id("ChainExtension", &None),
        assign_id("ChainExtension", &None)
    );
}

#[test]
fn method_tag_extends_method_id() {
    for name in ["method", "another_method"] {
        assert_eq!((into_u32(name) >> 16) as u16, into_u16(name));
    }
}

#[test]
fn assign_id_honours_overrides() {
    assert_eq!(assign_id("Trait", &Some(IdOverride::Numeric(123))), 123);
    assert_eq!(
        assign_id("Trait", &Some(IdOverride::Named(String::from("other")))),
        into_u16("other")
    );
    assert_eq!(assign_id("Trait", &None), into_u16("Trait"));
}

#[test]
fn composite_id_packs_both_halves() {
    assert_eq!(composite_id(0x1234, 0x0001), 0x1234_0001);
    assert_eq!(composite_id(123, 456), (123u32 << 16) | 456);
    let c = composite_id(0xBEEF, 0x00FE);
    assert_eq!(split_ext_id(c), 0xBEEF);
    assert_eq!(split_method_id(c), 0x00FE);
}

#[test]
fn composite_id_separates_methods() {
    let a = composite_id(7, into_u16("method"));
    let b = composite_id(7, into_u16("another_method"));
    assert_ne!(into_u16("method"), into_u16("another_method"));
    assert_ne!(a, b);
}

#[test]
fn lookup_ids_matches_assignment() {
    let (ext, method, composite) = lookup_ids(
        "ChainExtension",
        &Some(IdOverride::Numeric(123)),
        "method",
        &None,
    );
    assert_eq!(ext, 123);
    assert_eq!(method, into_u16("method"));
    assert_eq!(composite, composite_id(123, into_u16("method")));
}
