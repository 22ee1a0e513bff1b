use redleaf::rref::RRef;
use redleaf::traits::{derive_type_id, wrapping_pow, TypeIdentifiable};

#[test]
fn integer_type_ids_are_their_maximum() {
    assert_eq!(<u8 as TypeIdentifiable>::type_id(), 255);
    assert_eq!(<u16 as TypeIdentifiable>::type_id(), 65535);
    assert_eq!(<u32 as TypeIdentifiable>::type_id(), 4294967295);
    assert_eq!(<u64 as TypeIdentifiable>::type_id(), u64::MAX);
    assert_eq!(<usize as TypeIdentifiable>::type_id(), usize::MAX as u64);
    assert_eq!(<i8 as TypeIdentifiable>::type_id(), 127);
    assert_eq!(<i16 as TypeIdentifiable>::type_id(), 32767);
    assert_eq!(<i32 as TypeIdentifiable>::type_id(), 2147483647);
    assert_eq!(<i64 as TypeIdentifiable>::type_id(), 9223372036854775807);
    assert_eq!(<isize as TypeIdentifiable>::type_id(), isize::MAX as u64);
}

#[test]
fn bool_type_id() {
    assert_eq!(<bool as TypeIdentifiable>::type_id(), 22342342);
}

#[test]
fn composite_type_ids() {
    assert_eq!(<Option<u8> as TypeIdentifiable>::type_id(), 54010151);
    assert_eq!(<RRef<u8> as TypeIdentifiable>::type_id(), 142883);
    assert_eq!(<[u8; 4] as TypeIdentifiable>::type_id(), 142880);
    assert_eq!(<[u8; 0] as TypeIdentifiable>::type_id(), 142884);
    assert_eq!(<Option<RRef<u8>> as TypeIdentifiable>::type_id(), 2924575097444215);
}

#[test]
fn composite_type_ids_wrap_around() {
    // u64::MAX + 123 wraps to 122
    assert_eq!(<Option<u64> as TypeIdentifiable>::type_id(), 1815847);
    assert_eq!(<RRef<u64> as TypeIdentifiable>::type_id(), 14883);
    assert_eq!(<[u64; 0] as TypeIdentifiable>::type_id(), 14884);
    // (2^63 + 122)^2 reduces to 122^2
    assert_eq!(<RRef<i64> as TypeIdentifiable>::type_id(), 14883);
    assert_eq!(<Option<bool> as TypeIdentifiable>::type_id(), 11206554785008218560);
}

#[test]
fn wrapping_pow_values() {
    assert_eq!(wrapping_pow(7, 0), 1);
    assert_eq!(wrapping_pow(0, 0), 1);
    assert_eq!(wrapping_pow(3, 4), 81);
    assert_eq!(wrapping_pow(3, 41), 18026252303461234787);
    assert_eq!(wrapping_pow(2, 64), 0);
    assert_eq!(wrapping_pow(3, 41), 3u64.wrapping_pow(41));
}

#[test]
fn derive_type_id_wraps_the_subtraction() {
    assert_eq!(derive_type_id(0, 0, 1, 5), 18446744073709551611);
    assert_eq!(derive_type_id(255, 123, 2, 1), 142883);
}
