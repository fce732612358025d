use uuid_rs::{Case, Layout, Node, Uuid, UUID};

#[test]
fn render_lower_and_upper() {
    let u = UUID([
        0x6b, 0xa7, 0xb8, 0x10, 0x9d, 0xad, 0x11, 0xd1, 0x80, 0xb4, 0x00, 0xc0, 0x4f, 0xd4, 0x30,
        0xc8,
    ]);
    assert_eq!(u.format_hex(Case::Lower), "6ba7b810-9dad-11d1-80b4-00c04fd430c8");
    assert_eq!(u.format_hex(Case::Upper), "6BA7B810-9DAD-11D1-80B4-00C04FD430C8");
    assert_eq!(u.to_string(), "6ba7b810-9dad-11d1-80b4-00c04fd430c8");
    let l = Layout::from_bytes(&u);
    assert_eq!(l.render(Case::Upper), "6BA7B810-9DAD-11D1-80B4-00C04FD430C8");
}

#[test]
fn node_to_string_is_lower_hex() {
    assert_eq!(Node([0xff, 0xab, 0, 1, 0x10, 0x9c]).to_string(), "ff-ab-00-01-10-9c");
}

#[test]
fn nil_identifier_is_accepted() {
    assert!(UUID::is_valid("00000000-0000-0000-0000-000000000000"));
}

#[test]
fn version_digit_above_five_is_rejected() {
    assert!(!UUID::is_valid("00000000-0000-7000-0000-000000000000"));
    assert!(!UUID::is_valid("00000000-0000-6000-0000-000000000000"));
    assert!(UUID::is_valid("00000000-0000-5000-0000-000000000000"));
}

#[test]
fn urn_prefix_in_any_case() {
    assert!(UUID::is_valid("urn:uuid:6ba7b810-9dad-11d1-80b4-00c04fd430c8"));
    assert!(UUID::is_valid("URN:UUID:6BA7B810-9DAD-11D1-80B4-00C04FD430C8"));
    assert!(Uuid::is_valid("uRn:UuId:6bA7b810-9DaD-11d1-80B4-00c04Fd430C8"));
    assert!(!UUID::is_valid("urn:uid:6ba7b810-9dad-11d1-80b4-00c04fd430c8"));
    assert!(!UUID::is_valid("urn-uuid:6ba7b810-9dad-11d1-80b4-00c04fd430c8"));
}

#[test]
fn malformed_text_is_rejected() {
    assert!(!UUID::is_valid(""));
    assert!(!UUID::is_valid("6ba7b810-9dad-11d1-80b4-00c04fd430c"));
    assert!(!UUID::is_valid("6ba7b810-9dad-11d1-80b4-00c04fd430c8 "));
    assert!(!UUID::is_valid("6ba7b8109dad-11d1-80b4-00c04fd430c8-"));
    assert!(!UUID::is_valid("6ba7b810-9dad-11d1-80b4_00c04fd430c8"));
    assert!(!UUID::is_valid("6ba7b810-9dad-11d1-80b4-00c04fd430g8"));
    assert!(!UUID::is_valid("6ba7b810-9dad-11d1-80b4-00c04fd430é"));
    assert!(!UUID::is_valid("6ba7b8109dad11d180b400c04fd430c8"));
    assert!(!UUID::is_valid("{6ba7b810-9dad-11d1-80b4-00c04fd430c8}"));
}
