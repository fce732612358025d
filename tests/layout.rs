use uuid_rs::{Case, Layout, Node, TimeStamp, Variant, Version, UUID};

#[test]
fn default_value() {
    let node = Node::default();
    assert_eq!(node, Node([0; 6]));

    let uuid = UUID::default();
    assert_eq!(uuid, UUID([0; 16]));

    let time: TimeStamp = TimeStamp::default();
    assert_eq!(time.0.leading_zeros(), 64)
}

#[test]
fn to_string() {
    let node = Node::default();
    assert_eq!(node.to_string(), "00-00-00-00-00-00");

    let uuid = UUID::default();
    assert_eq!(uuid.to_string(), "00000000-0000-0000-0000-000000000000");
}

fn sample() -> Layout {
    Layout {
        time_low: 0x0102_0304,
        time_mid: 0x0506,
        time_high_and_version: 0x4708,
        clock_seq_high_and_reserved: 0x19,
        clock_seq_low: 0x0a,
        node: Node([0x0b, 0x0c, 0x0d, 0x0e, 0x0f, 0x10]),
    }
}

#[test]
fn be_bytes_is_field_order_big_endian() {
    assert_eq!(
        sample().be_bytes(),
        UUID([1, 2, 3, 4, 5, 6, 0x47, 8, 0x19, 0x0a, 0x0b, 0x0c, 0x0d, 0x0e, 0x0f, 0x10])
    );
}

#[test]
fn as_bytes_reverses_each_field() {
    assert_eq!(
        sample().as_bytes(),
        UUID([4, 3, 2, 1, 6, 5, 8, 0x47, 0x19, 0x0a, 0x10, 0x0f, 0x0e, 0x0d, 0x0c, 0x0b])
    );
}

#[test]
fn fields_in_both_orders() {
    let node = Node([0x0b, 0x0c, 0x0d, 0x0e, 0x0f, 0x10]);
    assert_eq!(sample().as_fields(), (0x0102_0304, 0x0506, 0x4708, 0x190a, node));
    assert_eq!(sample().be_fields(), (0x0403_0201, 0x0605, 0x0847, 0x0a19, node));
}

#[test]
fn bytes_round_trip_reproduces_fields() {
    let l = sample();
    let back = Layout::from_bytes(&l.be_bytes());
    assert_eq!(back, l);
    assert_eq!(back.as_fields(), l.as_fields());
    let u = UUID([0xff, 0, 0x80, 1, 2, 3, 4, 5, 6, 7, 8, 9, 10, 11, 12, 0xfe]);
    assert_eq!(Layout::from_bytes(&u).be_bytes(), u);
}

#[test]
fn pack_masks_and_tags() {
    let l = Layout::pack(1, 2, 0xffff, Version::TIME, 0xffff, Variant::RFC, Node([7; 6]));
    assert_eq!(l.time_low, 1);
    assert_eq!(l.time_mid, 2);
    assert_eq!(l.time_high_and_version, 0x1fff);
    assert_eq!(l.clock_seq_high_and_reserved, 0x1f);
    assert_eq!(l.clock_seq_low, 0xff);
    let m = Layout::pack(0, 0, 0, Version::SHA1, 0, Variant::FUT, Node([0; 6]));
    assert_eq!(m.time_high_and_version, 0x5000);
    assert_eq!(m.clock_seq_high_and_reserved, 0x30);
    assert_eq!(m.get_version(), Some(Version::SHA1));
    assert_eq!(m.get_variant(), Some(Variant::FUT));
}

#[test]
fn version_and_variant_of_each_nibble() {
    let mut l = Layout::default();
    let versions = [
        None,
        Some(Version::TIME),
        Some(Version::DCE),
        Some(Version::MD5),
        Some(Version::RAND),
        Some(Version::SHA1),
        None,
        None,
        None,
        None,
        None,
        None,
        None,
        None,
        None,
        None,
    ];
    for (n, v) in versions.iter().enumerate() {
        l.time_high_and_version = (n as u16) << 12 | 0x0abc;
        assert_eq!(&l.get_version(), v);
    }
    let variants = [Some(Variant::NCS), Some(Variant::RFC), Some(Variant::MS), Some(Variant::FUT)];
    for n in 0..16u8 {
        l.clock_seq_high_and_reserved = n << 4 | 0x0f;
        let expected = if n < 4 { variants[n as usize] } else { None };
        assert_eq!(l.get_variant(), expected);
    }
}

#[test]
fn timestamp_and_node_accessors() {
    let l = sample();
    assert_eq!(l.get_timestamp(), 0x0708_0506_0102_0304);
    assert_eq!(l.get_mac_addr(), Node([0x0b, 0x0c, 0x0d, 0x0e, 0x0f, 0x10]));
}

#[test]
fn hash_fields_maps_bytes_and_tags() {
    let h: [u8; 16] = [0, 1, 2, 3, 4, 5, 0xf6, 7, 0xf8, 9, 10, 11, 12, 13, 14, 15];
    let l = Layout::hash_fields(h, Version::MD5);
    assert_eq!(l.time_low, 0x0001_0203);
    assert_eq!(l.time_mid, 0x0405);
    assert_eq!(l.time_high_and_version, 0x3607);
    assert_eq!(l.clock_seq_high_and_reserved, 0x18);
    assert_eq!(l.clock_seq_low, 9);
    assert_eq!(l.node, Node([10, 11, 12, 13, 14, 15]));
    assert_eq!(l.render(Case::Lower), "00010203-0405-3607-1809-0a0b0c0d0e0f");
}
