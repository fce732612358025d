use uuid_rs::{Algo, Case, Variant, Version, UUID};

fn namespaces() -> [UUID; 4] {
    [UUID::namespace_dns(), UUID::namespace_oid(), UUID::namespace_url(), UUID::namespace_x500()]
}

#[test]
fn new_uuid_using_md5() {
    for s in namespaces().iter() {
        assert_eq!(UUID::using_md5("test_data", *s).get_version(), Some(Version::MD5));
        assert_eq!(UUID::using_md5("test_data", *s).get_variant(), Some(Variant::RFC));
    }
}

#[test]
fn new_uuid_using_sha1() {
    for s in namespaces().iter() {
        assert_eq!(UUID::using_sha1("test_data", *s).get_version(), Some(Version::SHA1));
        assert_eq!(UUID::using_sha1("test_data", *s).get_variant(), Some(Variant::RFC));
    }
}

#[test]
fn md5_dns_any_golden() {
    let l = UUID::using_md5("any", UUID::namespace_dns());
    assert_eq!(
        l.be_bytes(),
        UUID([
            0xe5, 0x35, 0x01, 0x57, 0x56, 0xb0, 0x32, 0xcc, 0x18, 0x87, 0xd1, 0xee, 0xa6, 0x92,
            0x50, 0x98
        ])
    );
    assert_eq!(l.render(Case::Lower), "e5350157-56b0-32cc-1887-d1eea6925098");
}

#[test]
fn md5_dns_test_data_golden() {
    let l = UUID::using_md5("test_data", UUID::namespace_dns());
    assert_eq!(l.render(Case::Lower), "7fb78bd8-56a0-3f7a-1633-1a3d5082af00");
}

#[test]
fn sha1_golden_values() {
    assert_eq!(
        UUID::using_sha1("any", UUID::namespace_dns()).render(Case::Lower),
        "6ab4d152-d4e0-56c8-1fe9-67c0efd4002d"
    );
    assert_eq!(
        UUID::using_sha1("test_data", UUID::namespace_dns()).render(Case::Lower),
        "96124b1c-31c4-52f5-13d8-07fa8fdf90f8"
    );
    assert_eq!(
        UUID::using_sha1("any", UUID::namespace_oid()).render(Case::Lower),
        "d82b1f99-303a-5457-1e5e-67a1a5f4194d"
    );
}

#[test]
fn name_based_is_deterministic() {
    for ns in namespaces().iter() {
        for name in ["", "any", "www.example.com", "\u{e9}t\u{e9}"] {
            assert_eq!(UUID::using_md5(name, *ns), UUID::using_md5(name, *ns));
            assert_eq!(UUID::using_sha1(name, *ns), UUID::using_sha1(name, *ns));
        }
    }
    assert_ne!(UUID::using_md5("a", UUID::namespace_dns()), UUID::using_md5("b", UUID::namespace_dns()));
    assert_ne!(UUID::using_md5("a", UUID::namespace_dns()), UUID::using_md5("a", UUID::namespace_url()));
}

#[test]
fn namespaces_render_as_published() {
    assert_eq!(UUID::namespace_dns().to_string(), "6ba7b810-9dad-11d1-80b4-00c04fd430c8");
    assert_eq!(UUID::namespace_url().to_string(), "6ba7b811-9dad-11d1-80b4-00c04fd430c8");
    assert_eq!(UUID::namespace_oid().to_string(), "6ba7b812-9dad-11d1-80b4-00c04fd430c8");
    assert_eq!(UUID::namespace_x500().to_string(), "6ba7b814-9dad-11d1-80b4-00c04fd430c8");
}

#[test]
fn name_based_render_valid() {
    for ns in namespaces().iter() {
        assert!(UUID::is_valid(&UUID::using_md5("any", *ns).render(Case::Lower)));
        assert!(UUID::is_valid(&UUID::using_sha1("any", *ns).render(Case::Upper)));
    }
}

#[test]
fn from_name_selects_the_algorithm() {
    let ns = UUID::namespace_dns();
    assert_eq!(UUID::from_name("any", ns, Algo::MD5), UUID::using_md5("any", ns));
    assert_eq!(UUID::from_name("any", ns, Algo::SHA1), UUID::using_sha1("any", ns));
    assert_eq!(UUID::from_name("any", ns, Algo::SHA1).get_version(), Some(Version::SHA1));
}
