use uuid_rs::base::time::{ClockSeq, Domain, Node, Timestamp};
use uuid_rs::{Case, Layout, Uuid, UuidError, UUID};

const OVERRIDE: Node = Node([0x02, 0x00, 0x5e, 0x10, 0x00, 0x01]);

/// The canonical text of a version-1 identifier, from the device address or,
/// where this machine has none, from a caller node.
fn v1_text(c: &mut ClockSeq) -> String {
    match UUID::v1(c) {
        Ok(l) => l.render(Case::Lower),
        Err(e) => {
            assert_eq!(e, UuidError::NodeUnavailable);
            UUID::from_node(OVERRIDE, c).unwrap().render(Case::Lower)
        }
    }
}

/// The canonical text of a version-2 identifier, as `v1_text` does.
fn v2_text(d: Domain, c: &mut ClockSeq) -> String {
    match UUID::v2(d, c) {
        Ok(l) => l.render(Case::Lower),
        Err(e) => {
            assert_eq!(e, UuidError::NodeUnavailable);
            Layout::dce_fields(Timestamp::new().unwrap(), c.next(), d, OVERRIDE).render(Case::Lower)
        }
    }
}

#[test]
fn integration_test_time_based_macros() {
    let mut c = ClockSeq::from_random();
    assert!(Uuid::is_valid(&v1_text(&mut c)));
    assert!(Uuid::is_valid(&v2_text(Domain::ORG, &mut c)));
}

#[test]
fn integration_test_name_based_macros() {
    assert!(Uuid::is_valid(&Uuid::using_md5("any", Uuid::namespace_dns()).render(Case::Lower)));
    assert!(Uuid::is_valid(&Uuid::using_sha1("any", Uuid::namespace_oid()).render(Case::Lower)));
}

#[test]
fn integration_test_random_based_macros() {
    assert!(Uuid::is_valid(&Uuid::v4().render(Case::Lower)));
}

#[test]
fn macro_test_time_based_macros() {
    let mut c = ClockSeq::from_random();
    assert!(UUID::is_valid(&v1_text(&mut c)));
    assert!(UUID::is_valid(&v2_text(Domain::ORG, &mut c)));
}

#[test]
fn macro_test_name_based_macros() {
    assert!(UUID::is_valid(&UUID::using_md5("any", UUID::namespace_dns()).render(Case::Lower)));
    assert!(UUID::is_valid(&UUID::using_sha1("any", UUID::namespace_oid()).render(Case::Lower)));
}

#[test]
fn macro_test_random_based_macros() {
    assert!(UUID::is_valid(&UUID::v4().render(Case::Lower)));
}
