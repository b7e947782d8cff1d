use tiktok_clone::address::{address_of, seeds_of, to_be_bytes, RecordKey};
use tiktok_clone::identity::Identity;
use tiktok_clone::text::{fits, is_blank, white_space};

#[test]
fn big_endian_bytes() {
    assert_eq!(to_be_bytes(0x0102030405060708), vec![1, 2, 3, 4, 5, 6, 7, 8]);
    assert_eq!(to_be_bytes(0), vec![0; 8]);
}

#[test]
fn seeds_carry_tag_and_parents() {
    assert_eq!(seeds_of(&RecordKey::State), vec![b"state".to_vec()]);
    assert_eq!(seeds_of(&RecordKey::User(Identity::new([7; 32]))), vec![b"user".to_vec(), vec![7u8; 32]]);
    assert_eq!(seeds_of(&RecordKey::Video(3)), vec![b"video".to_vec(), 3u64.to_be_bytes().to_vec()]);
    assert_eq!(
        seeds_of(&RecordKey::Comment(3, 9)),
        vec![b"comment".to_vec(), 3u64.to_be_bytes().to_vec(), 9u64.to_be_bytes().to_vec()]
    );
}

#[test]
fn addresses_are_deterministic_and_distinct() {
    let program = Identity::new([42; 32]);
    let a = address_of(&RecordKey::Video(0), &program).unwrap();
    let b = address_of(&RecordKey::Video(0), &program).unwrap();
    let c = address_of(&RecordKey::Video(1), &program).unwrap();
    let d = address_of(&RecordKey::Comment(0, 0), &program).unwrap();
    assert_eq!(a.bytes, b.bytes);
    assert_ne!(a.bytes, c.bytes);
    assert_ne!(a.bytes, d.bytes);
    assert_ne!(a.bytes, program.bytes);
    let s = address_of(&RecordKey::State, &program).unwrap();
    assert!(s.same_as(&address_of(&RecordKey::State, &program).unwrap()));
    assert!(!s.same_as(&a));
}

#[test]
fn blank_text() {
    assert!(is_blank(""));
    assert!(is_blank(" \t\r\n\u{a0}\u{2003}"));
    assert!(!is_blank("  a "));
    assert!(white_space('\u{3000}'));
    assert!(!white_space('x'));
    assert!(fits("abc", 3));
    assert!(!fits("abcd", 3));
    assert!(fits("ééé", 3));
}
