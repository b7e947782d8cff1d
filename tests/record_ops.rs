use tiktok_clone::error::TiktokError;
use tiktok_clone::identity::Identity;
use tiktok_clone::records::{StateAccount, UserAccount, VideoAccount};

fn id(n: u8) -> Identity {
    Identity::new([n; 32])
}

fn video(owner: Identity) -> VideoAccount {
    let mut s = StateAccount::new(id(1));
    s.add_video(owner, "d".to_string(), "u".to_string(), "c".to_string(), "http://c".to_string(), 5).unwrap()
}

#[test]
fn state_hands_out_video_indices() {
    let mut s = StateAccount::new(id(1));
    assert_eq!(s.video_count, 0);
    let a = s.add_video(id(2), "a".to_string(), "u".to_string(), String::new(), String::new(), 1).unwrap();
    let b = s.add_video(id(3), "b".to_string(), "u".to_string(), String::new(), String::new(), 2).unwrap();
    assert_eq!((a.index, b.index), (0, 1));
    assert_eq!(s.video_count, 2);
    assert_eq!(b.description, "b");
    assert_eq!(b.creator_time, 2);
    assert!(b.people_who_liked.is_empty());
}

#[test]
fn video_counter_overflow_is_refused() {
    let mut s = StateAccount { authority: id(1), video_count: u64::MAX };
    assert_eq!(
        s.add_video(id(2), "a".to_string(), "u".to_string(), String::new(), String::new(), 1).err(),
        Some(TiktokError::CounterOverflow)
    );
    assert_eq!(s.video_count, u64::MAX);
}

#[test]
fn comment_takes_video_count() {
    let mut v = video(id(2));
    let c = v.add_comment(id(3), "hello".to_string(), "n".to_string(), "u".to_string(), 8).unwrap();
    assert_eq!(c.index, 0);
    assert_eq!(c.video_time, 8);
    assert_eq!(v.comment_count, 1);
    v.comment_count = u64::MAX;
    assert_eq!(
        v.add_comment(id(3), "x".to_string(), String::new(), String::new(), 8).err(),
        Some(TiktokError::CounterOverflow)
    );
}

#[test]
fn moderation_score_stays_in_range() {
    let mut v = video(id(2));
    v.remove = i64::MAX;
    assert_eq!(v.moderate(id(2), true).err(), Some(TiktokError::CounterOverflow));
    let ev = v.moderate(id(2), false).unwrap();
    assert_eq!(ev.new_status, i64::MAX - 1);
    v.remove = i64::MIN;
    assert_eq!(v.moderate(id(2), false).err(), Some(TiktokError::CounterOverflow));
    assert_eq!(v.moderate(id(9), true).err(), Some(TiktokError::UnauthorizedAction));
}

#[test]
fn like_checks_cap_before_visibility() {
    let mut v = video(id(2));
    for n in 0..5u8 {
        assert_eq!(v.like(id(10 + n)).unwrap().total_likes, n + 1);
    }
    v.remove = -600;
    assert_eq!(v.like(id(30)).err(), Some(TiktokError::ReachedMaxLikes));
    assert!(v.has_liked(&id(12)));
    assert!(!v.has_liked(&id(30)));
}

#[test]
fn frozen_at_threshold() {
    let mut v = video(id(2));
    v.remove = -500;
    assert!(!v.is_visible());
    assert_eq!(v.like(id(3)).err(), Some(TiktokError::VideoRemoved));
    v.remove = -499;
    assert!(v.is_visible());
}

#[test]
fn user_fields_checked_in_order() {
    assert_eq!(UserAccount::create(id(1), "".to_string(), "".to_string()).err(), Some(TiktokError::EmptyUsername));
    assert_eq!(UserAccount::create(id(1), "a".to_string(), "\n".to_string()).err(), Some(TiktokError::EmptyProfileUrl));
    let u = UserAccount::create(id(1), " a ".to_string(), "p".to_string()).unwrap();
    assert_eq!(u.user_name, " a ");
    assert_eq!(u.user_wallet_address.bytes, [1u8; 32]);
}
