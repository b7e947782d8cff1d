use tiktok_clone::error::TiktokError;
use tiktok_clone::identity::Identity;
use tiktok_clone::ledger::{
    approve, create_comment, create_state, create_user, create_video, disapprove, like_video, Ledger,
};

fn id(n: u8) -> Identity {
    Identity::new([n; 32])
}

fn fresh() -> Ledger {
    let mut l = Ledger::new(id(200));
    create_state(&mut l, id(1)).unwrap();
    l
}

fn add_video(l: &mut Ledger, owner: Identity) -> u64 {
    create_video(l, owner, "hi".to_string(), "http://x".to_string(), String::new(), String::new(), 7)
        .unwrap()
        .video_id
}

#[test]
fn video_lifecycle_scenario() {
    let mut l = fresh();
    let ev = create_video(&mut l, id(1), "hi".to_string(), "http://x".to_string(), String::new(), String::new(), 42)
        .unwrap();
    assert_eq!(ev.video_id, 0);
    let v = &l.videos[0];
    assert_eq!(v.index, 0);
    assert_eq!(v.comment_count, 0);
    assert_eq!(v.likes, 0);
    assert_eq!(v.remove, 0);
    assert_eq!(v.creator_time, 42);

    let liked = like_video(&mut l, id(10), 0).unwrap();
    assert_eq!(liked.total_likes, 1);
    assert_eq!(like_video(&mut l, id(10), 0).err(), Some(TiktokError::AlreadyLiked));
    assert_eq!(l.videos[0].likes, 1);
    for n in 11..15u8 {
        like_video(&mut l, id(n), 0).unwrap();
    }
    assert_eq!(l.videos[0].likes, 5);
    assert_eq!(l.videos[0].people_who_liked.len(), 5);
    assert_eq!(like_video(&mut l, id(15), 0).err(), Some(TiktokError::ReachedMaxLikes));
    assert_eq!(l.videos[0].likes, 5);
}

#[test]
fn video_indices_count_up() {
    let mut l = fresh();
    for k in 0..4u64 {
        assert_eq!(add_video(&mut l, id(2)), k);
        assert_eq!(l.video_count(), k + 1);
    }
    for (k, v) in l.videos.iter().enumerate() {
        assert_eq!(v.index, k as u64);
    }
    assert_eq!(l.state.as_ref().unwrap().video_count, 4);
}

#[test]
fn refused_video_takes_no_index() {
    let mut l = fresh();
    assert_eq!(
        create_video(&mut l, id(2), "  ".to_string(), "u".to_string(), String::new(), String::new(), 0).err(),
        Some(TiktokError::EmptyDescription)
    );
    assert_eq!(
        create_video(&mut l, id(2), "d".to_string(), "\t\n".to_string(), String::new(), String::new(), 0).err(),
        Some(TiktokError::EmptyVideoUrl)
    );
    assert_eq!(l.video_count(), 0);
    assert_eq!(add_video(&mut l, id(2)), 0);
}

#[test]
fn video_needs_state() {
    let mut l = Ledger::new(id(200));
    assert_eq!(
        create_video(&mut l, id(2), "d".to_string(), "u".to_string(), String::new(), String::new(), 0).err(),
        Some(TiktokError::AccountNotInitialized)
    );
    assert!(l.videos.is_empty());
}

#[test]
fn comment_indices_are_per_video() {
    let mut l = fresh();
    add_video(&mut l, id(2));
    add_video(&mut l, id(3));
    for k in 0..3u64 {
        let ev = create_comment(&mut l, id(4), 0, "nice".to_string(), "n".to_string(), "u".to_string(), 9).unwrap();
        assert_eq!(ev.comment_id, k);
        assert_eq!(ev.video_id, 0);
    }
    let ev = create_comment(&mut l, id(4), 1, "first".to_string(), String::new(), String::new(), 9).unwrap();
    assert_eq!(ev.comment_id, 0);
    assert_eq!(l.videos[0].comment_count, 3);
    assert_eq!(l.videos[1].comment_count, 1);
    assert_eq!(l.comments[0].len(), 3);
    assert_eq!(l.comments[0][2].index, 2);
    assert_eq!(l.comments[1][0].text, "first");
}

#[test]
fn comment_text_is_stored_untrimmed() {
    let mut l = fresh();
    add_video(&mut l, id(2));
    create_comment(&mut l, id(4), 0, "  hey  ".to_string(), String::new(), String::new(), 1).unwrap();
    assert_eq!(l.comments[0][0].text, "  hey  ");
    assert_eq!(
        create_comment(&mut l, id(4), 0, " \u{3000} ".to_string(), String::new(), String::new(), 1).err(),
        Some(TiktokError::EmptyCommentText)
    );
    assert_eq!(
        create_comment(&mut l, id(4), 5, "x".to_string(), String::new(), String::new(), 1).err(),
        Some(TiktokError::AccountNotInitialized)
    );
    assert_eq!(l.videos[0].comment_count, 1);
}

#[test]
fn field_lengths_are_enforced() {
    let mut l = fresh();
    let long = "a".repeat(1025);
    assert_eq!(
        create_video(&mut l, id(2), long, "u".to_string(), String::new(), String::new(), 0).err(),
        Some(TiktokError::FieldTooLong)
    );
    add_video(&mut l, id(2));
    assert!(create_comment(&mut l, id(4), 0, "a".repeat(1024), String::new(), String::new(), 1).is_ok());
    assert_eq!(
        create_user(&mut l, id(5), "n".repeat(101), "u".to_string()).err(),
        Some(TiktokError::FieldTooLong)
    );
    assert!(create_user(&mut l, id(5), "n".repeat(100), "u".repeat(255)).is_ok());
}

#[test]
fn no_duplicate_likes() {
    let mut l = fresh();
    add_video(&mut l, id(2));
    like_video(&mut l, id(9), 0).unwrap();
    assert_eq!(like_video(&mut l, id(9), 0).err(), Some(TiktokError::AlreadyLiked));
    assert_eq!(l.videos[0].likes, 1);
    assert_eq!(l.videos[0].people_who_liked.len(), 1);
    assert_eq!(like_video(&mut l, id(9), 3).err(), Some(TiktokError::AccountNotInitialized));
}

#[test]
fn freeze_and_unfreeze() {
    let mut l = fresh();
    let owner = id(2);
    add_video(&mut l, owner);
    for _ in 0..501 {
        disapprove(&mut l, owner, 0).unwrap();
    }
    assert_eq!(l.videos[0].remove, -501);
    assert_eq!(
        create_comment(&mut l, id(4), 0, "x".to_string(), String::new(), String::new(), 1).err(),
        Some(TiktokError::VideoRemoved)
    );
    assert_eq!(like_video(&mut l, id(4), 0).err(), Some(TiktokError::VideoRemoved));

    let ev = approve(&mut l, owner, 0).unwrap();
    assert_eq!(ev.new_status, -500);
    assert!(ev.is_approved);
    assert!(!l.videos[0].is_visible());
    assert_eq!(like_video(&mut l, id(4), 0).err(), Some(TiktokError::VideoRemoved));
    assert_eq!(
        create_comment(&mut l, id(4), 0, "x".to_string(), String::new(), String::new(), 1).err(),
        Some(TiktokError::VideoRemoved)
    );

    approve(&mut l, owner, 0).unwrap();
    assert_eq!(l.videos[0].remove, -499);
    assert!(l.videos[0].is_visible());
    assert!(create_comment(&mut l, id(4), 0, "x".to_string(), String::new(), String::new(), 1).is_ok());
    assert!(like_video(&mut l, id(4), 0).is_ok());
}

#[test]
fn moderation_is_for_the_owner() {
    let mut l = fresh();
    add_video(&mut l, id(2));
    assert_eq!(approve(&mut l, id(3), 0).err(), Some(TiktokError::UnauthorizedAction));
    assert_eq!(disapprove(&mut l, id(3), 0).err(), Some(TiktokError::UnauthorizedAction));
    assert_eq!(l.videos[0].remove, 0);
    let ev = disapprove(&mut l, id(2), 0).unwrap();
    assert_eq!(ev.new_status, -1);
    assert!(!ev.is_approved);
    assert_eq!(approve(&mut l, id(2), 1).err(), Some(TiktokError::AccountNotInitialized));
}

#[test]
fn state_is_created_once() {
    let mut l = Ledger::new(id(200));
    let ev = create_state(&mut l, id(1)).unwrap();
    assert_eq!(ev.authority.bytes, [1u8; 32]);
    assert_eq!(create_state(&mut l, id(2)).err(), Some(TiktokError::AddressAlreadyInUse));
    assert_eq!(l.state.as_ref().unwrap().authority.bytes, [1u8; 32]);
    assert_eq!(l.video_count(), 0);
}

#[test]
fn user_is_created_once() {
    let mut l = Ledger::new(id(200));
    let ev = create_user(&mut l, id(5), "alice".to_string(), "http://a".to_string()).unwrap();
    assert_eq!(ev.user_name, "alice");
    assert_eq!(
        create_user(&mut l, id(5), "bob".to_string(), "http://b".to_string()).err(),
        Some(TiktokError::AddressAlreadyInUse)
    );
    assert!(l.has_user(&id(5)));
    assert!(!l.has_user(&id(6)));
    assert_eq!(l.users.len(), 1);
    assert_eq!(l.users[0].user_name, "alice");
}

#[test]
fn user_text_is_required() {
    let mut l = Ledger::new(id(200));
    assert_eq!(
        create_user(&mut l, id(5), " ".to_string(), "http://a".to_string()).err(),
        Some(TiktokError::EmptyUsername)
    );
    assert_eq!(create_user(&mut l, id(5), "a".to_string(), "".to_string()).err(), Some(TiktokError::EmptyProfileUrl));
    assert!(l.users.is_empty());
}

#[test]
fn error_messages() {
    assert_eq!(TiktokError::ReachedMaxLikes.msg(), "Cannot receive more than 5 likes");
    assert_eq!(TiktokError::UnauthorizedAction.msg(), "Only the video owner can perform this action");
}
