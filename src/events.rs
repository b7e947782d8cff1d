use vstd::prelude::*;
use crate::identity::Identity;

verus! {

/// Emitted when the platform state is created.
pub struct StateCreated {
    pub authority: Identity,
}

/// Emitted when a user is created.
pub struct UserCreated {
    pub user_wallet: Identity,
    pub user_name: String,
}

/// Emitted when a video is created.
pub struct VideoCreated {
    pub video_id: u64,
    pub creator: Identity,
}

/// Emitted when a comment is created.
pub struct CommentCreated {
    pub video_id: u64,
    pub comment_id: u64,
    pub commenter: Identity,
}

/// Emitted when a video is liked.
pub struct VideoLiked {
    pub video_id: u64,
    pub user: Identity,
    pub total_likes: u8,
}

/// Emitted when a video's moderation score changes.
pub struct VideoModerated {
    pub video_id: u64,
    pub new_status: i64,
    pub is_approved: bool,
}

} // verus!
