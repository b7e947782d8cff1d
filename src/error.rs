use vstd::prelude::*;

verus! {

/// Why an operation was refused. A refused operation changes nothing.
#[derive(Clone, Copy, Debug, PartialEq, Eq, Structural)]
pub enum TiktokError {
    EmptyUsername,
    EmptyProfileUrl,
    EmptyDescription,
    EmptyVideoUrl,
    EmptyCommentText,
    ReachedMaxLikes,
    AlreadyLiked,
    VideoRemoved,
    UnauthorizedAction,
    /// A record already exists at the derived address.
    AddressAlreadyInUse,
    /// The record that the operation reads does not exist.
    AccountNotInitialized,
    /// A text field is longer than the space its record reserves for it.
    FieldTooLong,
    /// A counter is at the largest value its type holds.
    CounterOverflow,
}

impl TiktokError {
    /// The message shown to the caller.
    pub fn msg(&self) -> &'static str {
        match self {
            TiktokError::EmptyUsername => "Username cannot be empty",
            TiktokError::EmptyProfileUrl => "Profile URL cannot be empty",
            TiktokError::EmptyDescription => "Video description cannot be empty",
            TiktokError::EmptyVideoUrl => "Video URL cannot be empty",
            TiktokError::EmptyCommentText => "Comment text cannot be empty",
            TiktokError::ReachedMaxLikes => "Cannot receive more than 5 likes",
            TiktokError::AlreadyLiked => "User has already liked the video",
            TiktokError::VideoRemoved => "This video has been removed due to community guidelines",
            TiktokError::UnauthorizedAction => "Only the video owner can perform this action",
            TiktokError::AddressAlreadyInUse => "A record already exists at this address",
            TiktokError::AccountNotInitialized => "The record does not exist",
            TiktokError::FieldTooLong => "A text field is too long",
            TiktokError::CounterOverflow => "A counter cannot grow any further",
        }
    }
}

} // verus!
