use vstd::prelude::*;
use crate::error::TiktokError;
use crate::records::{user_fields_error, CommentView, StateView, UserView, VideoView};

verus! {

/// The store as mathematical values: every record that exists, by its key.
/// Videos are held by sequence index, comments by video and then by index.
#[verifier::ext_equal]
pub struct LedgerView {
    pub program_id: Seq<u8>,
    pub state: Option<StateView>,
    pub users: Seq<UserView>,
    pub videos: Seq<VideoView>,
    pub comments: Seq<Seq<CommentView>>,
}

impl LedgerView {
    /// The store's invariant: the video counter counts the videos, each index
    /// is its position, each comment counter counts its comments, likes are
    /// capped and unique, and no identity has two user records.
    pub open spec fn wf(self) -> bool {
        &&& (self.state is None ==> self.videos.len() == 0)
        &&& (self.state matches Some(s) ==> s.video_count == self.videos.len())
        &&& self.comments.len() == self.videos.len()
        &&& forall|i: int|
            0 <= i < self.videos.len() ==> {
                &&& (#[trigger] self.videos[i]).index == i
                &&& self.videos[i].wf()
                &&& self.comments[i].len() == self.videos[i].comment_count
            }
        &&& forall|i: int, j: int|
            0 <= i < self.comments.len() && 0 <= j < self.comments[i].len()
                ==> (#[trigger] self.comments[i][j]).index == j
        &&& forall|i: int, j: int|
            0 <= i < j < self.users.len() ==> (#[trigger] self.users[i]).user_wallet_address
                != (#[trigger] self.users[j]).user_wallet_address
    }

    pub open spec fn has_user(self, id: Seq<u8>) -> bool {
        exists|i: int| 0 <= i < self.users.len() && (#[trigger] self.users[i]).user_wallet_address == id
    }

    pub open spec fn has_video(self, video_id: u64) -> bool {
        video_id < self.videos.len()
    }

    pub open spec fn create_state_error(self) -> Option<TiktokError> {
        if self.state is Some {
            Some(TiktokError::AddressAlreadyInUse)
        } else {
            None
        }
    }

    pub open spec fn after_create_state(self, authority: Seq<u8>) -> LedgerView {
        LedgerView { state: Some(StateView { authority, video_count: 0 }), ..self }
    }

    pub open spec fn create_user_error(
        self,
        authority: Seq<u8>,
        name: Seq<char>,
        profile_url: Seq<char>,
    ) -> Option<TiktokError> {
        if self.has_user(authority) {
            Some(TiktokError::AddressAlreadyInUse)
        } else {
            user_fields_error(name, profile_url)
        }
    }

    pub open spec fn after_create_user(
        self,
        authority: Seq<u8>,
        name: Seq<char>,
        profile_url: Seq<char>,
    ) -> LedgerView {
        LedgerView {
            users: self.users.push(
                UserView {
                    user_name: name,
                    user_wallet_address: authority,
                    user_profile_image_url: profile_url,
                },
            ),
            ..self
        }
    }

    pub open spec fn create_video_error(
        self,
        description: Seq<char>,
        video_url: Seq<char>,
        creator_name: Seq<char>,
        creator_url: Seq<char>,
    ) -> Option<TiktokError> {
        match self.state {
            None => Some(TiktokError::AccountNotInitialized),
            Some(s) => s.add_video_error(description, video_url, creator_name, creator_url),
        }
    }

    /// The video that a successful creation adds: the next sequence index,
    /// counters at zero, no likers.
    pub open spec fn new_video(
        self,
        authority: Seq<u8>,
        description: Seq<char>,
        video_url: Seq<char>,
        creator_name: Seq<char>,
        creator_url: Seq<char>,
        now: i64,
    ) -> VideoView {
        self.state->Some_0.new_video(authority, description, video_url, creator_name, creator_url, now)
    }

    pub open spec fn after_create_video(self, video: VideoView) -> LedgerView {
        LedgerView {
            state: Some(StateView { video_count: (self.state->Some_0.video_count + 1) as u64, ..self.state->Some_0 }),
            videos: self.videos.push(video),
            comments: self.comments.push(Seq::empty()),
            ..self
        }
    }

    pub open spec fn create_comment_error(
        self,
        video_id: u64,
        text: Seq<char>,
        commenter_name: Seq<char>,
        commenter_url: Seq<char>,
    ) -> Option<TiktokError> {
        if !self.has_video(video_id) {
            Some(TiktokError::AccountNotInitialized)
        } else {
            self.videos[video_id as int].comment_error(text, commenter_name, commenter_url)
        }
    }

    /// The comment that a successful creation adds to a video: the video's
    /// next comment index.
    pub open spec fn new_comment(
        self,
        video_id: u64,
        authority: Seq<u8>,
        text: Seq<char>,
        commenter_name: Seq<char>,
        commenter_url: Seq<char>,
        now: i64,
    ) -> CommentView {
        self.videos[video_id as int].new_comment(authority, text, commenter_name, commenter_url, now)
    }

    pub open spec fn after_create_comment(self, video_id: u64, comment: CommentView) -> LedgerView {
        LedgerView {
            videos: self.videos.update(video_id as int, self.videos[video_id as int].after_comment()),
            comments: self.comments.update(video_id as int, self.comments[video_id as int].push(comment)),
            ..self
        }
    }

    pub open spec fn moderate_error(self, authority: Seq<u8>, video_id: u64, approve: bool) -> Option<TiktokError> {
        if !self.has_video(video_id) {
            Some(TiktokError::AccountNotInitialized)
        } else {
            self.videos[video_id as int].moderate_error(authority, approve)
        }
    }

    pub open spec fn after_moderate(self, video_id: u64, approve: bool) -> LedgerView {
        LedgerView {
            videos: self.videos.update(video_id as int, self.videos[video_id as int].after_moderate(approve)),
            ..self
        }
    }

    pub open spec fn like_error(self, authority: Seq<u8>, video_id: u64) -> Option<TiktokError> {
        if !self.has_video(video_id) {
            Some(TiktokError::AccountNotInitialized)
        } else {
            self.videos[video_id as int].like_error(authority)
        }
    }

    pub open spec fn after_like(self, authority: Seq<u8>, video_id: u64) -> LedgerView {
        LedgerView {
            videos: self.videos.update(video_id as int, self.videos[video_id as int].after_like(authority)),
            ..self
        }
    }
}

} // verus!
