use vstd::prelude::*;
use crate::error::TiktokError;
use crate::identity::Identity;
use crate::events::{VideoLiked, VideoModerated};
use crate::text::{blank, fits, is_blank, TEXT_LENGTH, USER_NAME_LENGTH, USER_URL_LENGTH, VIDEO_URL_LENGTH};

verus! {

/// Most likes a video can receive.
pub const NUMBER_OF_ALLOWED_LIKES: u8 = 5;

/// A video whose moderation score is at or below this is frozen.
pub const CENSORSHIP_THRESHOLD: i64 = -500;

/// The platform state singleton.
pub struct StateAccount {
    pub authority: Identity,
    pub video_count: u64,
}

pub struct UserAccount {
    pub user_name: String,
    pub user_wallet_address: Identity,
    pub user_profile_image_url: String,
}

pub struct VideoAccount {
    pub authority: Identity,
    pub description: String,
    pub video_url: String,
    pub creator_name: String,
    pub creator_url: String,
    pub comment_count: u64,
    pub index: u64,
    pub creator_time: i64,
    pub people_who_liked: Vec<Identity>,
    pub likes: u8,
    pub remove: i64,
}

pub struct CommentAccount {
    pub authority: Identity,
    pub text: String,
    pub commenter_name: String,
    pub commenter_url: String,
    pub index: u64,
    pub video_time: i64,
}

pub struct StateView {
    pub authority: Seq<u8>,
    pub video_count: u64,
}

pub struct UserView {
    pub user_name: Seq<char>,
    pub user_wallet_address: Seq<u8>,
    pub user_profile_image_url: Seq<char>,
}

pub struct VideoView {
    pub authority: Seq<u8>,
    pub description: Seq<char>,
    pub video_url: Seq<char>,
    pub creator_name: Seq<char>,
    pub creator_url: Seq<char>,
    pub comment_count: u64,
    pub index: u64,
    pub creator_time: i64,
    pub people_who_liked: Seq<Seq<u8>>,
    pub likes: u8,
    pub remove: i64,
}

pub struct CommentView {
    pub authority: Seq<u8>,
    pub text: Seq<char>,
    pub commenter_name: Seq<char>,
    pub commenter_url: Seq<char>,
    pub index: u64,
    pub video_time: i64,
}

pub open spec fn ids_view(ids: Seq<Identity>) -> Seq<Seq<u8>> {
    ids.map_values(|i: Identity| i@)
}

impl View for StateAccount {
    type V = StateView;

    open spec fn view(&self) -> StateView {
        StateView { authority: self.authority@, video_count: self.video_count }
    }
}

impl View for UserAccount {
    type V = UserView;

    open spec fn view(&self) -> UserView {
        UserView {
            user_name: self.user_name@,
            user_wallet_address: self.user_wallet_address@,
            user_profile_image_url: self.user_profile_image_url@,
        }
    }
}

impl View for VideoAccount {
    type V = VideoView;

    open spec fn view(&self) -> VideoView {
        VideoView {
            authority: self.authority@,
            description: self.description@,
            video_url: self.video_url@,
            creator_name: self.creator_name@,
            creator_url: self.creator_url@,
            comment_count: self.comment_count,
            index: self.index,
            creator_time: self.creator_time,
            people_who_liked: ids_view(self.people_who_liked@),
            likes: self.likes,
            remove: self.remove,
        }
    }
}

impl View for CommentAccount {
    type V = CommentView;

    open spec fn view(&self) -> CommentView {
        CommentView {
            authority: self.authority@,
            text: self.text@,
            commenter_name: self.commenter_name@,
            commenter_url: self.commenter_url@,
            index: self.index,
            video_time: self.video_time,
        }
    }
}

impl VideoView {
    /// Visible videos accept comments and likes; the others are frozen.
    pub open spec fn visible(self) -> bool {
        self.remove > CENSORSHIP_THRESHOLD
    }

    /// The like count matches the likers, stays within the cap, and no
    /// identity likes twice.
    pub open spec fn wf(self) -> bool {
        &&& self.likes as int == self.people_who_liked.len()
        &&& self.likes <= NUMBER_OF_ALLOWED_LIKES
        &&& self.people_who_liked.no_duplicates()
    }

    pub open spec fn liked_by(self, id: Seq<u8>) -> bool {
        self.people_who_liked.contains(id)
    }

    /// Why a comment on this video is refused, if it is.
    pub open spec fn comment_error(
        self,
        text: Seq<char>,
        commenter_name: Seq<char>,
        commenter_url: Seq<char>,
    ) -> Option<TiktokError> {
        if !self.visible() {
            Some(TiktokError::VideoRemoved)
        } else if blank(text) {
            Some(TiktokError::EmptyCommentText)
        } else if text.len() > TEXT_LENGTH || commenter_name.len() > USER_NAME_LENGTH
            || commenter_url.len() > USER_URL_LENGTH {
            Some(TiktokError::FieldTooLong)
        } else if self.comment_count == u64::MAX {
            Some(TiktokError::CounterOverflow)
        } else {
            None
        }
    }

    /// The comment that a successful creation adds: the video's next index.
    pub open spec fn new_comment(
        self,
        authority: Seq<u8>,
        text: Seq<char>,
        commenter_name: Seq<char>,
        commenter_url: Seq<char>,
        now: i64,
    ) -> CommentView {
        CommentView { authority, text, commenter_name, commenter_url, index: self.comment_count, video_time: now }
    }

    pub open spec fn after_comment(self) -> VideoView {
        VideoView { comment_count: (self.comment_count + 1) as u64, ..self }
    }

    /// Approving and disapproving are for the video's owner alone; the score
    /// must stay within its type.
    pub open spec fn moderate_error(self, authority: Seq<u8>, approve: bool) -> Option<TiktokError> {
        if authority != self.authority {
            Some(TiktokError::UnauthorizedAction)
        } else if approve && self.remove == i64::MAX {
            Some(TiktokError::CounterOverflow)
        } else if !approve && self.remove == i64::MIN {
            Some(TiktokError::CounterOverflow)
        } else {
            None
        }
    }

    pub open spec fn after_moderate(self, approve: bool) -> VideoView {
        let remove = if approve { self.remove + 1 } else { self.remove - 1 };
        VideoView { remove: remove as i64, ..self }
    }

    /// The cap is checked first, then visibility, then repeats.
    pub open spec fn like_error(self, authority: Seq<u8>) -> Option<TiktokError> {
        if self.likes >= NUMBER_OF_ALLOWED_LIKES {
            Some(TiktokError::ReachedMaxLikes)
        } else if !self.visible() {
            Some(TiktokError::VideoRemoved)
        } else if self.liked_by(authority) {
            Some(TiktokError::AlreadyLiked)
        } else {
            None
        }
    }

    pub open spec fn after_like(self, authority: Seq<u8>) -> VideoView {
        VideoView {
            likes: (self.likes + 1) as u8,
            people_who_liked: self.people_who_liked.push(authority),
            ..self
        }
    }
}

impl VideoAccount {
    /// Whether the video accepts new comments and likes.
    pub fn is_visible(&self) -> (r: bool)
        ensures
            r == self@.visible(),
    {
        self.remove > CENSORSHIP_THRESHOLD
    }

    /// Whether `id` is among the video's likers.
    pub fn has_liked(&self, id: &Identity) -> (r: bool)
        ensures
            r == self@.liked_by(id@),
    {
        let mut i: usize = 0;
        while i < self.people_who_liked.len()
            invariant
                i <= self.people_who_liked.len(),
                forall|j: int| 0 <= j < i ==> self.people_who_liked@[j]@ != id@,
            decreases self.people_who_liked.len() - i,
        {
            if self.people_who_liked[i].same_as(id) {
                assert(self@.people_who_liked[i as int] == id@);
                return true;
            }
            i = i + 1;
        }
        assert forall|j: int| 0 <= j < self@.people_who_liked.len()
            implies self@.people_who_liked[j] != id@ by {
            assert(self.people_who_liked@[j]@ != id@);
        }
        false
    }
}

/// Why the fields of a new user are refused, if they are.
pub open spec fn user_fields_error(name: Seq<char>, profile_url: Seq<char>) -> Option<TiktokError> {
    if blank(name) {
        Some(TiktokError::EmptyUsername)
    } else if blank(profile_url) {
        Some(TiktokError::EmptyProfileUrl)
    } else if name.len() > USER_NAME_LENGTH || profile_url.len() > USER_URL_LENGTH {
        Some(TiktokError::FieldTooLong)
    } else {
        None
    }
}

/// Why the fields of a new video are refused, if they are. The creator's
/// name and URL may be blank.
pub open spec fn video_fields_error(
    description: Seq<char>,
    video_url: Seq<char>,
    creator_name: Seq<char>,
    creator_url: Seq<char>,
) -> Option<TiktokError> {
    if blank(description) {
        Some(TiktokError::EmptyDescription)
    } else if blank(video_url) {
        Some(TiktokError::EmptyVideoUrl)
    } else if description.len() > TEXT_LENGTH || video_url.len() > VIDEO_URL_LENGTH
        || creator_name.len() > USER_NAME_LENGTH || creator_url.len() > USER_URL_LENGTH {
        Some(TiktokError::FieldTooLong)
    } else {
        None
    }
}

impl StateView {
    pub open spec fn add_video_error(
        self,
        description: Seq<char>,
        video_url: Seq<char>,
        creator_name: Seq<char>,
        creator_url: Seq<char>,
    ) -> Option<TiktokError> {
        match video_fields_error(description, video_url, creator_name, creator_url) {
            Some(e) => Some(e),
            None => if self.video_count == u64::MAX {
                Some(TiktokError::CounterOverflow)
            } else {
                None
            },
        }
    }

    /// The video that a successful creation makes: the current count as its
    /// index, counters at zero, no likers.
    pub open spec fn new_video(
        self,
        authority: Seq<u8>,
        description: Seq<char>,
        video_url: Seq<char>,
        creator_name: Seq<char>,
        creator_url: Seq<char>,
        now: i64,
    ) -> VideoView {
        VideoView {
            authority,
            description,
            video_url,
            creator_name,
            creator_url,
            comment_count: 0,
            index: self.video_count,
            creator_time: now,
            people_who_liked: Seq::empty(),
            likes: 0,
            remove: 0,
        }
    }
}

impl UserAccount {
    /// The user record of `authority`, if its name and profile URL are accepted.
    pub fn create(authority: Identity, name: String, profile_url: String) -> (r: Result<UserAccount, TiktokError>)
        ensures
            match user_fields_error(name@, profile_url@) {
                Some(e) => r == Err::<UserAccount, TiktokError>(e),
                None => r matches Ok(u) && u@ == (UserView {
                    user_name: name@,
                    user_wallet_address: authority@,
                    user_profile_image_url: profile_url@,
                }),
            },
    {
        if is_blank(name.as_str()) {
            return Err(TiktokError::EmptyUsername);
        }
        if is_blank(profile_url.as_str()) {
            return Err(TiktokError::EmptyProfileUrl);
        }
        if !fits(name.as_str(), USER_NAME_LENGTH) || !fits(profile_url.as_str(), USER_URL_LENGTH) {
            return Err(TiktokError::FieldTooLong);
        }
        Ok(UserAccount { user_name: name, user_wallet_address: authority, user_profile_image_url: profile_url })
    }
}

impl StateAccount {
    /// The platform state of a new deployment, owned by `authority`, with no videos.
    pub fn new(authority: Identity) -> (r: StateAccount)
        ensures
            r@ == (StateView { authority: authority@, video_count: 0 }),
    {
        StateAccount { authority, video_count: 0 }
    }

    /// Makes the next video, owned by `authority` and stamped `now`, and
    /// raises the video count by one.
    pub fn add_video(
        &mut self,
        authority: Identity,
        description: String,
        video_url: String,
        creator_name: String,
        creator_url: String,
        now: i64,
    ) -> (r: Result<VideoAccount, TiktokError>)
        ensures
            match old(self)@.add_video_error(description@, video_url@, creator_name@, creator_url@) {
                Some(e) => r == Err::<VideoAccount, TiktokError>(e) && final(self)@ == old(self)@,
                None => r matches Ok(v) && v@ == old(self)@.new_video(
                    authority@,
                    description@,
                    video_url@,
                    creator_name@,
                    creator_url@,
                    now,
                ) && final(self)@ == (StateView {
                    video_count: (old(self).video_count + 1) as u64,
                    ..old(self)@
                }),
            },
    {
        if is_blank(description.as_str()) {
            return Err(TiktokError::EmptyDescription);
        }
        if is_blank(video_url.as_str()) {
            return Err(TiktokError::EmptyVideoUrl);
        }
        if !fits(description.as_str(), TEXT_LENGTH) || !fits(video_url.as_str(), VIDEO_URL_LENGTH)
            || !fits(creator_name.as_str(), USER_NAME_LENGTH) || !fits(creator_url.as_str(), USER_URL_LENGTH) {
            return Err(TiktokError::FieldTooLong);
        }
        if self.video_count == u64::MAX {
            return Err(TiktokError::CounterOverflow);
        }
        let v = VideoAccount {
            authority,
            description,
            video_url,
            creator_name,
            creator_url,
            comment_count: 0,
            index: self.video_count,
            creator_time: now,
            people_who_liked: Vec::new(),
            likes: 0,
            remove: 0,
        };
        assert(v@.people_who_liked =~= Seq::<Seq<u8>>::empty());
        self.video_count = self.video_count + 1;
        Ok(v)
    }
}

impl VideoAccount {
    /// Makes a comment by `authority`, stamped `now`, with the video's comment
    /// count as its index, and raises that count by one.
    pub fn add_comment(
        &mut self,
        authority: Identity,
        text: String,
        commenter_name: String,
        commenter_url: String,
        now: i64,
    ) -> (r: Result<CommentAccount, TiktokError>)
        ensures
            match old(self)@.comment_error(text@, commenter_name@, commenter_url@) {
                Some(e) => r == Err::<CommentAccount, TiktokError>(e) && final(self)@ == old(self)@,
                None => r matches Ok(c) && c@ == old(self)@.new_comment(
                    authority@,
                    text@,
                    commenter_name@,
                    commenter_url@,
                    now,
                ) && final(self)@ == old(self)@.after_comment(),
            },
    {
        if !self.is_visible() {
            return Err(TiktokError::VideoRemoved);
        }
        if is_blank(text.as_str()) {
            return Err(TiktokError::EmptyCommentText);
        }
        if !fits(text.as_str(), TEXT_LENGTH) || !fits(commenter_name.as_str(), USER_NAME_LENGTH)
            || !fits(commenter_url.as_str(), USER_URL_LENGTH) {
            return Err(TiktokError::FieldTooLong);
        }
        if self.comment_count == u64::MAX {
            return Err(TiktokError::CounterOverflow);
        }
        let c = CommentAccount {
            authority,
            text,
            commenter_name,
            commenter_url,
            index: self.comment_count,
            video_time: now,
        };
        self.comment_count = self.comment_count + 1;
        Ok(c)
    }

    /// Moves the moderation score one step up (`approve`) or down. Only the
    /// owner may, frozen or not.
    pub fn moderate(&mut self, authority: Identity, approve: bool) -> (r: Result<VideoModerated, TiktokError>)
        ensures
            match old(self)@.moderate_error(authority@, approve) {
                Some(e) => r == Err::<VideoModerated, TiktokError>(e) && final(self)@ == old(self)@,
                None => r matches Ok(ev) && ev.video_id == old(self).index && ev.is_approved == approve
                    && ev.new_status == final(self).remove
                    && final(self)@ == old(self)@.after_moderate(approve),
            },
    {
        if !authority.same_as(&self.authority) {
            return Err(TiktokError::UnauthorizedAction);
        }
        if approve && self.remove == i64::MAX {
            return Err(TiktokError::CounterOverflow);
        }
        if !approve && self.remove == i64::MIN {
            return Err(TiktokError::CounterOverflow);
        }
        let new_status = if approve { self.remove + 1 } else { self.remove - 1 };
        self.remove = new_status;
        Ok(VideoModerated { video_id: self.index, new_status, is_approved: approve })
    }

    /// Records a like by `authority`: at most five likes, by distinct
    /// identities, on a video that is not frozen.
    pub fn like(&mut self, authority: Identity) -> (r: Result<VideoLiked, TiktokError>)
        ensures
            match old(self)@.like_error(authority@) {
                Some(e) => r == Err::<VideoLiked, TiktokError>(e) && final(self)@ == old(self)@,
                None => r matches Ok(ev) && ev.video_id == old(self).index && ev.user == authority
                    && ev.total_likes == final(self).likes
                    && final(self)@ == old(self)@.after_like(authority@),
            },
    {
        if self.likes >= NUMBER_OF_ALLOWED_LIKES {
            return Err(TiktokError::ReachedMaxLikes);
        }
        if !self.is_visible() {
            return Err(TiktokError::VideoRemoved);
        }
        if self.has_liked(&authority) {
            return Err(TiktokError::AlreadyLiked);
        }
        let ghost before = self@;
        self.likes = self.likes + 1;
        self.people_who_liked.push(authority);
        assert(self@.people_who_liked =~= before.people_who_liked.push(authority@));
        Ok(VideoLiked { video_id: self.index, user: authority, total_likes: self.likes })
    }
}

} // verus!
