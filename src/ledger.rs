use vstd::prelude::*;
use crate::error::TiktokError;
use crate::events::{CommentCreated, StateCreated, UserCreated, VideoCreated, VideoLiked, VideoModerated};
use crate::identity::Identity;
use crate::records::{CommentAccount, CommentView, StateAccount, UserAccount, UserView, VideoAccount};
use crate::rules::LedgerView;

verus! {

/// Every record of one deployment. Each record stands at the place that its
/// key decides: the state singleton, users in order of creation, videos at
/// their sequence index, and each video's comments at theirs.
pub struct Ledger {
    pub program_id: Identity,
    pub state: Option<StateAccount>,
    pub users: Vec<UserAccount>,
    pub videos: Vec<VideoAccount>,
    pub comments: Vec<Vec<CommentAccount>>,
}

pub open spec fn comments_view(cs: Seq<CommentAccount>) -> Seq<CommentView> {
    cs.map_values(|c: CommentAccount| c@)
}

impl View for Ledger {
    type V = LedgerView;

    open spec fn view(&self) -> LedgerView {
        LedgerView {
            program_id: self.program_id@,
            state: match self.state {
                Some(s) => Some(s@),
                None => None,
            },
            users: self.users@.map_values(|u: UserAccount| u@),
            videos: self.videos@.map_values(|v: VideoAccount| v@),
            comments: self.comments@.map_values(|cs: Vec<CommentAccount>| comments_view(cs@)),
        }
    }
}

impl Ledger {
    /// An empty store for the program `program_id`.
    pub fn new(program_id: Identity) -> (r: Ledger)
        ensures
            r@.wf(),
            r@.program_id == program_id@,
            r@.state is None,
            r@.users.len() == 0,
            r@.videos.len() == 0,
    {
        let r = Ledger {
            program_id,
            state: None,
            users: Vec::new(),
            videos: Vec::new(),
            comments: Vec::new(),
        };
        assert(r@.users =~= Seq::empty());
        assert(r@.videos =~= Seq::empty());
        assert(r@.comments =~= Seq::empty());
        r
    }

    /// The number of videos created so far.
    pub fn video_count(&self) -> (r: u64)
        requires
            self@.wf(),
        ensures
            r == self@.videos.len(),
    {
        match &self.state {
            Some(s) => s.video_count,
            None => 0,
        }
    }

    /// Whether `id` already has a user record.
    pub fn has_user(&self, id: &Identity) -> (r: bool)
        ensures
            r == self@.has_user(id@),
    {
        let mut i: usize = 0;
        while i < self.users.len()
            invariant
                i <= self.users.len(),
                forall|j: int| 0 <= j < i ==> self.users@[j].user_wallet_address@ != id@,
            decreases self.users.len() - i,
        {
            if self.users[i].user_wallet_address.same_as(id) {
                assert(self@.users[i as int].user_wallet_address == id@);
                return true;
            }
            i = i + 1;
        }
        assert forall|j: int| 0 <= j < self@.users.len()
            implies (#[trigger] self@.users[j]).user_wallet_address != id@ by {
            assert(self.users@[j].user_wallet_address@ != id@);
        }
        false
    }
}

/// Creates the platform state, owned by `authority`, with no videos yet.
/// There is one state per deployment: a second creation is refused.
pub fn create_state(ledger: &mut Ledger, authority: Identity) -> (r: Result<StateCreated, TiktokError>)
    requires
        old(ledger)@.wf(),
    ensures
        final(ledger)@.wf(),
        match old(ledger)@.create_state_error() {
            Some(e) => r == Err::<StateCreated, TiktokError>(e) && final(ledger)@ == old(ledger)@,
            None => r matches Ok(ev) && ev.authority == authority
                && final(ledger)@ == old(ledger)@.after_create_state(authority@),
        },
{
    if ledger.state.is_some() {
        return Err(TiktokError::AddressAlreadyInUse);
    }
    let ghost before = ledger@;
    ledger.state = Some(StateAccount::new(authority));
    assert(ledger@ =~= before.after_create_state(authority@));
    Ok(StateCreated { authority })
}

/// Creates the user record of `authority`. The name and profile URL must
/// not be blank, and are stored as given.
pub fn create_user(
    ledger: &mut Ledger,
    authority: Identity,
    name: String,
    profile_url: String,
) -> (r: Result<UserCreated, TiktokError>)
    requires
        old(ledger)@.wf(),
    ensures
        final(ledger)@.wf(),
        match old(ledger)@.create_user_error(authority@, name@, profile_url@) {
            Some(e) => r == Err::<UserCreated, TiktokError>(e) && final(ledger)@ == old(ledger)@,
            None => r matches Ok(ev) && ev.user_wallet == authority && ev.user_name@ == name@
                && final(ledger)@ == old(ledger)@.after_create_user(authority@, name@, profile_url@),
        },
{
    if ledger.has_user(&authority) {
        return Err(TiktokError::AddressAlreadyInUse);
    }
    let ghost before = ledger@;
    let event_name = name.clone();
    let user = match UserAccount::create(authority, name, profile_url) {
        Ok(u) => u,
        Err(e) => {
            return Err(e);
        },
    };
    ledger.users.push(user);
    assert(ledger@.users =~= before.users.push(
        UserView { user_name: name@, user_wallet_address: authority@, user_profile_image_url: profile_url@ },
    ));
    assert(ledger@ =~= before.after_create_user(authority@, name@, profile_url@));
    Ok(UserCreated { user_wallet: authority, user_name: event_name })
}

/// Creates the next video, owned by `authority` and stamped `now`. It takes
/// the current video count as its sequence index, and the count grows by one.
pub fn create_video(
    ledger: &mut Ledger,
    authority: Identity,
    description: String,
    video_url: String,
    creator_name: String,
    creator_url: String,
    now: i64,
) -> (r: Result<VideoCreated, TiktokError>)
    requires
        old(ledger)@.wf(),
    ensures
        final(ledger)@.wf(),
        match old(ledger)@.create_video_error(description@, video_url@, creator_name@, creator_url@) {
            Some(e) => r == Err::<VideoCreated, TiktokError>(e) && final(ledger)@ == old(ledger)@,
            None => r matches Ok(ev) && ev.video_id == old(ledger)@.videos.len() && ev.creator == authority
                && final(ledger)@ == old(ledger)@.after_create_video(
                    old(ledger)@.new_video(authority@, description@, video_url@, creator_name@, creator_url@, now),
                ),
        },
{
    let ghost before = ledger@;
    let mut state = match ledger.state.take() {
        Some(s) => s,
        None => {
            return Err(TiktokError::AccountNotInitialized);
        },
    };
    let added = state.add_video(authority, description, video_url, creator_name, creator_url, now);
    ledger.state = Some(state);
    let v = match added {
        Ok(v) => v,
        Err(e) => {
            assert(ledger@ =~= before);
            return Err(e);
        },
    };
    let ghost video = v@;
    let index = v.index;
    ledger.videos.push(v);
    let no_comments: Vec<CommentAccount> = Vec::new();
    assert(comments_view(no_comments@) =~= Seq::empty());
    ledger.comments.push(no_comments);
    assert(ledger@.videos =~= before.videos.push(video));
    assert(ledger@.comments =~= before.comments.push(Seq::empty()));
    assert(ledger@ =~= before.after_create_video(video));
    Ok(VideoCreated { video_id: index, creator: authority })
}

/// Adds a comment by `authority`, stamped `now`, to the video `video_id`. It
/// takes the video's comment count as its sequence index, and that count grows
/// by one. A frozen video takes no comments.
pub fn create_comment(
    ledger: &mut Ledger,
    authority: Identity,
    video_id: u64,
    text: String,
    commenter_name: String,
    commenter_url: String,
    now: i64,
) -> (r: Result<CommentCreated, TiktokError>)
    requires
        old(ledger)@.wf(),
    ensures
        final(ledger)@.wf(),
        match old(ledger)@.create_comment_error(video_id, text@, commenter_name@, commenter_url@) {
            Some(e) => r == Err::<CommentCreated, TiktokError>(e) && final(ledger)@ == old(ledger)@,
            None => r matches Ok(ev) && ev.video_id == video_id
                && ev.comment_id == old(ledger)@.videos[video_id as int].comment_count
                && ev.commenter == authority
                && final(ledger)@ == old(ledger)@.after_create_comment(
                    video_id,
                    old(ledger)@.new_comment(video_id, authority@, text@, commenter_name@, commenter_url@, now),
                ),
        },
{
    if video_id >= ledger.videos.len() as u64 {
        return Err(TiktokError::AccountNotInitialized);
    }
    let i = video_id as usize;
    let ghost before = ledger@;
    let c = match ledger.videos[i].add_comment(authority, text, commenter_name, commenter_url, now) {
        Ok(c) => c,
        Err(e) => {
            assert(ledger@.videos =~= before.videos);
            assert(ledger@ =~= before);
            return Err(e);
        },
    };
    let ghost comment = c@;
    let comment_id = c.index;
    ledger.comments[i].push(c);
    assert(comments_view(ledger.comments@[i as int]@) =~= before.comments[i as int].push(comment));
    assert(ledger@.comments =~= before.comments.update(i as int, before.comments[i as int].push(comment)));
    assert(ledger@.videos =~= before.videos.update(i as int, before.videos[i as int].after_comment()));
    assert(ledger@ =~= before.after_create_comment(video_id, comment));
    Ok(CommentCreated { video_id, comment_id, commenter: authority })
}

/// Moves the score of video `video_id` one step up (`approve`) or down.
/// Only the video's owner may do so, frozen or not.
fn moderate(ledger: &mut Ledger, authority: Identity, video_id: u64, approve: bool) -> (r: Result<
    VideoModerated,
    TiktokError,
>)
    requires
        old(ledger)@.wf(),
    ensures
        final(ledger)@.wf(),
        match old(ledger)@.moderate_error(authority@, video_id, approve) {
            Some(e) => r == Err::<VideoModerated, TiktokError>(e) && final(ledger)@ == old(ledger)@,
            None => r matches Ok(ev) && ev.video_id == video_id && ev.is_approved == approve
                && ev.new_status == final(ledger)@.videos[video_id as int].remove
                && final(ledger)@ == old(ledger)@.after_moderate(video_id, approve),
        },
{
    if video_id >= ledger.videos.len() as u64 {
        return Err(TiktokError::AccountNotInitialized);
    }
    let i = video_id as usize;
    let ghost before = ledger@;
    let r = ledger.videos[i].moderate(authority, approve);
    match r {
        Ok(_) => {
            assert(ledger@.videos =~= before.videos.update(i as int, before.videos[i as int].after_moderate(approve)));
            assert(ledger@ =~= before.after_moderate(video_id, approve));
        },
        Err(_) => {
            assert(ledger@.videos =~= before.videos);
            assert(ledger@ =~= before);
        },
    }
    r
}

/// Raises the moderation score of video `video_id` by one; for its owner only.
pub fn approve(ledger: &mut Ledger, authority: Identity, video_id: u64) -> (r: Result<VideoModerated, TiktokError>)
    requires
        old(ledger)@.wf(),
    ensures
        final(ledger)@.wf(),
        match old(ledger)@.moderate_error(authority@, video_id, true) {
            Some(e) => r == Err::<VideoModerated, TiktokError>(e) && final(ledger)@ == old(ledger)@,
            None => r matches Ok(ev) && ev.video_id == video_id && ev.is_approved
                && ev.new_status == final(ledger)@.videos[video_id as int].remove
                && final(ledger)@ == old(ledger)@.after_moderate(video_id, true),
        },
{
    moderate(ledger, authority, video_id, true)
}

/// Lowers the moderation score of video `video_id` by one; for its owner only.
pub fn disapprove(ledger: &mut Ledger, authority: Identity, video_id: u64) -> (r: Result<VideoModerated, TiktokError>)
    requires
        old(ledger)@.wf(),
    ensures
        final(ledger)@.wf(),
        match old(ledger)@.moderate_error(authority@, video_id, false) {
            Some(e) => r == Err::<VideoModerated, TiktokError>(e) && final(ledger)@ == old(ledger)@,
            None => r matches Ok(ev) && ev.video_id == video_id && !ev.is_approved
                && ev.new_status == final(ledger)@.videos[video_id as int].remove
                && final(ledger)@ == old(ledger)@.after_moderate(video_id, false),
        },
{
    moderate(ledger, authority, video_id, false)
}

/// Records a like of video `video_id` by `authority`: at most five likes, by
/// distinct identities, on a video that is not frozen.
pub fn like_video(ledger: &mut Ledger, authority: Identity, video_id: u64) -> (r: Result<VideoLiked, TiktokError>)
    requires
        old(ledger)@.wf(),
    ensures
        final(ledger)@.wf(),
        match old(ledger)@.like_error(authority@, video_id) {
            Some(e) => r == Err::<VideoLiked, TiktokError>(e) && final(ledger)@ == old(ledger)@,
            None => r matches Ok(ev) && ev.video_id == video_id && ev.user == authority
                && ev.total_likes == final(ledger)@.videos[video_id as int].likes
                && final(ledger)@ == old(ledger)@.after_like(authority@, video_id),
        },
{
    if video_id >= ledger.videos.len() as u64 {
        return Err(TiktokError::AccountNotInitialized);
    }
    let i = video_id as usize;
    let ghost before = ledger@;
    let r = ledger.videos[i].like(authority);
    match r {
        Ok(_) => {
            assert(ledger@.videos =~= before.videos.update(i as int, before.videos[i as int].after_like(authority@)));
            assert(ledger@ =~= before.after_like(authority@, video_id));
        },
        Err(_) => {
            assert(ledger@.videos =~= before.videos);
            assert(ledger@ =~= before);
        },
    }
    r
}

} // verus!
