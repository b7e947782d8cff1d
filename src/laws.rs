use vstd::prelude::*;
use crate::error::TiktokError;
use crate::records::{VideoView, NUMBER_OF_ALLOWED_LIKES};
use crate::rules::LedgerView;
use crate::text::{blank, TEXT_LENGTH};

verus! {

/// The arguments of one video creation.
pub struct VideoRequest {
    pub authority: Seq<u8>,
    pub description: Seq<char>,
    pub video_url: Seq<char>,
    pub creator_name: Seq<char>,
    pub creator_url: Seq<char>,
    pub now: i64,
}

pub open spec fn video_request_error(l: LedgerView, q: VideoRequest) -> Option<TiktokError> {
    l.create_video_error(q.description, q.video_url, q.creator_name, q.creator_url)
}

pub open spec fn requested_video(l: LedgerView, q: VideoRequest) -> VideoView {
    l.new_video(q.authority, q.description, q.video_url, q.creator_name, q.creator_url, q.now)
}

/// The store after one video creation: unchanged when it is refused.
pub open spec fn apply_video(l: LedgerView, q: VideoRequest) -> LedgerView {
    if video_request_error(l, q) is None {
        l.after_create_video(requested_video(l, q))
    } else {
        l
    }
}

/// The store after a run of video creations, in order.
pub open spec fn run_videos(l: LedgerView, qs: Seq<VideoRequest>) -> LedgerView
    decreases qs.len(),
{
    if qs.len() == 0 {
        l
    } else {
        apply_video(run_videos(l, qs.drop_last()), qs.last())
    }
}

/// Every creation of the run succeeds in the store that the earlier ones left.
pub open spec fn all_videos_created(l: LedgerView, qs: Seq<VideoRequest>) -> bool {
    forall|k: int| 0 <= k < qs.len() ==> video_request_error(#[trigger] run_videos(l, qs.take(k)), qs[k]) is None
}

/// A successful video creation keeps the store's invariant, takes the
/// current count as the new video's index and raises the count by one.
pub proof fn lemma_create_video_step(l: LedgerView, q: VideoRequest)
    requires
        l.wf(),
        video_request_error(l, q) is None,
    ensures
        apply_video(l, q).wf(),
        apply_video(l, q).state matches Some(s) && s.video_count == l.state->Some_0.video_count + 1,
        apply_video(l, q).videos.len() == l.videos.len() + 1,
        apply_video(l, q).videos[l.videos.len() as int].index == l.state->Some_0.video_count,
        apply_video(l, q).videos.take(l.videos.len() as int) == l.videos,
{
    let a = apply_video(l, q);
    assert(a.videos.take(l.videos.len() as int) =~= l.videos);
    let n = l.videos.len() as int;
    assert forall|i: int| 0 <= i < a.videos.len() implies {
        &&& (#[trigger] a.videos[i]).index == i
        &&& a.videos[i].wf()
        &&& a.comments[i].len() == a.videos[i].comment_count
    } by {
        if i == n {
            assert(a.videos[i].people_who_liked =~= Seq::empty());
        } else {
            assert(a.videos[i] == l.videos[i]);
        }
    }
    assert forall|i: int, j: int|
        0 <= i < a.comments.len() && 0 <= j < a.comments[i].len()
        implies (#[trigger] a.comments[i][j]).index == j by {
        if i < n {
            assert(a.comments[i] == l.comments[i]);
        }
    }
}

/// Video sequence indices are handed out as 0, 1, 2, ... in call order: after
/// a run of successful creations the count has grown by the run's length, the
/// earlier videos are untouched, and the k-th new video holds the k-th
/// request's fields at index (count before the run) + k.
pub proof fn lemma_video_indices(l: LedgerView, qs: Seq<VideoRequest>)
    requires
        l.wf(),
        l.state is Some,
        all_videos_created(l, qs),
    ensures
        run_videos(l, qs).wf(),
        run_videos(l, qs).state matches Some(s) && s.video_count == l.videos.len() + qs.len(),
        run_videos(l, qs).videos.len() == l.videos.len() + qs.len(),
        run_videos(l, qs).videos.take(l.videos.len() as int) == l.videos,
        forall|k: int| 0 <= k < qs.len() ==> {
            let v = #[trigger] run_videos(l, qs).videos[l.videos.len() + k];
            &&& v.index == l.videos.len() + k
            &&& v.authority == qs[k].authority
            &&& v.description == qs[k].description
            &&& v.video_url == qs[k].video_url
            &&& v.creator_time == qs[k].now
        },
    decreases qs.len(),
{
    if qs.len() > 0 {
        let p = qs.drop_last();
        assert forall|k: int| 0 <= k < p.len() implies video_request_error(
            #[trigger] run_videos(l, p.take(k)),
            p[k],
        ) is None by {
            assert(p.take(k) =~= qs.take(k));
            assert(video_request_error(run_videos(l, qs.take(k)), qs[k]) is None);
        }
        lemma_video_indices(l, p);
        let m = run_videos(l, p);
        assert(qs.take(p.len() as int) =~= p);
        assert(video_request_error(run_videos(l, qs.take(p.len() as int)), qs[p.len() as int]) is None);
        lemma_create_video_step(m, qs.last());
        let r = run_videos(l, qs);
        assert(r.videos.take(l.videos.len() as int) =~= l.videos) by {
            assert(r.videos.take(m.videos.len() as int) == m.videos);
            assert forall|i: int| 0 <= i < l.videos.len() implies r.videos[i] == l.videos[i] by {
                assert(r.videos.take(m.videos.len() as int)[i] == m.videos.take(l.videos.len() as int)[i]);
            }
        }
        assert forall|k: int| 0 <= k < qs.len() implies {
            let v = #[trigger] r.videos[l.videos.len() + k];
            &&& v.index == l.videos.len() + k
            &&& v.authority == qs[k].authority
            &&& v.description == qs[k].description
            &&& v.video_url == qs[k].video_url
            &&& v.creator_time == qs[k].now
        } by {
            if k < p.len() {
                assert(r.videos.take(m.videos.len() as int)[l.videos.len() + k] == m.videos[l.videos.len() + k]);
                assert(m.videos[l.videos.len() + k] == run_videos(l, p).videos[l.videos.len() + k]);
            }
        }
    }
}

/// Comment indices are counted per video: a successful comment takes the
/// video's comment count as its index and stands at that position, the count
/// grows by one, and every other video and its comments stay as they were.
pub proof fn lemma_comment_index(
    l: LedgerView,
    video_id: u64,
    authority: Seq<u8>,
    text: Seq<char>,
    commenter_name: Seq<char>,
    commenter_url: Seq<char>,
    now: i64,
)
    requires
        l.wf(),
        l.create_comment_error(video_id, text, commenter_name, commenter_url) is None,
    ensures
        ({
            let c = l.new_comment(video_id, authority, text, commenter_name, commenter_url, now);
            let a = l.after_create_comment(video_id, c);
            let v = video_id as int;
            &&& a.wf()
            &&& c.index == l.videos[v].comment_count
            &&& a.videos[v].comment_count == l.videos[v].comment_count + 1
            &&& a.comments[v].len() == l.comments[v].len() + 1
            &&& a.comments[v][c.index as int] == c
            &&& forall|w: int| 0 <= w < l.videos.len() && w != v ==> {
                &&& #[trigger] a.videos[w] == l.videos[w]
                &&& a.comments[w] == l.comments[w]
            }
        }),
{
    let c = l.new_comment(video_id, authority, text, commenter_name, commenter_url, now);
    let a = l.after_create_comment(video_id, c);
    let v = video_id as int;
    assert forall|i: int| 0 <= i < a.videos.len() implies {
        &&& (#[trigger] a.videos[i]).index == i
        &&& a.videos[i].wf()
        &&& a.comments[i].len() == a.videos[i].comment_count
    } by {
        if i != v {
            assert(a.videos[i] == l.videos[i]);
        }
    }
    assert forall|i: int, j: int|
        0 <= i < a.comments.len() && 0 <= j < a.comments[i].len()
        implies (#[trigger] a.comments[i][j]).index == j by {
        if i != v {
            assert(a.comments[i] == l.comments[i]);
        } else if j < l.comments[i].len() {
            assert(a.comments[i][j] == l.comments[i][j]);
        }
    }
}

/// In every well-formed store each video has at most five likes, and its like
/// count is the number of its likers, none of them twice.
pub proof fn lemma_like_cap(l: LedgerView, video_id: u64)
    requires
        l.wf(),
        l.has_video(video_id),
    ensures
        l.videos[video_id as int].likes <= NUMBER_OF_ALLOWED_LIKES,
        l.videos[video_id as int].likes == l.videos[video_id as int].people_who_liked.len(),
        l.videos[video_id as int].people_who_liked.no_duplicates(),
{
    assert(l.videos[video_id as int].wf());
}

/// A successful like keeps the store's invariant and adds one liker.
pub proof fn lemma_like_step(l: LedgerView, authority: Seq<u8>, video_id: u64)
    requires
        l.wf(),
        l.like_error(authority, video_id) is None,
    ensures
        l.after_like(authority, video_id).wf(),
        l.after_like(authority, video_id).videos[video_id as int].likes == l.videos[video_id as int].likes + 1,
        l.after_like(authority, video_id).videos[video_id as int].people_who_liked
            == l.videos[video_id as int].people_who_liked.push(authority),
{
    let a = l.after_like(authority, video_id);
    let v = video_id as int;
    assert forall|i: int| 0 <= i < a.videos.len() implies {
        &&& (#[trigger] a.videos[i]).index == i
        &&& a.videos[i].wf()
        &&& a.comments[i].len() == a.videos[i].comment_count
    } by {
        if i != v {
            assert(a.videos[i] == l.videos[i]);
        } else {
            let old_likers = l.videos[v].people_who_liked;
            let likers = a.videos[v].people_who_liked;
            assert(old_likers.no_duplicates());
            assert(!old_likers.contains(authority));
            assert forall|x: int, y: int| 0 <= x < likers.len() && 0 <= y < likers.len() && x != y
                implies likers[x] != likers[y] by {
                if x == old_likers.len() {
                    assert(likers[y] == old_likers[y]);
                } else if y == old_likers.len() {
                    assert(likers[x] == old_likers[x]);
                }
            }
        }
    }
}

/// No identity likes a video twice: once `authority` has liked it, a second
/// like by the same identity is refused as a repeat, while the video still has
/// room for likes.
pub proof fn lemma_no_double_like(l: LedgerView, authority: Seq<u8>, video_id: u64)
    requires
        l.wf(),
        l.like_error(authority, video_id) is None,
        l.videos[video_id as int].likes + 1 < NUMBER_OF_ALLOWED_LIKES,
    ensures
        l.after_like(authority, video_id).like_error(authority, video_id) == Some(TiktokError::AlreadyLiked),
{
    lemma_like_step(l, authority, video_id);
    let a = l.after_like(authority, video_id);
    let v = video_id as int;
    assert(a.videos[v].people_who_liked.last() == authority);
    assert(a.videos[v].liked_by(authority));
}

/// A frozen video refuses comments and likes, whoever asks and whatever they
/// write; a visible one refuses neither for being frozen.
pub proof fn lemma_frozen_refuses(
    l: LedgerView,
    video_id: u64,
    authority: Seq<u8>,
    text: Seq<char>,
    commenter_name: Seq<char>,
    commenter_url: Seq<char>,
)
    requires
        l.wf(),
        l.has_video(video_id),
    ensures
        !l.videos[video_id as int].visible() ==> l.create_comment_error(video_id, text, commenter_name, commenter_url)
            == Some(TiktokError::VideoRemoved),
        !l.videos[video_id as int].visible() && l.videos[video_id as int].likes < NUMBER_OF_ALLOWED_LIKES
            ==> l.like_error(authority, video_id) == Some(TiktokError::VideoRemoved),
        !l.videos[video_id as int].visible() ==> l.like_error(authority, video_id) is Some,
        l.videos[video_id as int].visible() ==> l.create_comment_error(video_id, text, commenter_name, commenter_url)
            != Some(TiktokError::VideoRemoved),
        l.videos[video_id as int].visible() ==> l.like_error(authority, video_id) != Some(TiktokError::VideoRemoved),
{
}

/// Freezing is undone by approval: from a score of -501, one approval leaves
/// the video frozen at -500 and a second makes it visible again at -499, so
/// comments with text and likes by new identities are taken once more.
pub proof fn lemma_unfreeze(l: LedgerView, video_id: u64, owner: Seq<u8>, text: Seq<char>, liker: Seq<u8>)
    requires
        l.wf(),
        l.has_video(video_id),
        l.videos[video_id as int].remove == -501,
        l.videos[video_id as int].authority == owner,
        l.videos[video_id as int].comment_count < u64::MAX,
        l.videos[video_id as int].likes < NUMBER_OF_ALLOWED_LIKES,
        !l.videos[video_id as int].liked_by(liker),
        !blank(text),
        text.len() <= TEXT_LENGTH,
    ensures
        ({
            let once = l.after_moderate(video_id, true);
            let twice = once.after_moderate(video_id, true);
            &&& !l.videos[video_id as int].visible()
            &&& l.moderate_error(owner, video_id, true) is None
            &&& once.videos[video_id as int].remove == -500
            &&& !once.videos[video_id as int].visible()
            &&& once.create_comment_error(video_id, text, Seq::empty(), Seq::empty()) == Some(TiktokError::VideoRemoved)
            &&& once.like_error(liker, video_id) == Some(TiktokError::VideoRemoved)
            &&& once.moderate_error(owner, video_id, true) is None
            &&& twice.videos[video_id as int].remove == -499
            &&& twice.videos[video_id as int].visible()
            &&& twice.create_comment_error(video_id, text, Seq::empty(), Seq::empty()) is None
            &&& twice.like_error(liker, video_id) is None
        }),
{
}

/// The platform state is created once: a second creation is refused because
/// its address is in use.
pub proof fn lemma_state_created_once(l: LedgerView, first: Seq<u8>)
    requires
        l.wf(),
        l.create_state_error() is None,
    ensures
        l.after_create_state(first).wf(),
        l.after_create_state(first).create_state_error() == Some(TiktokError::AddressAlreadyInUse),
{
}

/// An identity has one user record: once created, a second creation for the
/// same identity is refused because its address is in use, whatever it names.
pub proof fn lemma_user_created_once(
    l: LedgerView,
    authority: Seq<u8>,
    name: Seq<char>,
    profile_url: Seq<char>,
    second_name: Seq<char>,
    second_url: Seq<char>,
)
    requires
        l.wf(),
        l.create_user_error(authority, name, profile_url) is None,
    ensures
        l.after_create_user(authority, name, profile_url).wf(),
        l.after_create_user(authority, name, profile_url).create_user_error(authority, second_name, second_url)
            == Some(TiktokError::AddressAlreadyInUse),
{
    let a = l.after_create_user(authority, name, profile_url);
    let n = l.users.len() as int;
    assert(a.users[n].user_wallet_address == authority);
    assert forall|i: int, j: int| 0 <= i < j < a.users.len() implies (#[trigger] a.users[i]).user_wallet_address
        != (#[trigger] a.users[j]).user_wallet_address by {
        if j == n {
            assert(a.users[i] == l.users[i]);
            if a.users[i].user_wallet_address == authority {
                assert(l.has_user(authority));
            }
        } else {
            assert(a.users[i] == l.users[i]);
            assert(a.users[j] == l.users[j]);
        }
    }
}

} // verus!
