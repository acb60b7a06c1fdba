//! Choosing the stream to decode among the streams of a container.

use vstd::prelude::*;

verus! {

/// The media type code under which the backend reports a video stream.
pub const MEDIA_TYPE_VIDEO: i32 = 0;

/// Some stream of the container is a video stream.
pub open spec fn has_video(media_types: Seq<i32>) -> bool {
    exists|i: int| 0 <= i < media_types.len() && media_types[i] == MEDIA_TYPE_VIDEO
}

/// Stream `i` is a video stream and no stream before it is.
pub open spec fn is_first_video(media_types: Seq<i32>, i: int) -> bool {
    &&& 0 <= i < media_types.len()
    &&& media_types[i] == MEDIA_TYPE_VIDEO
    &&& forall|j: int| 0 <= j < i ==> media_types[j] != MEDIA_TYPE_VIDEO
}

/// The index of the first video stream, if the container has one.
pub open spec fn first_video(media_types: Seq<i32>) -> Option<nat> {
    if exists|i: int| is_first_video(media_types, i) {
        Some((choose|i: int| is_first_video(media_types, i)) as nat)
    } else {
        None
    }
}

/// `first_video` names the first video stream where there is one, and
/// nothing exactly where there is none.
pub proof fn first_video_is_first(media_types: Seq<i32>)
    ensures
        first_video(media_types) matches Some(i) ==> is_first_video(media_types, i as int),
        first_video(media_types) is None <==> !has_video(media_types),
        forall|i: int| is_first_video(media_types, i) ==> first_video(media_types) == Some(i as nat),
{
    if has_video(media_types) {
        let k = choose|i: int| 0 <= i < media_types.len() && media_types[i] == MEDIA_TYPE_VIDEO;
        least_video_exists(media_types, k);
    }
    assert forall|i: int| is_first_video(media_types, i) implies first_video(media_types) == Some(
        i as nat,
    ) by {
        let c = choose|i: int| is_first_video(media_types, i);
        if c < i {
            assert(media_types[c] != MEDIA_TYPE_VIDEO);
        } else if i < c {
            assert(media_types[i] != MEDIA_TYPE_VIDEO);
        }
    }
}

proof fn least_video_exists(media_types: Seq<i32>, k: int)
    requires
        0 <= k < media_types.len(),
        media_types[k] == MEDIA_TYPE_VIDEO,
    ensures
        exists|i: int| is_first_video(media_types, i),
    decreases k,
{
    if forall|j: int| 0 <= j < k ==> media_types[j] != MEDIA_TYPE_VIDEO {
        assert(is_first_video(media_types, k));
    } else {
        let j = choose|j: int| 0 <= j < k && media_types[j] == MEDIA_TYPE_VIDEO;
        least_video_exists(media_types, j);
    }
}

/// Scans the streams in index order and selects the first video stream.
pub fn select_video_stream(media_types: &Vec<i32>) -> (selected: Option<usize>)
    ensures
        selected matches Some(i) ==> is_first_video(media_types@, i as int),
        selected is None <==> !has_video(media_types@),
        selected matches Some(i) ==> first_video(media_types@) == Some(i as nat),
        selected is None ==> first_video(media_types@) is None,
{
    proof {
        first_video_is_first(media_types@);
    }
    let mut idx: usize = 0;
    while idx < media_types.len()
        invariant
            idx <= media_types.len(),
            forall|j: int| 0 <= j < idx ==> media_types@[j] != MEDIA_TYPE_VIDEO,
        decreases media_types.len() - idx,
    {
        if media_types[idx] == MEDIA_TYPE_VIDEO {
            assert(is_first_video(media_types@, idx as int));
            return Some(idx);
        }
        idx += 1;
    }
    None
}

} // verus!
