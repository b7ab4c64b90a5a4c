use crate::app::tracks::{find_track, has_track, track_place};
use crate::audio::player::duration_nanos;
use crate::config::persistence::SortMode;
use crate::library::track::Track;
use crate::paths::{compare_paths, path_before};
use crate::text::{compare_str, lex_le};
use uuid::Uuid;
use vstd::prelude::*;

verus! {

/// How one thing stands to another in an order.
#[derive(Debug, Clone, Copy, PartialEq, Eq, Structural)]
pub enum Rank {
    Before,
    Same,
    After,
}

/// The first rank that tells two things apart decides.
pub open spec fn or_else(first: Rank, second: Rank) -> Rank {
    if first == Rank::Same {
        second
    } else {
        first
    }
}

/// How a text stands to another in the order of strings.
pub open spec fn text_rank(a: Seq<char>, b: Seq<char>) -> Rank {
    if !lex_le(b, a) {
        Rank::Before
    } else if !lex_le(a, b) {
        Rank::After
    } else {
        Rank::Same
    }
}

/// How a number that may be missing stands to another: a missing number
/// comes before every number.
pub open spec fn number_rank(a: Option<u32>, b: Option<u32>) -> Rank {
    match (a, b) {
        (None, None) => Rank::Same,
        (None, Some(_)) => Rank::Before,
        (Some(_), None) => Rank::After,
        (Some(x), Some(y)) => if x < y {
            Rank::Before
        } else if x > y {
            Rank::After
        } else {
            Rank::Same
        },
    }
}

/// How a quantity stands to another.
pub open spec fn int_rank(a: int, b: int) -> Rank {
    if a < b {
        Rank::Before
    } else if a > b {
        Rank::After
    } else {
        Rank::Same
    }
}

/// How a track stands to another under a sort mode: by artist, album and
/// track number; by album and track number; by title; by the time it was
/// added, newest first; by length; or by path.
pub open spec fn track_rank(mode: SortMode, a: Track, b: Track) -> Rank {
    match mode {
        SortMode::ArtistAlbum => or_else(
            text_rank(a.artist@, b.artist@),
            or_else(text_rank(a.album@, b.album@), number_rank(a.track_number, b.track_number)),
        ),
        SortMode::Album => or_else(
            text_rank(a.album@, b.album@),
            number_rank(a.track_number, b.track_number),
        ),
        SortMode::Title => text_rank(a.title@, b.title@),
        SortMode::DateAdded => or_else(
            int_rank(b.added_at.secs as int, a.added_at.secs as int),
            int_rank(b.added_at.nanos as int, a.added_at.nanos as int),
        ),
        SortMode::Duration => int_rank(
            duration_nanos(a.duration) as int,
            duration_nanos(b.duration) as int,
        ),
        SortMode::Path => if path_before(a.path, b.path) {
            Rank::Before
        } else if path_before(b.path, a.path) {
            Rank::After
        } else {
            Rank::Same
        },
    }
}

/// How an identifier stands to another: as their tracks do; an identifier
/// without a track is neither before nor after any other.
pub open spec fn id_rank(tracks: Seq<Track>, mode: SortMode, a: Uuid, b: Uuid) -> Rank {
    if has_track(tracks, a) && has_track(tracks, b) {
        track_rank(mode, tracks[track_place(tracks, a)], tracks[track_place(tracks, b)])
    } else {
        Rank::Same
    }
}

/// `sorted` with `id` put behind the last identifier that does not come
/// after it: among identifiers of the same rank the newcomer is last.
pub open spec fn insert_id(tracks: Seq<Track>, mode: SortMode, sorted: Seq<Uuid>, id: Uuid) -> Seq<
    Uuid,
>
    decreases sorted.len(),
{
    if sorted.len() == 0 {
        seq![id]
    } else if id_rank(tracks, mode, sorted.last(), id) != Rank::After {
        sorted.push(id)
    } else {
        insert_id(tracks, mode, sorted.drop_last(), id).push(sorted.last())
    }
}

/// The identifiers in the order of their tracks, identifiers of the same
/// rank in the order in which they came.
pub open spec fn sorted_ids(tracks: Seq<Track>, mode: SortMode, ids: Seq<Uuid>) -> Seq<Uuid>
    decreases ids.len(),
{
    if ids.len() == 0 {
        ids
    } else {
        insert_id(tracks, mode, sorted_ids(tracks, mode, ids.drop_last()), ids.last())
    }
}

/// Sorting keeps the identifiers, each as often as it was there, and
/// changes only their order.
pub proof fn lemma_sorted_len(tracks: Seq<Track>, mode: SortMode, ids: Seq<Uuid>)
    ensures
        sorted_ids(tracks, mode, ids).len() == ids.len(),
        sorted_ids(tracks, mode, ids).to_multiset() == ids.to_multiset(),
    decreases ids.len(),
{
    if ids.len() > 0 {
        lemma_sorted_len(tracks, mode, ids.drop_last());
        lemma_insert_len(tracks, mode, sorted_ids(tracks, mode, ids.drop_last()), ids.last());
        vstd::seq_lib::to_multiset_build(ids.drop_last(), ids.last());
        assert(ids.drop_last().push(ids.last()) =~= ids);
    }
}

/// Inserting adds one identifier, that one and nothing else.
pub proof fn lemma_insert_len(tracks: Seq<Track>, mode: SortMode, sorted: Seq<Uuid>, id: Uuid)
    ensures
        insert_id(tracks, mode, sorted, id).len() == sorted.len() + 1,
        insert_id(tracks, mode, sorted, id).to_multiset() == sorted.to_multiset().insert(id),
    decreases sorted.len(),
{
    if sorted.len() > 0 && id_rank(tracks, mode, sorted.last(), id) == Rank::After {
        let front = sorted.drop_last();
        lemma_insert_len(tracks, mode, front, id);
        vstd::seq_lib::to_multiset_build(insert_id(tracks, mode, front, id), sorted.last());
        vstd::seq_lib::to_multiset_build(front, sorted.last());
        assert(front.push(sorted.last()) =~= sorted);
        assert(insert_id(tracks, mode, sorted, id).to_multiset() =~= sorted.to_multiset().insert(
            id,
        ));
    } else {
        vstd::seq_lib::to_multiset_build(sorted, id);
        if sorted.len() == 0 {
            assert(seq![id] =~= sorted.push(id));
        }
    }
}

fn rank_of(order: std::cmp::Ordering) -> (rank: Rank)
    ensures
        matches!(order, std::cmp::Ordering::Less) <==> rank == Rank::Before,
        matches!(order, std::cmp::Ordering::Greater) <==> rank == Rank::After,
{
    match order {
        std::cmp::Ordering::Less => Rank::Before,
        std::cmp::Ordering::Equal => Rank::Same,
        std::cmp::Ordering::Greater => Rank::After,
    }
}

fn order_of(rank: Rank) -> (order: std::cmp::Ordering)
    ensures
        matches!(order, std::cmp::Ordering::Less) <==> rank == Rank::Before,
        matches!(order, std::cmp::Ordering::Greater) <==> rank == Rank::After,
{
    match rank {
        Rank::Before => std::cmp::Ordering::Less,
        Rank::Same => std::cmp::Ordering::Equal,
        Rank::After => std::cmp::Ordering::Greater,
    }
}

fn rank_texts(a: &str, b: &str) -> (rank: Rank)
    ensures
        rank == text_rank(a@, b@),
{
    let order = compare_str(a, b);
    proof {
        crate::text::lemma_lex_le_total(a@, b@);
    }
    rank_of(order)
}

fn rank_numbers(a: Option<u32>, b: Option<u32>) -> (rank: Rank)
    ensures
        rank == number_rank(a, b),
{
    match (a, b) {
        (None, None) => Rank::Same,
        (None, Some(_)) => Rank::Before,
        (Some(_), None) => Rank::After,
        (Some(x), Some(y)) => if x < y {
            Rank::Before
        } else if x > y {
            Rank::After
        } else {
            Rank::Same
        },
    }
}

fn first_or(first: Rank, second: Rank) -> (rank: Rank)
    ensures
        rank == or_else(first, second),
{
    match first {
        Rank::Same => second,
        _ => first,
    }
}

/// How track `a` stands to track `b` under the sort mode.
pub fn compare_tracks(mode: SortMode, a: &Track, b: &Track) -> (rank: Rank)
    ensures
        rank == track_rank(mode, *a, *b),
{
    match mode {
        SortMode::ArtistAlbum => first_or(
            rank_texts(a.artist.as_str(), b.artist.as_str()),
            first_or(
                rank_texts(a.album.as_str(), b.album.as_str()),
                rank_numbers(a.track_number, b.track_number),
            ),
        ),
        SortMode::Album => first_or(
            rank_texts(a.album.as_str(), b.album.as_str()),
            rank_numbers(a.track_number, b.track_number),
        ),
        SortMode::Title => rank_texts(a.title.as_str(), b.title.as_str()),
        SortMode::DateAdded => {
            if b.added_at.secs < a.added_at.secs {
                Rank::Before
            } else if b.added_at.secs > a.added_at.secs {
                Rank::After
            } else if b.added_at.nanos < a.added_at.nanos {
                Rank::Before
            } else if b.added_at.nanos > a.added_at.nanos {
                Rank::After
            } else {
                Rank::Same
            }
        },
        SortMode::Duration => {
            let x = a.duration.as_nanos();
            let y = b.duration.as_nanos();
            if x < y {
                Rank::Before
            } else if x > y {
                Rank::After
            } else {
                Rank::Same
            }
        },
        SortMode::Path => rank_of(compare_paths(&a.path, &b.path)),
    }
}

/// The order of two identifiers in the track list.
fn compare_ids(tracks: &Vec<Track>, mode: SortMode, a: &Uuid, b: &Uuid) -> (order:
    std::cmp::Ordering)
    ensures
        matches!(order, std::cmp::Ordering::Less) <==> id_rank(tracks@, mode, *a, *b) == Rank::Before,
        matches!(order, std::cmp::Ordering::Greater) <==> id_rank(tracks@, mode, *a, *b)
            == Rank::After,
{
    match (find_track(tracks, a), find_track(tracks, b)) {
        (Some(i), Some(j)) => order_of(compare_tracks(mode, &tracks[i], &tracks[j])),
        _ => std::cmp::Ordering::Equal,
    }
}

/// `slice::sort_by` with the order of the track list. The sort is stable:
/// identifiers that compare equal keep their order. Every identifier must
/// have its track, so that the comparison is an order.
#[verifier::external_body]
fn sort_by_rank(ids: &mut Vec<Uuid>, tracks: &Vec<Track>, mode: SortMode)
    requires
        forall|i: int| 0 <= i < old(ids)@.len() ==> has_track(tracks@, #[trigger] old(ids)@[i]),
    ensures
        final(ids)@ == sorted_ids(tracks@, mode, old(ids)@),
{
    ids.sort_by(|a, b| compare_ids(tracks, mode, a, b));
}

/// Whether every identifier has its track.
pub fn all_known(tracks: &Vec<Track>, ids: &Vec<Uuid>) -> (known: bool)
    ensures
        known == (forall|i: int| 0 <= i < ids@.len() ==> has_track(tracks@, #[trigger] ids@[i])),
{
    let mut i: usize = 0;
    while i < ids.len()
        invariant
            i <= ids.len(),
            forall|j: int| 0 <= j < i ==> has_track(tracks@, #[trigger] ids@[j]),
        decreases ids.len() - i,
    {
        if find_track(tracks, &ids[i]).is_none() {
            return false;
        }
        i += 1;
    }
    true
}

/// Puts the track list in the order of the sort mode. A list that names
/// a track which is not there is left as it is, and `false` returned.
pub fn sort_tracks(tracks: &Vec<Track>, ids: &mut Vec<Uuid>, mode: SortMode) -> (sorted: bool)
    ensures
        sorted == (forall|i: int|
            0 <= i < old(ids)@.len() ==> has_track(tracks@, #[trigger] old(ids)@[i])),
        sorted ==> final(ids)@ == sorted_ids(tracks@, mode, old(ids)@),
        !sorted ==> final(ids)@ == old(ids)@,
{
    if all_known(tracks, ids) {
        sort_by_rank(ids, tracks, mode);
        true
    } else {
        false
    }
}

} // verus!
