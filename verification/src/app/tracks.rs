use crate::ids::{position_of, same_id, uuid_bits};
use crate::library::playlist::holds_id;
use crate::library::playlist::LoadedFolder;
use crate::library::track::Track;
use crate::paths::{path_starts_with, path_under};
use crate::text::{contains_text, lowercase_of, str_contains, str_eq, to_lowercase};
use std::path::PathBuf;
use uuid::Uuid;
use vstd::prelude::*;
use vstd::string::StringExecFns;

verus! {

/// Whether `i` is the place of the first track with the identifier `id`.
pub open spec fn is_first_with(tracks: Seq<Track>, id: Uuid, i: int) -> bool {
    &&& 0 <= i < tracks.len()
    &&& uuid_bits(tracks[i].id) == uuid_bits(id)
    &&& forall|j: int| 0 <= j < i ==> uuid_bits(#[trigger] tracks[j].id) != uuid_bits(id)
}

/// Whether some track has the identifier `id`.
pub open spec fn has_track(tracks: Seq<Track>, id: Uuid) -> bool {
    exists|i: int| is_first_with(tracks, id, i)
}

/// The place of the first track with the identifier `id`, where there is
/// one.
pub open spec fn track_place(tracks: Seq<Track>, id: Uuid) -> int {
    choose|i: int| is_first_with(tracks, id, i)
}

/// Only one place is the first.
pub proof fn lemma_first_is_unique(tracks: Seq<Track>, id: Uuid, i: int, j: int)
    requires
        is_first_with(tracks, id, i),
        is_first_with(tracks, id, j),
    ensures
        i == j,
{
    if i < j {
        assert(uuid_bits(tracks[i].id) != uuid_bits(id));
    } else if j < i {
        assert(uuid_bits(tracks[j].id) != uuid_bits(id));
    }
}

/// The place of the first track with the identifier `id`.
pub fn find_track(tracks: &Vec<Track>, id: &Uuid) -> (found: Option<usize>)
    ensures
        match found {
            Some(i) => has_track(tracks@, *id) && track_place(tracks@, *id) == i,
            None => !has_track(tracks@, *id),
        },
{
    let mut i: usize = 0;
    while i < tracks.len()
        invariant
            i <= tracks.len(),
            forall|j: int| 0 <= j < i ==> uuid_bits(#[trigger] tracks@[j].id) != uuid_bits(*id),
        decreases tracks.len() - i,
    {
        if same_id(&tracks[i].id, id) {
            proof {
                assert(is_first_with(tracks@, *id, i as int));
                lemma_first_is_unique(tracks@, *id, i as int, track_place(tracks@, *id));
            }
            return Some(i);
        }
        i += 1;
    }
    proof {
        if has_track(tracks@, *id) {
            let k = track_place(tracks@, *id);
            assert(uuid_bits(tracks@[k].id) != uuid_bits(*id));
        }
    }
    None
}

/// Whether a search text, given in lower case, occurs in the title, the
/// artist or the album of a track, whatever their case.
pub open spec fn matches(track: Track, query: Seq<char>) -> bool {
    ||| contains_text(lowercase_of(track.title@), query)
    ||| contains_text(lowercase_of(track.artist@), query)
    ||| contains_text(lowercase_of(track.album@), query)
}

/// Whether the search text `query`, given in lower case, fits the track.
pub fn matches_query(track: &Track, query: &str) -> (fits: bool)
    ensures
        fits == matches(*track, query@),
{
    str_contains(to_lowercase(track.title.as_str()).as_str(), query) || str_contains(
        to_lowercase(track.artist.as_str()).as_str(),
        query,
    ) || str_contains(to_lowercase(track.album.as_str()).as_str(), query)
}

/// Whether a track lies in one of the folders.
pub open spec fn in_folders(track: Track, folders: Seq<PathBuf>) -> bool {
    exists|k: int| 0 <= k < folders.len() && path_under(track.path, #[trigger] folders[k])
}

/// Whether the track lies in one of the folders.
pub fn track_in_folders(track: &Track, folders: &Vec<PathBuf>) -> (inside: bool)
    ensures
        inside == in_folders(*track, folders@),
{
    let mut k: usize = 0;
    while k < folders.len()
        invariant
            k <= folders.len(),
            forall|j: int| 0 <= j < k ==> !path_under(track.path, #[trigger] folders@[j]),
        decreases folders.len() - k,
    {
        if path_starts_with(&track.path, &folders[k]) {
            return true;
        }
        k += 1;
    }
    false
}

/// Whether the identifier stays in the list: its track must be known, lie
/// in one of the selected folders if any is selected, and fit the search
/// text if there is one. `query` is the search text in lower case.
pub open spec fn shown(
    tracks: Seq<Track>,
    folders: Seq<PathBuf>,
    query: Option<Seq<char>>,
    id: Uuid,
) -> bool {
    &&& has_track(tracks, id)
    &&& folders.len() > 0 ==> in_folders(tracks[track_place(tracks, id)], folders)
    &&& query matches Some(q) ==> matches(tracks[track_place(tracks, id)], q)
}

/// The search text as it is compared: in lower case, and none for an empty
/// text.
pub open spec fn search_of(search_query: Seq<char>) -> Option<Seq<char>> {
    if search_query.len() == 0 {
        None
    } else {
        Some(lowercase_of(search_query))
    }
}

/// The identifiers that stay in the list, in their order.
pub open spec fn shown_ids(
    tracks: Seq<Track>,
    folders: Seq<PathBuf>,
    query: Option<Seq<char>>,
    ids: Seq<Uuid>,
) -> Seq<Uuid> {
    ids.filter(|id: Uuid| shown(tracks, folders, query, id))
}

/// The list with one more identifier at its end.
pub proof fn lemma_shown_push(
    tracks: Seq<Track>,
    folders: Seq<PathBuf>,
    query: Option<Seq<char>>,
    ids: Seq<Uuid>,
    id: Uuid,
)
    ensures
        shown_ids(tracks, folders, query, ids.push(id)) == (if shown(tracks, folders, query, id) {
            shown_ids(tracks, folders, query, ids).push(id)
        } else {
            shown_ids(tracks, folders, query, ids)
        }),
{
    reveal(Seq::filter);
    assert(ids.push(id).drop_last() =~= ids);
}

/// The track list as it is shown: `sorted` without what the folder
/// selection and the search text leave out. Without a selection and without
/// a search text the list is `sorted` itself, whether or not its tracks are
/// known.
pub open spec fn visible_ids(
    tracks: Seq<Track>,
    folders: Seq<PathBuf>,
    search_query: Seq<char>,
    sorted: Seq<Uuid>,
) -> Seq<Uuid> {
    if folders.len() == 0 && search_query.len() == 0 {
        sorted
    } else {
        shown_ids(tracks, folders, search_of(search_query), sorted)
    }
}

/// The identifiers of `sorted` that the folder selection and the search
/// text let through.
pub fn apply_folder_filter(
    tracks: &Vec<Track>,
    sorted: &Vec<Uuid>,
    folders: &Vec<PathBuf>,
    search_query: &str,
) -> (filtered: Vec<Uuid>)
    ensures
        filtered@ == visible_ids(tracks@, folders@, search_query@, sorted@),
{
    let everything = folders.len() == 0 && search_query.is_empty();
    let query = if search_query.is_empty() {
        String::new()
    } else {
        to_lowercase(search_query)
    };
    let searching = !search_query.is_empty();
    let mut filtered: Vec<Uuid> = Vec::new();
    let mut i: usize = 0;
    assert(sorted@.subrange(0, 0) =~= Seq::<Uuid>::empty());
    proof {
        reveal(Seq::filter);
    }
    while i < sorted.len()
        invariant
            i <= sorted.len(),
            searching == (search_query@.len() > 0),
            searching ==> query@ == lowercase_of(search_query@),
            everything == (folders@.len() == 0 && search_query@.len() == 0),
            everything ==> filtered@ == sorted@.subrange(0, i as int),
            !everything ==> filtered@ == shown_ids(
                tracks@,
                folders@,
                search_of(search_query@),
                sorted@.subrange(0, i as int),
            ),
        decreases sorted.len() - i,
    {
        let id = sorted[i];
        proof {
            assert(sorted@.subrange(0, i + 1) =~= sorted@.subrange(0, i as int).push(id));
            lemma_shown_push(
                tracks@,
                folders@,
                search_of(search_query@),
                sorted@.subrange(0, i as int),
                id,
            );
        }
        let keep = if everything {
            true
        } else {
            match find_track(tracks, &id) {
                Some(place) => {
                    let track = &tracks[place];
                    (folders.len() == 0 || track_in_folders(track, folders)) && (!searching
                        || matches_query(track, query.as_str()))
                },
                None => false,
            }
        };
        if keep {
            filtered.push(id);
        }
        i += 1;
    }
    assert(sorted@.subrange(0, sorted@.len() as int) =~= sorted@);
    filtered
}

/// The track list under a search text alone.
pub fn filter_tracks(tracks: &Vec<Track>, sorted: &Vec<Uuid>, search_query: &str) -> (filtered: Vec<
    Uuid,
>)
    ensures
        filtered@ == visible_ids(tracks@, Seq::empty(), search_query@, sorted@),
{
    let none: Vec<PathBuf> = Vec::new();
    apply_folder_filter(tracks, sorted, &none, search_query)
}

/// The identifiers of the tracks that lie in a folder, in the order of the
/// tracks.
pub open spec fn ids_under(tracks: Seq<Track>, folder: PathBuf) -> Seq<Uuid>
    decreases tracks.len(),
{
    if tracks.len() == 0 {
        Seq::empty()
    } else if path_under(tracks.last().path, folder) {
        ids_under(tracks.drop_last(), folder).push(tracks.last().id)
    } else {
        ids_under(tracks.drop_last(), folder)
    }
}

/// The identifiers of the tracks that lie in `folder`.
pub fn ids_in_folder(tracks: &Vec<Track>, folder: &PathBuf) -> (ids: Vec<Uuid>)
    ensures
        ids@ == ids_under(tracks@, *folder),
{
    let mut ids: Vec<Uuid> = Vec::new();
    let mut i: usize = 0;
    assert(tracks@.subrange(0, 0) =~= Seq::<Track>::empty());
    while i < tracks.len()
        invariant
            i <= tracks.len(),
            ids@ == ids_under(tracks@.subrange(0, i as int), *folder),
        decreases tracks.len() - i,
    {
        proof {
            assert(tracks@.subrange(0, i + 1).drop_last() =~= tracks@.subrange(0, i as int));
        }
        if path_starts_with(&tracks[i].path, folder) {
            ids.push(tracks[i].id);
        }
        i += 1;
    }
    assert(tracks@.subrange(0, tracks@.len() as int) =~= tracks@);
    ids
}

/// The identifiers that are not among `removed`, in their order.
pub open spec fn ids_without(ids: Seq<Uuid>, removed: Seq<Uuid>) -> Seq<Uuid>
    decreases ids.len(),
{
    if ids.len() == 0 {
        Seq::empty()
    } else if holds_id(removed, ids.last()) {
        ids_without(ids.drop_last(), removed)
    } else {
        ids_without(ids.drop_last(), removed).push(ids.last())
    }
}

/// Takes the identifiers that are among `removed` out of the list.
pub fn remove_ids(ids: &mut Vec<Uuid>, removed: &Vec<Uuid>)
    ensures
        final(ids)@ == ids_without(old(ids)@, removed@),
{
    let mut kept: Vec<Uuid> = Vec::new();
    let mut i: usize = 0;
    assert(ids@.subrange(0, 0) =~= Seq::<Uuid>::empty());
    while i < ids.len()
        invariant
            i <= ids.len(),
            ids@ == old(ids)@,
            kept@ == ids_without(ids@.subrange(0, i as int), removed@),
        decreases ids.len() - i,
    {
        proof {
            assert(ids@.subrange(0, i + 1).drop_last() =~= ids@.subrange(0, i as int));
        }
        let id = ids[i];
        if position_of(removed, &id).is_none() {
            kept.push(id);
        }
        i += 1;
    }
    assert(ids@.subrange(0, ids@.len() as int) =~= ids@);
    *ids = kept;
}

/// The tracks whose identifiers are not among `removed`, in their order.
pub open spec fn tracks_without(tracks: Seq<Track>, removed: Seq<Uuid>) -> Seq<Track>
    decreases tracks.len(),
{
    if tracks.len() == 0 {
        Seq::empty()
    } else if holds_id(removed, tracks.last().id) {
        tracks_without(tracks.drop_last(), removed)
    } else {
        tracks_without(tracks.drop_last(), removed).push(tracks.last())
    }
}

/// Takes the tracks whose identifiers are among `removed` out of the
/// library.
pub fn remove_tracks(tracks: &mut Vec<Track>, removed: &Vec<Uuid>)
    ensures
        final(tracks)@ == tracks_without(old(tracks)@, removed@),
{
    let ghost all = tracks@;
    let mut stack: Vec<Track> = Vec::new();
    // Turn the list over so that tracks can be taken from the end in the
    // order in which they stood.
    while tracks.len() > 0
        invariant
            tracks@ + stack@.reverse() == all,
        decreases tracks.len(),
    {
        let ghost before = tracks@;
        let ghost stacked = stack@;
        let track = tracks.pop().unwrap();
        stack.push(track);
        assert(tracks@ + stack@.reverse() =~= before + stacked.reverse()) by {
            assert(stack@.reverse() =~= seq![track] + stacked.reverse());
            assert(before =~= tracks@ + seq![track]);
        }
    }
    assert(stack@.reverse() =~= all);
    let ghost mut done: Seq<Track> = Seq::empty();
    while stack.len() > 0
        invariant
            done + stack@.reverse() == all,
            tracks@ == tracks_without(done, removed@),
        decreases stack.len(),
    {
        let ghost before = stack@;
        let track = stack.pop().unwrap();
        proof {
            assert(before.reverse() =~= seq![track] + stack@.reverse());
            assert(done.push(track) + stack@.reverse() =~= done + before.reverse());
            assert(done.push(track).drop_last() =~= done);
            done = done.push(track);
        }
        if position_of(removed, &track.id).is_none() {
            tracks.push(track);
        }
    }
    assert(done =~= all);
}

/// How many of the folders are watched (`watched`) or are not.
pub open spec fn count_folders(folders: Seq<LoadedFolder>, watched: bool) -> nat
    decreases folders.len(),
{
    if folders.len() == 0 {
        0
    } else {
        count_folders(folders.drop_last(), watched) + (if folders.last().is_watched == watched {
            1nat
        } else {
            0nat
        })
    }
}

/// No more folders are counted than there are.
pub proof fn lemma_count_bounded(folders: Seq<LoadedFolder>, watched: bool)
    ensures
        count_folders(folders, watched) <= folders.len(),
        count_folders(folders, true) + count_folders(folders, false) == folders.len(),
    decreases folders.len(),
{
    if folders.len() > 0 {
        lemma_count_bounded(folders.drop_last(), watched);
    }
}

/// The number of watched folders.
pub fn watched_folders_count(folders: &Vec<LoadedFolder>) -> (count: usize)
    ensures
        count == count_folders(folders@, true),
{
    count_of(folders, true)
}

/// The number of folders that are not watched.
pub fn regular_folders_count(folders: &Vec<LoadedFolder>) -> (count: usize)
    ensures
        count == count_folders(folders@, false),
{
    count_of(folders, false)
}

fn count_of(folders: &Vec<LoadedFolder>, watched: bool) -> (count: usize)
    ensures
        count == count_folders(folders@, watched),
{
    let mut count: usize = 0;
    let mut i: usize = 0;
    assert(folders@.subrange(0, 0) =~= Seq::<LoadedFolder>::empty());
    while i < folders.len()
        invariant
            i <= folders.len(),
            count == count_folders(folders@.subrange(0, i as int), watched),
            count <= i,
        decreases folders.len() - i,
    {
        proof {
            assert(folders@.subrange(0, i + 1).drop_last() =~= folders@.subrange(0, i as int));
        }
        if folders[i].is_watched == watched {
            count += 1;
        }
        i += 1;
    }
    assert(folders@.subrange(0, folders@.len() as int) =~= folders@);
    count
}

/// The place among all folders of the folder that the cursor of a panel is
/// on: the panel lists the watched folders (`watched`) or the others, in
/// their order, and `cursor` counts within that list.
pub fn folder_at_cursor(folders: &Vec<LoadedFolder>, watched: bool, cursor: usize) -> (place: Option<
    usize,
>)
    ensures
        match place {
            Some(i) => {
                &&& i < folders@.len()
                &&& folders@[i as int].is_watched == watched
                &&& count_folders(folders@.subrange(0, i as int), watched) == cursor
            },
            None => cursor >= count_folders(folders@, watched),
        },
{
    let mut seen: usize = 0;
    let mut i: usize = 0;
    assert(folders@.subrange(0, 0) =~= Seq::<LoadedFolder>::empty());
    while i < folders.len()
        invariant
            i <= folders.len(),
            seen == count_folders(folders@.subrange(0, i as int), watched),
            seen <= i,
            seen <= cursor,
        decreases folders.len() - i,
    {
        if folders[i].is_watched == watched {
            if seen == cursor {
                return Some(i);
            }
            seen += 1;
        }
        proof {
            assert(folders@.subrange(0, i + 1).drop_last() =~= folders@.subrange(0, i as int));
        }
        i += 1;
    }
    assert(folders@.subrange(0, folders@.len() as int) =~= folders@);
    None
}

/// The text by which two tracks count as being of the same album: artist
/// and album in lower case with a bar between them.
pub open spec fn album_key(track: Track) -> Seq<char> {
    lowercase_of(track.artist@) + "|"@ + lowercase_of(track.album@)
}

/// Whether the track at `i` is the first without a cover among the tracks
/// of its album.
pub open spec fn needs_fetch(tracks: Seq<Track>, i: int) -> bool {
    &&& 0 <= i < tracks.len()
    &&& tracks[i].album_art_data is None
    &&& forall|j: int|
        0 <= j < i && tracks[j].album_art_data is None ==> album_key(#[trigger] tracks[j])
            != album_key(tracks[i])
}

fn key_of(track: &Track) -> (key: String)
    ensures
        key@ == album_key(*track),
{
    to_lowercase(track.artist.as_str()).concat("|").concat(
        to_lowercase(track.album.as_str()).as_str(),
    )
}

/// The places of the tracks for which a cover is to be looked up: one for
/// each album that has tracks without a cover, the first such track of the
/// album.
pub fn albums_missing_artwork(tracks: &Vec<Track>) -> (places: Vec<usize>)
    ensures
        forall|k: int| 0 <= k < places@.len() ==> needs_fetch(tracks@, #[trigger] places@[k] as int),
        forall|i: int| needs_fetch(tracks@, i) ==> places@.contains(i as usize),
        forall|k: int, l: int| 0 <= k < l < places@.len() ==> places@[k] < places@[l],
{
    let mut places: Vec<usize> = Vec::new();
    let mut keys: Vec<String> = Vec::new();
    let mut i: usize = 0;
    while i < tracks.len()
        invariant
            i <= tracks.len(),
            places@.len() == keys@.len(),
            forall|k: int| 0 <= k < places@.len() ==> needs_fetch(tracks@, #[trigger] places@[k] as int),
            forall|k: int| 0 <= k < places@.len() ==> places@[k] < i,
            forall|k: int|
                0 <= k < places@.len() ==> (#[trigger] keys@[k])@ == album_key(
                    tracks@[places@[k] as int],
                ),
            forall|j: int| 0 <= j < i && needs_fetch(tracks@, j) ==> places@.contains(j as usize),
            forall|j: int|
                0 <= j < i && tracks@[j].album_art_data is None ==> exists|k: int|
                    0 <= k < keys@.len() && (#[trigger] keys@[k])@ == album_key(tracks@[j]),
            forall|k: int, l: int| 0 <= k < l < places@.len() ==> places@[k] < places@[l],
        decreases tracks.len() - i,
    {
        let ghost before = places@;
        let ghost keys_before = keys@;
        if tracks[i].album_art_data.is_none() {
            let key = key_of(&tracks[i]);
            let mut known = false;
            let mut k: usize = 0;
            while k < keys.len()
                invariant
                    k <= keys.len(),
                    keys@ == keys_before,
                    !known ==> forall|m: int| 0 <= m < k ==> (#[trigger] keys@[m])@ != key@,
                    known ==> exists|m: int| 0 <= m < keys@.len() && (#[trigger] keys@[m])@ == key@,
                decreases keys.len() - k,
            {
                if str_eq(keys[k].as_str(), key.as_str()) {
                    known = true;
                }
                k += 1;
            }
            if !known {
                proof {
                    assert forall|j: int|
                        0 <= j < i && tracks@[j].album_art_data is None implies album_key(
                        #[trigger] tracks@[j],
                    ) != album_key(tracks@[i as int]) by {
                        let m = choose|m: int|
                            0 <= m < keys@.len() && (#[trigger] keys@[m])@ == album_key(tracks@[j]);
                        assert(keys@[m]@ != key@);
                    }
                    assert(needs_fetch(tracks@, i as int));
                }
                places.push(i);
                keys.push(key);
                proof {
                    assert(places@.last() == i);
                    assert forall|j: int|
                        0 <= j < i + 1 && needs_fetch(tracks@, j) implies places@.contains(
                        j as usize,
                    ) by {
                        if j < i {
                            assert(before.contains(j as usize));
                            let w = choose|w: int| 0 <= w < before.len() && before[w] == j as usize;
                            assert(places@[w] == j as usize);
                        } else {
                            assert(places@[places@.len() - 1] == i);
                        }
                    }
                    assert forall|j: int|
                        0 <= j < i + 1 && tracks@[j].album_art_data is None implies exists|k: int|
                        0 <= k < keys@.len() && (#[trigger] keys@[k])@ == album_key(tracks@[j]) by {
                        if j < i {
                            let m = choose|m: int|
                                0 <= m < keys_before.len() && (#[trigger] keys_before[m])@
                                    == album_key(tracks@[j]);
                            assert(keys@[m]@ == album_key(tracks@[j]));
                        } else {
                            assert(keys@[keys@.len() - 1]@ == album_key(tracks@[j]));
                        }
                    }
                }
            } else {
                proof {
                    let m = choose|m: int| 0 <= m < keys@.len() && (#[trigger] keys@[m])@ == key@;
                    let j = places@[m] as int;
                    assert(needs_fetch(tracks@, j));
                    assert(album_key(tracks@[j]) == album_key(tracks@[i as int]));
                    assert(!needs_fetch(tracks@, i as int));
                }
            }
        }
        i += 1;
    }
    places
}

/// Whether a found cover belongs to a track: artist and album are the
/// same but for their case.
pub open spec fn same_album(track: Track, artist: Seq<char>, album: Seq<char>) -> bool {
    lowercase_of(track.artist@) == lowercase_of(artist) && lowercase_of(track.album@)
        == lowercase_of(album)
}

/// Whether the found cover for `artist` and `album` belongs to the track.
pub fn is_same_album(track: &Track, artist: &str, album: &str) -> (same: bool)
    ensures
        same == same_album(*track, artist@, album@),
{
    str_eq(to_lowercase(track.artist.as_str()).as_str(), to_lowercase(artist).as_str()) && str_eq(
        to_lowercase(track.album.as_str()).as_str(),
        to_lowercase(album).as_str(),
    )
}

} // verus!
