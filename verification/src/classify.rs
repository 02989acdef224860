//! Book or chapter: how a unit is to be presented, and which volume it
//! belongs to.

use crate::model::{
    opt_detail, unnumbered_token, ChapterInfo, ChapterInfoView, SeriesDetail, SeriesDetailView,
    VolumeInfo, VolumeInfoView,
};
use crate::text::{decimal, push_decimal, same_text};
use vstd::prelude::*;

verus! {

/// The first volume of a list that has the id `id`.
pub open spec fn find_volume(volumes: Seq<VolumeInfoView>, id: i32) -> Option<VolumeInfoView>
    decreases volumes.len(),
{
    if volumes.len() == 0 {
        None
    } else if volumes[0].id == id {
        Some(volumes[0])
    } else {
        find_volume(volumes.skip(1), id)
    }
}

/// The ids of the volumes that a detail lists; `None` where there is no detail.
pub open spec fn known_volume_ids(detail: Option<SeriesDetailView>) -> Option<Seq<i32>> {
    match detail {
        Some(d) => Some(d.volumes.map_values(|v: VolumeInfoView| v.id)),
        None => None,
    }
}

/// Whether a unit is presented as a book. A unit with a chapter number never
/// is. One without is a book unless its volume is positive and known: then it
/// is a volume that is one file. Where no volume list is at hand it is a book.
pub open spec fn book_mode(number: Seq<char>, volume_id: i32, known_ids: Option<Seq<i32>>) -> bool {
    number == unnumbered_token() && !(known_ids matches Some(ids) && volume_id > 0 && ids.contains(
        volume_id,
    ))
}

/// The label of volume number `number`.
pub open spec fn volume_text(number: int) -> Seq<char> {
    "Vol. "@ + decimal(number)
}

/// The volume number guessed for a unit that no volume list places: the
/// number its range starts with where that is positive, else the last three
/// digits of its volume id.
pub open spec fn guessed_volume_number(range_number: Option<i32>, volume_id: i32) -> int {
    match range_number {
        Some(n) => if n > 0 {
            n as int
        } else {
            (volume_id as int) % 1000
        },
        None => (volume_id as int) % 1000,
    }
}

/// The volume label of a unit among a list of volumes. It is empty for a book
/// and for a volume id that is not positive. Else it is the label of the first
/// volume with the unit's volume id, and where no volume has the id it is the
/// label of the guessed number.
pub open spec fn placed_volume_label(
    volumes: Seq<VolumeInfoView>,
    volume_id: i32,
    range_number: Option<i32>,
    is_book: bool,
) -> Seq<char> {
    if is_book || volume_id <= 0 {
        Seq::empty()
    } else {
        match find_volume(volumes, volume_id) {
            Some(v) => volume_text(v.number as int),
            None => volume_text(guessed_volume_number(range_number, volume_id)),
        }
    }
}

/// The volumes that a detail lists; none where there is no detail.
pub open spec fn listed_volumes(detail: Option<SeriesDetailView>) -> Seq<VolumeInfoView> {
    match detail {
        Some(d) => d.volumes,
        None => Seq::empty(),
    }
}

/// The volume label of a unit: its label among the volumes that the detail
/// lists, which without a detail are none.
pub open spec fn volume_label_of(
    chapter: ChapterInfoView,
    detail: Option<SeriesDetailView>,
    is_book: bool,
) -> Seq<char> {
    placed_volume_label(listed_volumes(detail), chapter.volume_id, chapter.range_number, is_book)
}

/// A unit has no volume label exactly when it is a book or its volume id is
/// not positive: every other unit gets one, from the list or guessed.
pub proof fn volume_label_is_empty_only_without_volume(
    volumes: Seq<VolumeInfoView>,
    volume_id: i32,
    range_number: Option<i32>,
    is_book: bool,
)
    ensures
        placed_volume_label(volumes, volume_id, range_number, is_book).len() == 0 <==> is_book
            || volume_id <= 0,
{
}

/// A volume list knows an id exactly when it holds a volume with it.
pub proof fn find_volume_is_some_iff_known(volumes: Seq<VolumeInfoView>, id: i32)
    ensures
        find_volume(volumes, id) is Some <==> volumes.map_values(|v: VolumeInfoView| v.id).contains(
            id,
        ),
        find_volume(volumes, id) matches Some(v) ==> v.id == id && volumes.contains(v),
    decreases volumes.len(),
{
    let ids = volumes.map_values(|v: VolumeInfoView| v.id);
    if volumes.len() == 0 {
    } else if volumes[0].id == id {
        assert(ids[0] == id);
    } else {
        let rest = volumes.skip(1);
        let rest_ids = rest.map_values(|v: VolumeInfoView| v.id);
        find_volume_is_some_iff_known(rest, id);
        assert(rest_ids =~= ids.skip(1));
        if rest_ids.contains(id) {
            let k = choose|k: int| 0 <= k < rest_ids.len() && rest_ids[k] == id;
            assert(ids[k + 1] == id);
        }
        if ids.contains(id) {
            let k = choose|k: int| 0 <= k < ids.len() && ids[k] == id;
            assert(rest_ids[k - 1] == id);
        }
        if find_volume(rest, id) is Some {
            let v = find_volume(rest, id)->0;
            let k = choose|k: int| 0 <= k < rest.len() && rest[k] == v;
            assert(volumes[k + 1] == v);
        }
    }
}

/// Whether a unit is a book is decided by its numbering token, its volume id
/// and the set of known volume ids, and by nothing else: units that agree in
/// these are classified alike, in whatever order the volumes are listed.
pub proof fn classification_depends_on_three_inputs(
    first: ChapterInfoView,
    first_detail: Option<SeriesDetailView>,
    second: ChapterInfoView,
    second_detail: Option<SeriesDetailView>,
)
    requires
        first.number == second.number,
        first.volume_id == second.volume_id,
        first_detail is Some == second_detail is Some,
        first_detail is Some ==> forall|id: i32|
            known_volume_ids(first_detail)->0.contains(id) == known_volume_ids(
                second_detail,
            )->0.contains(id),
    ensures
        book_mode(first.number, first.volume_id, known_volume_ids(first_detail)) == book_mode(
            second.number,
            second.volume_id,
            known_volume_ids(second_detail),
        ),
{
}

/// Looks a volume id up in a list of volumes.
fn lookup_volume(volumes: &Vec<VolumeInfo>, id: i32) -> (found: Option<usize>)
    ensures
        found is Some == find_volume(volumes@.map_values(|v: VolumeInfo| v@), id) is Some,
        found matches Some(i) ==> i < volumes.len() && Some(volumes[i as int]@) == find_volume(
            volumes@.map_values(|v: VolumeInfo| v@),
            id,
        ),
{
    let ghost all = volumes@.map_values(|v: VolumeInfo| v@);
    let mut i: usize = 0;
    assert(all.skip(0) =~= all);
    while i < volumes.len()
        invariant
            i <= volumes.len(),
            all == volumes@.map_values(|v: VolumeInfo| v@),
            find_volume(all, id) == find_volume(all.skip(i as int), id),
        decreases volumes.len() - i,
    {
        proof {
            assert(all.skip(i as int)[0] == volumes[i as int]@);
            assert(all.skip(i as int).skip(1) =~= all.skip(i + 1));
        }
        if volumes[i].id == id {
            return Some(i);
        }
        i += 1;
    }
    None
}

/// The text "Vol. " followed by a number.
fn volume_text_of(number: i32) -> (label: String)
    ensures
        label@ == volume_text(number as int),
{
    let mut label = String::from_str("Vol. ");
    push_decimal(&mut label, number as i64);
    label
}

/// Whether a unit is presented as a book rather than as a chapter or volume.
pub fn classify(chapter: &ChapterInfo, detail: &Option<SeriesDetail>) -> (is_book: bool)
    ensures
        is_book == book_mode(
            chapter@.number,
            chapter@.volume_id,
            known_volume_ids(opt_detail(*detail)),
        ),
{
    if !same_text(chapter.number.as_str(), "-100000") {
        return false;
    }
    match detail {
        Some(d) => {
            proof {
                find_volume_is_some_iff_known(d@.volumes, chapter.volume_id);
            }
            let found = lookup_volume(&d.volumes, chapter.volume_id);
            !(found.is_some() && chapter.volume_id > 0)
        },
        None => true,
    }
}

/// The label "Vol. N" of the volume that a unit belongs to, read from the
/// volumes of a series detail, and guessed where they do not hold the unit's
/// volume. `range_number` is the whole part of the number that the unit's
/// range starts with, where it starts with one.
pub fn get_volume_info_from_detail(
    detail: &SeriesDetail,
    chapter_volume_id: i32,
    range_number: Option<i32>,
    is_book: bool,
) -> (label: String)
    ensures
        label@ == placed_volume_label(detail@.volumes, chapter_volume_id, range_number, is_book),
{
    if is_book || chapter_volume_id <= 0 {
        return String::new();
    }
    match lookup_volume(&detail.volumes, chapter_volume_id) {
        Some(i) => volume_text_of(detail.volumes[i].number),
        None => guessed_volume_text(range_number, chapter_volume_id),
    }
}

/// The label of the guessed volume number.
fn guessed_volume_text(range_number: Option<i32>, volume_id: i32) -> (label: String)
    requires
        volume_id > 0,
    ensures
        label@ == volume_text(guessed_volume_number(range_number, volume_id)),
{
    let guess: i32 = match range_number {
        Some(n) => if n > 0 {
            n
        } else {
            volume_id % 1000
        },
        None => volume_id % 1000,
    };
    volume_text_of(guess)
}

/// The volume label of a unit, with or without a series detail at hand.
pub fn volume_label(chapter: &ChapterInfo, detail: &Option<SeriesDetail>, is_book: bool) -> (label:
    String)
    ensures
        label@ == volume_label_of(chapter@, opt_detail(*detail), is_book),
{
    match detail {
        Some(d) => get_volume_info_from_detail(
            d,
            chapter.volume_id,
            chapter.range_number,
            is_book,
        ),
        None => {
            if is_book || chapter.volume_id <= 0 {
                String::new()
            } else {
                guessed_volume_text(chapter.range_number, chapter.volume_id)
            }
        },
    }
}

} // verus!
