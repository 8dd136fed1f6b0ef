//! How a list of tracks is grouped into discs and how wide its track-number
//! column has to be.
use crate::text::{decimal, decimal_string};
use vstd::prelude::*;

verus! {

/// When a track row shows the artist's name.
#[derive(Clone, Debug, PartialEq)]
pub enum ArtistNameVisibility {
    Always,
    Never,
    OnlyIfDifferent(Option<String>),
}

/// The numbering a track carries in its album.
#[derive(Clone, Copy, Debug, PartialEq, Eq, Structural)]
pub struct TrackNumbering {
    pub track_number: Option<i32>,
    pub disc_number: Option<i32>,
}

/// Whether the track at `i` opens a disc group: it is the first track, it is
/// numbered 1, or its disc differs from the previous track's.
pub open spec fn starts_disc_group(tracks: Seq<TrackNumbering>, i: int) -> bool {
    ||| i == 0
    ||| tracks[i].track_number == Some(1i32)
    ||| tracks[i - 1].disc_number != tracks[i].disc_number
}

/// Whether some track of `tracks` carries track number `n`.
pub open spec fn has_track_number(tracks: Seq<TrackNumbering>, n: i32) -> bool {
    exists|i: int| 0 <= i < tracks.len() && tracks[i].track_number == Some(n)
}

/// Whether `m` is the largest track number in `tracks`.
pub open spec fn is_max_track_number(tracks: Seq<TrackNumbering>, m: i32) -> bool {
    &&& has_track_number(tracks, m)
    &&& forall|i: int|
        0 <= i < tracks.len() ==> match #[trigger] tracks[i].track_number {
            Some(n) => n <= m,
            None => true,
        }
}

fn same_disc(a: Option<i32>, b: Option<i32>) -> (r: bool)
    ensures
        r == (a == b),
{
    match (a, b) {
        (Some(x), Some(y)) => x == y,
        (None, None) => true,
        _ => false,
    }
}

/// For each track, whether it opens a disc group (and so shows a disc header).
pub fn disc_group_starts(tracks: &Vec<TrackNumbering>) -> (starts: Vec<bool>)
    ensures
        starts@.len() == tracks@.len(),
        forall|i: int| 0 <= i < tracks@.len() ==> #[trigger] starts@[i] == starts_disc_group(tracks@, i),
        tracks@.len() > 0 ==> starts@[0],
        forall|i: int| 0 <= i < tracks@.len() && tracks@[i].track_number == Some(1i32) ==> #[trigger] starts@[i],
        forall|i: int|
            0 < i < tracks@.len() && tracks@[i - 1].disc_number != tracks@[i].disc_number
                ==> #[trigger] starts@[i],
        forall|i: int|
            0 < i < tracks@.len() && tracks@[i - 1].disc_number == tracks@[i].disc_number
                && tracks@[i].track_number != Some(1i32) ==> !#[trigger] starts@[i],
{
    let mut starts: Vec<bool> = Vec::new();
    let mut index: usize = 0;
    while index < tracks.len()
        invariant
            index <= tracks@.len(),
            starts@.len() == index,
            forall|i: int| 0 <= i < index ==> #[trigger] starts@[i] == starts_disc_group(tracks@, i),
        decreases tracks@.len() - index,
    {
        let track = tracks[index];
        let first_of_disc = if index == 0 {
            true
        } else {
            let numbered_one = match track.track_number {
                Some(n) => n == 1,
                None => false,
            };
            numbered_one || !same_disc(tracks[index - 1].disc_number, track.disc_number)
        };
        starts.push(first_of_disc);
        index = index + 1;
    }
    starts
}

/// The largest track number among `tracks`, or `None` when no track is
/// numbered.
pub fn max_track_number(tracks: &Vec<TrackNumbering>) -> (max: Option<i32>)
    ensures
        match max {
            Some(m) => is_max_track_number(tracks@, m),
            None => forall|i: int| 0 <= i < tracks@.len() ==> (#[trigger] tracks@[i]).track_number is None,
        },
        max matches Some(m) ==> exists|i: int| 0 <= i < tracks@.len() && tracks@[i].track_number == Some(m),
        max matches Some(m) ==> forall|i: int|
            0 <= i < tracks@.len() && (#[trigger] tracks@[i]).track_number is Some
                ==> tracks@[i].track_number->0 <= m,
        max is None ==> forall|i: int| 0 <= i < tracks@.len() ==> (#[trigger] tracks@[i]).track_number is None,
{
    let mut best: Option<i32> = None;
    let mut index: usize = 0;
    while index < tracks.len()
        invariant
            index <= tracks@.len(),
            match best {
                Some(m) => {
                    &&& exists|i: int| 0 <= i < index && tracks@[i].track_number == Some(m)
                    &&& forall|i: int|
                        0 <= i < index ==> match #[trigger] tracks@[i].track_number {
                            Some(n) => n <= m,
                            None => true,
                        }
                },
                None => forall|i: int| 0 <= i < index ==> (#[trigger] tracks@[i]).track_number is None,
            },
        decreases tracks@.len() - index,
    {
        if let Some(n) = tracks[index].track_number {
            best = match best {
                Some(m) => if n > m { Some(n) } else { Some(m) },
                None => Some(n),
            };
        }
        index = index + 1;
    }
    best
}

/// The largest track number written out, used to size the track-number
/// column; `None` when no track is numbered.
pub fn max_track_number_label(tracks: &Vec<TrackNumbering>) -> (label: Option<String>)
    ensures
        match label {
            Some(s) => exists|m: i32| is_max_track_number(tracks@, m) && s@ == decimal(m as int),
            None => forall|i: int| 0 <= i < tracks@.len() ==> (#[trigger] tracks@[i]).track_number is None,
        },
{
    match max_track_number(tracks) {
        Some(m) => Some(decimal_string(m as i64)),
        None => None,
    }
}

/// The first track, and every track numbered 1, opens a disc group; so does
/// every track whose disc differs from the one before it.
pub proof fn lemma_group_openers(tracks: Seq<TrackNumbering>, i: int)
    requires
        0 <= i < tracks.len(),
        i == 0 || tracks[i].track_number == Some(1i32) || tracks[i - 1].disc_number
            != tracks[i].disc_number,
    ensures
        starts_disc_group(tracks, i),
{
}

/// Within a run of tracks on one disc, numbered other than 1, only the run's
/// first track can open a group.
pub proof fn lemma_no_group_inside_disc(tracks: Seq<TrackNumbering>, i: int)
    requires
        0 < i < tracks.len(),
        tracks[i].track_number != Some(1i32),
        tracks[i - 1].disc_number == tracks[i].disc_number,
    ensures
        !starts_disc_group(tracks, i),
{
}

} // verus!
