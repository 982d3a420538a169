//! What happens to one input file: the decisions taken after each outside
//! step, and the four images made from a decoded source.

use vstd::prelude::*;

use crate::naming::{lemma_output_names_distinct, output_name_of, variant_at, Variant};
use crate::picture::{clamped_extent, cut, resample, Picture};

verus! {

/// How the processing of one file ended.
#[derive(Clone, Copy, Debug, PartialEq, Eq, Structural)]
pub enum Outcome {
    Succeeded,
    RejectedAspectRatio,
    NotAnImage,
    DeleteFailed,
}

/// What to do next with a file.
#[derive(Clone, Copy, Debug, PartialEq, Eq, Structural)]
pub enum Next {
    /// Delete the original file, then report whether that worked.
    RemoveOriginal,
    /// Make the four derived images and save each of them.
    WriteOutputs,
    /// Stop: the file's processing ended this way.
    Finish(Outcome),
}

/// Only an image exactly twice as wide as it is high is accepted.
pub open spec fn panoramic(width: u32, height: u32) -> bool {
    width as int == 2 * height as int
}

pub open spec fn next_after_decode(size: Option<(u32, u32)>) -> Next {
    match size {
        None => Next::Finish(Outcome::NotAnImage),
        Some((w, h)) => if panoramic(w, h) {
            Next::RemoveOriginal
        } else {
            Next::Finish(Outcome::RejectedAspectRatio)
        },
    }
}

pub open spec fn next_after_remove(removed: bool) -> Next {
    if removed {
        Next::WriteOutputs
    } else {
        Next::Finish(Outcome::DeleteFailed)
    }
}

/// A file whose original was removed counts as converted, whichever of its
/// saves failed: a failed save is reported on its own and does not change
/// the file's outcome.
pub open spec fn outcome_after_writes(saved: Seq<bool>) -> Outcome {
    Outcome::Succeeded
}

/// The steps taken for one file, given what decoding gave and whether the
/// removal worked (that answer is only asked for when a removal is issued).
pub open spec fn file_run(size: Option<(u32, u32)>, removed: bool, saved: Seq<bool>) -> Seq<Next> {
    let first = next_after_decode(size);
    if first != Next::RemoveOriginal {
        seq![first]
    } else {
        let second = next_after_remove(removed);
        if second != Next::WriteOutputs {
            seq![first, second]
        } else {
            seq![first, second, Next::Finish(outcome_after_writes(saved))]
        }
    }
}

/// A run touches the file system when it removes the original or writes.
pub open spec fn mutates(run: Seq<Next>) -> bool {
    exists|i: int| 0 <= i < run.len() && (run[i] == Next::RemoveOriginal || run[i] == Next::WriteOutputs)
}

/// The size of each derived image, as (width, height).
pub open spec fn size_of(v: Variant) -> (u32, u32) {
    match v {
        Variant::Resized => (2048, 1024),
        Variant::Left => (1024, 1024),
        Variant::Right => (1024, 1024),
        Variant::Small => (1024, 512),
    }
}

/// Where each square is cut from the resized image, as (x, y, width, height).
pub open spec fn crop_region_of(v: Variant) -> (u32, u32, u32, u32) {
    match v {
        Variant::Left => (0, 0, 1024, 1024),
        _ => (1024, 0, 1024, 1024),
    }
}

/// Whether the pixel at column `x`, row `y` lies in the region.
pub open spec fn covers(region: (u32, u32, u32, u32), x: int, y: int) -> bool {
    region.0 <= x < region.0 + region.2 && region.1 <= y < region.1 + region.3
}

/// Whether the source is accepted.
pub fn is_panoramic(width: u32, height: u32) -> (r: bool)
    ensures
        r == panoramic(width, height),
{
    width as u64 == 2 * (height as u64)
}

/// The step after trying to decode the file; `size` is the decoded image's
/// (width, height), or `None` when the file is no image.
pub fn after_decode(size: Option<(u32, u32)>) -> (r: Next)
    ensures
        r == next_after_decode(size),
{
    match size {
        None => Next::Finish(Outcome::NotAnImage),
        Some((w, h)) => if is_panoramic(w, h) {
            Next::RemoveOriginal
        } else {
            Next::Finish(Outcome::RejectedAspectRatio)
        },
    }
}

/// The step after trying to remove the original file.
pub fn after_remove(removed: bool) -> (r: Next)
    ensures
        r == next_after_remove(removed),
{
    if removed {
        Next::WriteOutputs
    } else {
        Next::Finish(Outcome::DeleteFailed)
    }
}

/// The outcome once every save has been tried; `saved[i]` tells whether the
/// image of variant `i` was written.
pub fn after_writes(saved: &Vec<bool>) -> (r: Outcome)
    ensures
        r == outcome_after_writes(saved@),
{
    Outcome::Succeeded
}

/// The region of the resized image that a square variant is cut from.
pub fn crop_region(v: Variant) -> (r: (u32, u32, u32, u32))
    requires
        v == Variant::Left || v == Variant::Right,
    ensures
        r == crop_region_of(v),
{
    match v {
        Variant::Left => (0, 0, 1024, 1024),
        _ => (1024, 0, 1024, 1024),
    }
}

/// One derived image and the variant it is.
pub struct Derived {
    pub variant: Variant,
    pub picture: Picture,
}

/// Makes the four derived images of `source`, in variant order: the source
/// resized to 2048×1024, the left and right 1024×1024 halves of that, and the
/// source resized to 1024×512.
pub fn derive_images(source: &Picture) -> (r: Vec<Derived>)
    ensures
        r.len() == 4,
        forall|i: int|
            0 <= i < 4 ==> {
                &&& #[trigger] r[i].variant == variant_at(i)
                &&& r[i].picture.spec_width() == size_of(variant_at(i)).0
                &&& r[i].picture.spec_height() == size_of(variant_at(i)).1
            },
{
    let resized = resample(source, 2048, 1024);
    let (lx, ly, lw, lh) = crop_region(Variant::Left);
    let left = cut(&resized, lx, ly, lw, lh);
    let (rx, ry, rw, rh) = crop_region(Variant::Right);
    let right = cut(&resized, rx, ry, rw, rh);
    let small = resample(source, 1024, 512);
    let mut r: Vec<Derived> = Vec::new();
    r.push(Derived { variant: Variant::Resized, picture: resized });
    r.push(Derived { variant: Variant::Left, picture: left });
    r.push(Derived { variant: Variant::Right, picture: right });
    r.push(Derived { variant: Variant::Small, picture: small });
    r
}

/// A decodable image twice as wide as high has its original removed (when
/// the removal works) and its outputs written, and ends as converted. Its
/// four outputs have the fixed sizes and four different names.
pub proof fn lemma_panoramic_is_converted(width: u32, height: u32, saved: Seq<bool>, stem: Seq<char>)
    requires
        panoramic(width, height),
    ensures
        file_run(Some((width, height)), true, saved) == seq![
            Next::RemoveOriginal,
            Next::WriteOutputs,
            Next::Finish(Outcome::Succeeded),
        ],
        size_of(Variant::Resized) == (2048u32, 1024u32),
        size_of(Variant::Left) == (1024u32, 1024u32),
        size_of(Variant::Right) == (1024u32, 1024u32),
        size_of(Variant::Small) == (1024u32, 512u32),
        forall|i: int, j: int|
            0 <= i < 4 && 0 <= j < 4 ==> (#[trigger] output_name_of(stem, variant_at(i))
                == #[trigger] output_name_of(stem, variant_at(j)) <==> i == j),
{
    assert forall|i: int, j: int|
        0 <= i < 4 && 0 <= j < 4 implies (#[trigger] output_name_of(stem, variant_at(i))
            == #[trigger] output_name_of(stem, variant_at(j)) <==> i == j) by {
        lemma_output_names_distinct(stem, variant_at(i), variant_at(j));
    }
}

/// A decodable image of any other shape is rejected and left untouched.
pub proof fn lemma_other_shapes_are_rejected(width: u32, height: u32, removed: bool, saved: Seq<bool>)
    requires
        !panoramic(width, height),
    ensures
        file_run(Some((width, height)), removed, saved) == seq![
            Next::Finish(Outcome::RejectedAspectRatio),
        ],
        !mutates(file_run(Some((width, height)), removed, saved)),
{
    let run = file_run(Some((width, height)), removed, saved);
    assert(run =~= seq![Next::Finish(Outcome::RejectedAspectRatio)]);
}

/// A file that does not decode is reported as no image and left untouched.
pub proof fn lemma_undecodable_is_left_alone(removed: bool, saved: Seq<bool>)
    ensures
        file_run(None, removed, saved) == seq![Next::Finish(Outcome::NotAnImage)],
        !mutates(file_run(None, removed, saved)),
{
    let run = file_run(None, removed, saved);
    assert(run =~= seq![Next::Finish(Outcome::NotAnImage)]);
}

/// When the original cannot be removed nothing is written.
pub proof fn lemma_failed_removal_writes_nothing(width: u32, height: u32, saved: Seq<bool>)
    requires
        panoramic(width, height),
    ensures
        file_run(Some((width, height)), false, saved) == seq![
            Next::RemoveOriginal,
            Next::Finish(Outcome::DeleteFailed),
        ],
{
}

/// The two squares are the left and right halves of the resized image: each
/// pixel of its 2048×1024 frame lies in exactly one of them, in the left one
/// exactly when its column is below 1024, and both are 1024 pixels high.
pub proof fn lemma_squares_halve_resized()
    ensures
        forall|x: int, y: int|
            0 <= x < size_of(Variant::Resized).0 && 0 <= y < size_of(Variant::Resized).1 ==> {
                &&& #[trigger] covers(crop_region_of(Variant::Left), x, y) == (x < 1024)
                &&& covers(crop_region_of(Variant::Right), x, y) == (x >= 1024)
            },
        forall|x: int, y: int|
            #[trigger] covers(crop_region_of(Variant::Left), x, y) || covers(
                crop_region_of(Variant::Right),
                x,
                y,
            ) ==> 0 <= x < size_of(Variant::Resized).0 && 0 <= y < size_of(Variant::Resized).1,
        clamped_extent(2048, 0, 1024) == 1024,
        clamped_extent(2048, 1024, 1024) == 1024,
        clamped_extent(1024, 0, 1024) == 1024,
{
}

/// The resized output is itself twice as wide as high, so running the tool on
/// it again converts it again: nothing guards against re-thumbnailing.
pub proof fn lemma_resized_output_is_accepted_again()
    ensures
        next_after_decode(Some(size_of(Variant::Resized))) == Next::RemoveOriginal,
{
}

} // verus!
