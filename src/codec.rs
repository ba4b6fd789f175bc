//! The stable integer codes of the enumerated fields. Decoding is total: a code
//! that no current value owns falls back to a default, so rows written by a
//! newer schema still load.
use vstd::prelude::*;

use crate::models::{Category, Status};

verus! {

pub open spec fn cat_code(c: Category) -> i64 {
    match c {
        Category::Book => 0,
        Category::Movie => 1,
        Category::Game => 2,
        Category::Music => 3,
        Category::Other => 4,
    }
}

/// The category of a stored code; unknown codes read as `Other`.
pub open spec fn cat_of_code(i: i64) -> Category {
    if i == 0 {
        Category::Book
    } else if i == 1 {
        Category::Movie
    } else if i == 2 {
        Category::Game
    } else if i == 3 {
        Category::Music
    } else {
        Category::Other
    }
}

pub open spec fn status_code(s: Status) -> i64 {
    match s {
        Status::Planned => 0,
        Status::InProgress => 1,
        Status::Finished => 2,
    }
}

/// The status of a stored code; unknown codes read as `Planned`.
pub open spec fn status_of_code(i: i64) -> Status {
    if i == 1 {
        Status::InProgress
    } else if i == 2 {
        Status::Finished
    } else {
        Status::Planned
    }
}

pub fn cat_to_i(c: Category) -> (r: i64)
    ensures
        r == cat_code(c),
{
    match c {
        Category::Book => 0,
        Category::Movie => 1,
        Category::Game => 2,
        Category::Music => 3,
        Category::Other => 4,
    }
}

pub fn i_to_cat(i: i64) -> (r: Category)
    ensures
        r == cat_of_code(i),
{
    match i {
        0 => Category::Book,
        1 => Category::Movie,
        2 => Category::Game,
        3 => Category::Music,
        _ => Category::Other,
    }
}

pub fn status_to_i(s: Status) -> (r: i64)
    ensures
        r == status_code(s),
{
    match s {
        Status::Planned => 0,
        Status::InProgress => 1,
        Status::Finished => 2,
    }
}

pub fn i_to_status(i: i64) -> (r: Status)
    ensures
        r == status_of_code(i),
{
    match i {
        1 => Status::InProgress,
        2 => Status::Finished,
        _ => Status::Planned,
    }
}

/// Every category survives encoding and decoding, and every code outside the
/// known range decodes to `Other`.
pub proof fn lemma_category_round_trip(c: Category, i: i64)
    ensures
        cat_of_code(cat_code(c)) == c,
        (i < 0 || i > 4) ==> cat_of_code(i) == Category::Other,
{
}

/// Every status survives encoding and decoding, and every code outside the
/// known range decodes to `Planned`.
pub proof fn lemma_status_round_trip(s: Status, i: i64)
    ensures
        status_of_code(status_code(s)) == s,
        (i < 0 || i > 2) ==> status_of_code(i) == Status::Planned,
{
}

/// Distinct categories have distinct codes, and likewise for statuses.
pub proof fn lemma_codes_injective(a: Category, b: Category, s: Status, t: Status)
    ensures
        cat_code(a) == cat_code(b) ==> a == b,
        status_code(s) == status_code(t) ==> s == t,
{
}

} // verus!
