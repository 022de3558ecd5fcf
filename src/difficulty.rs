//! How many decoys a round shows, as the score grows.

use vstd::prelude::*;

verus! {

/// The multiplier for a score: 2 up to 5, 3 up to 10, 4 up to 30, 5 up to
/// 50, 6 up to 60, and 7 beyond.
pub open spec fn multiplier_for(score: int) -> int {
    if score <= 5 {
        2
    } else if score <= 10 {
        3
    } else if score <= 30 {
        4
    } else if score <= 50 {
        5
    } else if score <= 60 {
        6
    } else {
        7
    }
}

/// The number of decoys of a round.
pub open spec fn decoys_for(score: int, difficulty: int, objects_per_difficulty: int) -> int {
    difficulty * multiplier_for(score) * objects_per_difficulty
}

/// The multiplier of the difficulty curve at `score`.
pub fn score_to_increase_difficulty_formula(score: usize) -> (m: usize)
    ensures
        m == multiplier_for(score as int),
        2 <= m <= 7,
{
    if score <= 5 {
        2
    } else if score <= 10 {
        3
    } else if score <= 30 {
        4
    } else if score <= 50 {
        5
    } else if score <= 60 {
        6
    } else {
        7
    }
}

/// The number of decoys: difficulty times the score's multiplier times the
/// objects per difficulty.
pub fn decoy_count(score: usize, difficulty: usize, objects_per_difficulty: usize) -> (n: usize)
    requires
        decoys_for(score as int, difficulty as int, objects_per_difficulty as int) <= usize::MAX,
    ensures
        n == decoys_for(score as int, difficulty as int, objects_per_difficulty as int),
{
    let m = score_to_increase_difficulty_formula(score);
    if objects_per_difficulty == 0 {
        assert(difficulty * m * 0 == 0) by (nonlinear_arith);
        return 0;
    }
    assert(difficulty * m <= difficulty * m * objects_per_difficulty) by (nonlinear_arith)
        requires
            objects_per_difficulty >= 1,
            difficulty * m >= 0,
    ;
    difficulty * m * objects_per_difficulty
}

/// For a fixed difficulty and number of objects per difficulty, a higher
/// score never yields fewer decoys.
pub proof fn decoy_count_is_monotonic(
    low: int,
    high: int,
    difficulty: nat,
    objects_per_difficulty: nat,
)
    requires
        low <= high,
    ensures
        decoys_for(low, difficulty as int, objects_per_difficulty as int) <= decoys_for(
            high,
            difficulty as int,
            objects_per_difficulty as int,
        ),
{
    let a = multiplier_for(low);
    let b = multiplier_for(high);
    assert(a <= b);
    assert(difficulty * a * objects_per_difficulty <= difficulty * b * objects_per_difficulty)
        by (nonlinear_arith)
        requires
            0 <= a <= b,
            difficulty >= 0,
            objects_per_difficulty >= 0,
    ;
}

} // verus!
