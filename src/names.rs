//! The fixed pool of names and the random choice among them.
use vstd::prelude::*;

verus! {

/// Number of names in the pool.
pub const NAME_COUNT: usize = 4;

/// The pool, in order.
pub open spec fn name_pool() -> Seq<Seq<char>> {
    seq!["Aiden"@, "Kyle"@, "Andrew"@, "Ethan"@]
}

/// Position in the pool that a raw random value selects.
pub open spec fn index_of(raw: int) -> int {
    raw % (NAME_COUNT as int)
}

/// Relies on rand::random: a value from the thread-local generator. Nothing
/// is promised of it, so no `ensures`.
pub assume_specification<T>[ rand::random::<T> ]() -> (r: T)
    where
        rand::distributions::Standard: rand::distributions::Distribution<T>,
;

/// The name at position `i` of the pool.
pub fn name_at(i: usize) -> (r: &'static str)
    requires
        i < NAME_COUNT,
    ensures
        r@ == name_pool()[i as int],
{
    match i {
        0 => "Aiden",
        1 => "Kyle",
        2 => "Andrew",
        _ => "Ethan",
    }
}

/// Reduces a raw random value to a position in the pool.
pub fn pick_index(raw: usize) -> (r: usize)
    ensures
        r as int == index_of(raw as int),
        r < NAME_COUNT,
{
    raw % NAME_COUNT
}

/// The name that a raw random value selects.
pub fn pick_name_with(raw: usize) -> (r: &'static str)
    ensures
        r@ == name_pool()[index_of(raw as int)],
{
    name_at(pick_index(raw))
}

/// Draws a name from the pool using the thread-local random generator.
pub fn pick_name() -> (r: &'static str)
    ensures
        name_pool().contains(r@),
{
    let raw: usize = rand::random::<usize>();
    let r = pick_name_with(raw);
    proof {
        let i = index_of(raw as int);
        assert(0 <= i < name_pool().len());
        assert(name_pool()[i] == r@);
    }
    r
}

/// The raw values map onto the pool in equal blocks: the range of `usize`
/// is an exact multiple of the pool size, so a uniform raw value gives a
/// uniform name, and each step of the raw value moves to the next name in
/// turn.
pub proof fn lemma_selection_balanced(raw: usize)
    requires
        raw < usize::MAX,
    ensures
        (usize::MAX as int + 1) % (NAME_COUNT as int) == 0,
        index_of(raw + 1) == (index_of(raw as int) + 1) % (NAME_COUNT as int),
{
    assert((usize::MAX as int + 1) % 4 == 0);
    assert(((raw as int) + 1) % 4 == ((raw as int) % 4 + 1) % 4) by (nonlinear_arith);
}

} // verus!
