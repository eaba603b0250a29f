use vstd::prelude::*;

verus! {

/// The number of petals the overlay can show for a pair: the fewest bounding boxes
/// among the images that have labels (`Some` count), or 0 when none has.
pub fn petal_count(counts: &[Option<usize>]) -> (n: usize)
    ensures
        (forall|k: int| 0 <= k < counts@.len() ==> #[trigger] counts@[k] is None) ==> n == 0,
        (exists|k: int| 0 <= k < counts@.len() && #[trigger] counts@[k] is Some) ==> {
            &&& exists|k: int| 0 <= k < counts@.len() && #[trigger] counts@[k] == Some(n)
            &&& forall|k: int|
                0 <= k < counts@.len() && #[trigger] counts@[k] is Some ==> n <= counts@[k]->0
        },
{
    let mut best: Option<usize> = None;
    let len = counts.len();
    for i in 0..len
        invariant
            len == counts@.len(),
            best is None <==> forall|k: int| 0 <= k < i ==> #[trigger] counts@[k] is None,
            best matches Some(b) ==> exists|k: int| 0 <= k < i && #[trigger] counts@[k] == Some(b),
            best matches Some(b) ==> forall|k: int|
                0 <= k < i && #[trigger] counts@[k] is Some ==> b <= counts@[k]->0,
    {
        if let Some(c) = counts[i] {
            match best {
                None => {
                    best = Some(c);
                },
                Some(b) => {
                    if c < b {
                        best = Some(c);
                    }
                },
            }
        }
    }
    match best {
        Some(b) => b,
        None => 0,
    }
}

/// The petal after `index`, wrapping round to the first after the last of `count`.
pub fn next_petal(index: usize, count: usize) -> (next: usize)
    requires
        count > 0,
        index < usize::MAX,
    ensures
        next == (index + 1) % (count as int),
        next < count,
{
    (index + 1) % count
}

/// Which image of the pair lies underneath (white background) and which on top:
/// `(white, black)` as indices into the pair. The first image goes underneath when
/// its box has a white background, the second otherwise.
pub fn white_black_order(first_is_white: bool) -> (order: (usize, usize))
    ensures
        order == (if first_is_white { (0usize, 1usize) } else { (1usize, 0usize) }),
{
    if first_is_white {
        (0, 1)
    } else {
        (1, 0)
    }
}

/// The region of the overlay texture for a box whose corners, rounded down to whole
/// pixels, are `min_floor` and `max_floor`: its offset and its size in pixels.
pub fn overlay_region(min_floor: (u32, u32), max_floor: (u32, u32)) -> (region: (
    (u32, u32),
    (u32, u32),
))
    requires
        min_floor.0 <= max_floor.0,
        min_floor.1 <= max_floor.1,
    ensures
        region.0 == min_floor,
        region.1.0 == max_floor.0 - min_floor.0,
        region.1.1 == max_floor.1 - min_floor.1,
{
    (min_floor, (max_floor.0 - min_floor.0, max_floor.1 - min_floor.1))
}


/// The petal reached from `index` after `steps` presses of the next-petal key.
pub open spec fn petal_after(index: int, count: int, steps: nat) -> int
    decreases steps,
{
    if steps == 0 {
        index
    } else {
        petal_after((index + 1) % count, count, (steps - 1) as nat)
    }
}

/// Pressing the next-petal key `count` times from any petal comes back to it: the
/// key cycles through all petals.
pub proof fn law_petal_cycle(index: int, count: int)
    requires
        0 <= index < count,
    ensures
        petal_after(index, count, count as nat) == index,
{
    lemma_petal_after(index, count, count as nat);
    assert((index + count) % count == index) by (nonlinear_arith)
        requires
            0 <= index < count,
    ;
}

/// After `steps` presses from `index` the petal is `(index + steps) % count`.
proof fn lemma_petal_after(index: int, count: int, steps: nat)
    requires
        0 <= index < count,
    ensures
        petal_after(index, count, steps) == (index + steps) % count,
    decreases steps,
{
    if steps > 0 {
        let next = (index + 1) % count;
        assert(0 <= next < count) by (nonlinear_arith)
            requires
                count > 0,
                next == (index + 1) % count,
        ;
        lemma_petal_after(next, count, (steps - 1) as nat);
        vstd::arithmetic::div_mod::lemma_add_mod_noop_right(steps - 1, index + 1, count);
        assert((steps - 1) + (index + 1) == index + steps);
    } else {
        vstd::arithmetic::div_mod::lemma_small_mod(index as nat, count as nat);
    }
}

} // verus!
