use crate::cells::{fx_map_get, fx_map_insert, pairs, Key, LivingSet};
use crate::vector::{fits_i32, Vector2};
use rustc_hash::FxHashMap;
use vstd::prelude::*;

verus! {

/// Whether the position (x, y) lies on the grid (both coordinates fit an
/// `i32`) and holds a living cell of `s`.
pub open spec fn alive_at(s: Set<Key>, x: int, y: int) -> bool {
    fits_i32(x) && fits_i32(y) && s.contains((x as i32, y as i32))
}

/// One for true, zero for false.
pub open spec fn count_if(b: bool) -> int {
    if b {
        1
    } else {
        0
    }
}

/// The number of living cells of `s` among the eight neighbours of `c`.
pub open spec fn live_neighbours(s: Set<Key>, c: Key) -> int {
    let x = c.0 as int;
    let y = c.1 as int;
    count_if(alive_at(s, x - 1, y - 1)) + count_if(alive_at(s, x - 1, y)) + count_if(
        alive_at(s, x - 1, y + 1),
    ) + count_if(alive_at(s, x, y - 1)) + count_if(alive_at(s, x, y + 1)) + count_if(
        alive_at(s, x + 1, y - 1),
    ) + count_if(alive_at(s, x + 1, y)) + count_if(alive_at(s, x + 1, y + 1))
}

/// Whether two distinct cells touch by a side or a corner.
pub open spec fn adjacent(a: Key, b: Key) -> bool {
    a != b && -1 <= a.0 - b.0 <= 1 && -1 <= a.1 - b.1 <= 1
}

/// The rule of the game: a cell is alive in the next generation iff it has
/// exactly three living neighbours, or exactly two and is alive now.
pub open spec fn alive_next(s: Set<Key>, c: Key) -> bool {
    live_neighbours(s, c) == 3 || (live_neighbours(s, c) == 2 && s.contains(c))
}

/// The generation that follows `s`.
pub open spec fn next_generation(s: Set<Key>) -> Set<Key> {
    Set::new(|c: Key| alive_next(s, c))
}

/// Whether some cell of `t` is adjacent to `c`.
pub open spec fn touches(t: Set<Key>, c: Key) -> bool {
    exists|p: Key| t.contains(p) && #[trigger] adjacent(p, c)
}

/// The offset from a cell to its neighbour number `k`, for `k` in `0..8`.
pub open spec fn offset(k: int) -> (int, int) {
    if k == 0 {
        (-1, -1)
    } else if k == 1 {
        (-1, 1)
    } else if k == 2 {
        (-1, 0)
    } else if k == 3 {
        (0, -1)
    } else if k == 4 {
        (0, 1)
    } else if k == 5 {
        (1, 0)
    } else if k == 6 {
        (1, -1)
    } else {
        (1, 1)
    }
}

/// Neighbour number `k` of `c`, as an integer position.
pub open spec fn neighbour_at(c: Key, k: int) -> (int, int) {
    (c.0 + offset(k).0, c.1 + offset(k).1)
}

proof fn lemma_adjacent_is_offset(c: Key, p: Key)
    ensures
        adjacent(c, p) <==> exists|k: int|
            0 <= k < 8 && #[trigger] neighbour_at(c, k) == (p.0 as int, p.1 as int),
{
    if adjacent(c, p) {
        let dx = p.0 - c.0;
        let dy = p.1 - c.1;
        let k: int = if dx == -1 && dy == -1 {
            0
        } else if dx == -1 && dy == 1 {
            1
        } else if dx == -1 {
            2
        } else if dx == 0 && dy == -1 {
            3
        } else if dx == 0 {
            4
        } else if dy == 0 {
            5
        } else if dy == -1 {
            6
        } else {
            7
        };
        assert(neighbour_at(c, k) == (p.0 as int, p.1 as int));
    }
    if exists|k: int| 0 <= k < 8 && #[trigger] neighbour_at(c, k) == (p.0 as int, p.1 as int) {
        let k = choose|k: int|
            0 <= k < 8 && #[trigger] neighbour_at(c, k) == (p.0 as int, p.1 as int);
        assert(adjacent(c, p));
    }
}

/// The in-range neighbours of a cell: every cell adjacent to it whose
/// coordinates fit an `i32`, each once.
pub fn get_adjacent(coords: Vector2<i32>) -> (r: Vec<Vector2<i32>>)
    ensures
        pairs(r@).no_duplicates(),
        forall|p: Key|
            pairs(r@).contains(p) <==> adjacent(coords@, p),
{
    let ghost c = coords@;
    let x = coords.x as i64;
    let y = coords.y as i64;
    let mut r: Vec<Vector2<i32>> = Vec::new();
    let ghost mut idx: Seq<int> = Seq::empty();
    let mut k: usize = 0;
    while k < 8
        invariant
            k <= 8,
            x == c.0,
            y == c.1,
            idx.len() == r@.len(),
            forall|i: int|
                0 <= i < r@.len() ==> 0 <= #[trigger] idx[i] < k && neighbour_at(c, idx[i]) == (
                    r@[i].x as int,
                    r@[i].y as int,
                ),
            forall|i: int, j: int| 0 <= i < j < r@.len() ==> idx[i] < idx[j],
            forall|j: int|
                0 <= j < k && fits_i32(#[trigger] neighbour_at(c, j).0) && fits_i32(
                    neighbour_at(c, j).1,
                ) ==> exists|i: int| 0 <= i < r@.len() && idx[i] == j,
        decreases 8 - k,
    {
        let (dx, dy): (i64, i64) = if k == 0 {
            (-1, -1)
        } else if k == 1 {
            (-1, 1)
        } else if k == 2 {
            (-1, 0)
        } else if k == 3 {
            (0, -1)
        } else if k == 4 {
            (0, 1)
        } else if k == 5 {
            (1, 0)
        } else if k == 6 {
            (1, -1)
        } else {
            (1, 1)
        };
        assert((dx as int, dy as int) == offset(k as int));
        let nx = x + dx;
        let ny = y + dy;
        let ghost idx0 = idx;
        let ghost len0 = r@.len();
        if i32::MIN as i64 <= nx && nx <= i32::MAX as i64 && i32::MIN as i64 <= ny && ny
            <= i32::MAX as i64 {
            proof {
                idx = idx.push(k as int);
            }
            r.push(Vector2::new(nx as i32, ny as i32));
        }
        assert forall|j: int|
            0 <= j <= k && fits_i32(#[trigger] neighbour_at(c, j).0) && fits_i32(
                neighbour_at(c, j).1,
            ) implies exists|i: int| 0 <= i < r@.len() && idx[i] == j by {
            if j < k {
                let i = choose|i: int| 0 <= i < len0 && idx0[i] == j;
                assert(idx[i] == j);
            } else {
                assert(idx[len0 as int] == j);
            }
        }
        k += 1;
    }
    let ghost rv = pairs(r@);
    assert forall|i: int, j: int| 0 <= i < rv.len() && 0 <= j < rv.len() && i != j implies rv[i]
        != rv[j] by {
        if i < j {
            assert(idx[i] < idx[j]);
        } else {
            assert(idx[j] < idx[i]);
        }
    }
    assert forall|p: Key| rv.contains(p) <==> adjacent(c, p) by {
        lemma_adjacent_is_offset(c, p);
        if rv.contains(p) {
            let i = choose|i: int| 0 <= i < rv.len() && rv[i] == p;
            assert(neighbour_at(c, idx[i]) == (p.0 as int, p.1 as int));
        }
        if adjacent(c, p) {
            let j = choose|j: int|
                0 <= j < 8 && #[trigger] neighbour_at(c, j) == (p.0 as int, p.1 as int);
            let i = choose|i: int| 0 <= i < r@.len() && idx[i] == j;
            assert(rv[i] == p);
        }
    }
    r
}

proof fn lemma_alive_at_insert(t: Set<Key>, e: Key, x: int, y: int)
    requires
        !t.contains(e),
    ensures
        count_if(alive_at(t.insert(e), x, y)) == count_if(alive_at(t, x, y)) + count_if(
            (x, y) == (e.0 as int, e.1 as int),
        ),
{
    if fits_i32(x) && fits_i32(y) {
        assert((x as i32) as int == x);
        assert((y as i32) as int == y);
    }
}

proof fn lemma_live_neighbours_insert(t: Set<Key>, e: Key, c: Key)
    requires
        !t.contains(e),
    ensures
        live_neighbours(t.insert(e), c) == live_neighbours(t, c) + count_if(adjacent(e, c)),
{
    let x = c.0 as int;
    let y = c.1 as int;
    lemma_alive_at_insert(t, e, x - 1, y - 1);
    lemma_alive_at_insert(t, e, x - 1, y);
    lemma_alive_at_insert(t, e, x - 1, y + 1);
    lemma_alive_at_insert(t, e, x, y - 1);
    lemma_alive_at_insert(t, e, x, y + 1);
    lemma_alive_at_insert(t, e, x + 1, y - 1);
    lemma_alive_at_insert(t, e, x + 1, y);
    lemma_alive_at_insert(t, e, x + 1, y + 1);
}

proof fn lemma_live_neighbours_touch(s: Set<Key>, c: Key)
    ensures
        0 <= live_neighbours(s, c) <= 8,
        live_neighbours(s, c) > 0 ==> touches(s, c),
{
    let x = c.0 as int;
    let y = c.1 as int;
    if live_neighbours(s, c) > 0 {
        let (px, py) = if alive_at(s, x - 1, y - 1) {
            (x - 1, y - 1)
        } else if alive_at(s, x - 1, y) {
            (x - 1, y)
        } else if alive_at(s, x - 1, y + 1) {
            (x - 1, y + 1)
        } else if alive_at(s, x, y - 1) {
            (x, y - 1)
        } else if alive_at(s, x, y + 1) {
            (x, y + 1)
        } else if alive_at(s, x + 1, y - 1) {
            (x + 1, y - 1)
        } else if alive_at(s, x + 1, y) {
            (x + 1, y)
        } else {
            (x + 1, y + 1)
        };
        assert(alive_at(s, px, py));
        let p = (px as i32, py as i32);
        assert(p.0 as int == px && p.1 as int == py);
        assert(s.contains(p) && adjacent(p, c));
    }
}

proof fn lemma_take_one_more(s: Seq<Key>, j: int)
    requires
        0 <= j < s.len(),
    ensures
        forall|d: Key| #[trigger]
            s.take(j + 1).contains(d) <==> (s.take(j).contains(d) || d == s[j]),
{
    assert forall|d: Key| #[trigger]
        s.take(j + 1).contains(d) <==> (s.take(j).contains(d) || d == s[j]) by {
        if s.take(j + 1).contains(d) {
            let t = s.take(j + 1);
            let k = choose|k: int| 0 <= k < j + 1 && t[k] == d;
            if k < j {
                assert(s.take(j)[k] == d);
            }
        }
        if s.take(j).contains(d) {
            let t = s.take(j);
            let k = choose|k: int| 0 <= k < j && t[k] == d;
            assert(s.take(j + 1)[k] == d);
        }
        if d == s[j] {
            assert(s.take(j + 1)[j] == d);
        }
    }
}

/// The survival rule applied to a counted cell.
pub fn alive_rules(count: u8, prev: &LivingSet, coords: Key) -> (r: bool)
    ensures
        r == (count == 3 || (count == 2 && prev@.contains(coords))),
{
    3 == count || (2 == count && prev.contains(coords))
}

/// Computes the next generation of a living set.
///
/// A first pass visits the neighbours of every living cell and counts, in a
/// map from cell to number of living neighbours, how often each is visited.
/// A second pass looks every visited cell up in that map and keeps it where
/// the rule holds. Cells that no living cell touches have no living
/// neighbour and cannot be alive next, so they are never looked at. The grid is the range of `i32` in
/// both directions: positions outside it are never alive.
pub fn compute_step(prev: &LivingSet) -> (r: LivingSet)
    ensures
        r@ == next_generation(prev@),
{
    let living = prev.keys();
    let mut counts: FxHashMap<Key, u8> = FxHashMap::default();
    let ghost mut seen: Set<Key> = Set::empty();
    let mut i: usize = 0;
    while i < living.len()
        invariant
            i <= living.len(),
            living@.no_duplicates(),
            living@.to_set() == prev@,
            seen == living@.take(i as int).to_set(),
            forall|c: Key| #[trigger] counts@.contains_key(c) <==> live_neighbours(seen, c) > 0,
            forall|c: Key| #[trigger] counts@.contains_key(c) ==> counts@[c] == live_neighbours(seen, c),
        decreases living.len() - i,
    {
        let e = living[i];
        let centre = Vector2::new(e.0, e.1);
        assert(centre@ == e);
        let nb = get_adjacent(centre);
        let ghost nbk = pairs(nb@);
        let mut j: usize = 0;
        while j < nb.len()
            invariant
                j <= nb.len(),
                nbk == pairs(nb@),
                nbk.no_duplicates(),
                forall|c: Key|
                    #[trigger] counts@.contains_key(c) <==> (live_neighbours(seen, c) > 0 || nbk.take(
                        j as int,
                    ).contains(c)),
                forall|c: Key|
                    #[trigger] counts@.contains_key(c) ==> counts@[c] == live_neighbours(seen, c)
                        + count_if(nbk.take(j as int).contains(c)),
            decreases nb.len() - j,
        {
            let c = nb[j].pair();
            assert(nbk[j as int] == c);
            assert(!nbk.take(j as int).contains(c));
            proof {
                lemma_live_neighbours_touch(seen, c);
            }
            match fx_map_get(&counts, c) {
                Some(n) => fx_map_insert(&mut counts, c, n + 1),
                None => fx_map_insert(&mut counts, c, 1),
            }
            proof {
                lemma_take_one_more(nbk, j as int);
            }
            j += 1;
        }
        proof {
            assert(nbk.take(nb.len() as int) == nbk);
            assert forall|c: Key| live_neighbours(seen.insert(e), c) == live_neighbours(seen, c) + count_if(nbk.contains(c)) by {
                lemma_live_neighbours_insert(seen, e, c);
            }
            assert(living@.take(i + 1) == living@.take(i as int).push(e));
            living@.take(i as int).lemma_push_to_set_commute(e);
            seen = seen.insert(e);
        }
        i += 1;
    }
    assert(living@.take(living.len() as int) == living@);
    let mut next = LivingSet::new();
    let ghost mut visited: Set<Key> = Set::empty();
    i = 0;
    while i < living.len()
        invariant
            i <= living.len(),
            living@.no_duplicates(),
            living@.to_set() == prev@,
            visited == living@.take(i as int).to_set(),
            forall|c: Key| #[trigger] counts@.contains_key(c) <==> live_neighbours(prev@, c) > 0,
            forall|c: Key| #[trigger] counts@.contains_key(c) ==> counts@[c] == live_neighbours(prev@, c),
            forall|c: Key| #[trigger] next@.contains(c) <==> (alive_next(prev@, c) && touches(visited, c)),
        decreases living.len() - i,
    {
        let e = living[i];
        let centre = Vector2::new(e.0, e.1);
        assert(centre@ == e);
        let nb = get_adjacent(centre);
        let ghost nbk = pairs(nb@);
        let mut j: usize = 0;
        while j < nb.len()
            invariant
                j <= nb.len(),
                nbk == pairs(nb@),
                forall|c: Key| #[trigger] counts@.contains_key(c) <==> live_neighbours(prev@, c) > 0,
                forall|c: Key| #[trigger] counts@.contains_key(c) ==> counts@[c] == live_neighbours(prev@, c),
                forall|c: Key|
                    #[trigger] next@.contains(c) <==> (alive_next(prev@, c) && (touches(visited, c)
                        || nbk.take(j as int).contains(c))),
            decreases nb.len() - j,
        {
            let c = nb[j].pair();
            assert(nbk[j as int] == c);
            let n: u8 = match fx_map_get(&counts, c) {
                Some(n) => n,
                None => 0,
            };
            if alive_rules(n, prev, c) {
                next.insert(c);
            }
            proof {
                lemma_take_one_more(nbk, j as int);
            }
            j += 1;
        }
        proof {
            assert(nbk.take(nb.len() as int) == nbk);
            assert forall|c: Key| touches(visited.insert(e), c) <==> (touches(visited, c) || nbk.contains(c)) by {
                if touches(visited.insert(e), c) {
                    let p = choose|p: Key| visited.insert(e).contains(p) && #[trigger] adjacent(p, c);
                    if p != e {
                        assert(visited.contains(p) && adjacent(p, c));
                    }
                }
                if nbk.contains(c) {
                    assert(visited.insert(e).contains(e) && adjacent(e, c));
                }
                if touches(visited, c) {
                    let p = choose|p: Key| visited.contains(p) && #[trigger] adjacent(p, c);
                    assert(visited.insert(e).contains(p));
                }
            }
            assert(living@.take(i + 1) == living@.take(i as int).push(e));
            living@.take(i as int).lemma_push_to_set_commute(e);
            visited = visited.insert(e);
        }
        i += 1;
    }
    assert(living@.take(living.len() as int) == living@);
    assert forall|c: Key| next@.contains(c) <==> alive_next(prev@, c) by {
        lemma_live_neighbours_touch(prev@, c);
    }
    assert(next@ =~= next_generation(prev@));
    next
}

} // verus!
