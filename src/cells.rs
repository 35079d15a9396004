use crate::vector::Vector2;
use rustc_hash::{FxBuildHasher, FxHashMap, FxHashSet};
use vstd::prelude::*;

verus! {

// The living set and the neighbour counts are std hash containers with
// rustc_hash's `FxBuildHasher`, which builds the same deterministic
// `FxHasher` for every hash. vstd specifies std's containers only for the
// hashers it knows, so the methods used here are wrapped below, each with
// what std documents of it.

/// rustc_hash's hasher builder, carried without looking inside.
#[verifier::external_type_specification]
#[verifier::external_body]
pub struct ExFxBuildHasher(FxBuildHasher);

/// A cell coordinate as it is stored in hash containers.
pub type Key = (i32, i32);

/// Relies on `HashSet::contains` over rustc_hash's deterministic `FxBuildHasher`:
/// membership of the key.
#[verifier::external_body]
fn fx_set_contains(s: &FxHashSet<Key>, k: Key) -> (r: bool)
    ensures
        r == s@.contains(k),
{
    s.contains(&k)
}

/// Relies on `HashSet::insert` over rustc_hash's `FxBuildHasher`: the key is
/// added, and the result says whether it was absent.
#[verifier::external_body]
fn fx_set_insert(s: &mut FxHashSet<Key>, k: Key) -> (r: bool)
    ensures
        final(s)@ == old(s)@.insert(k),
        r == !old(s)@.contains(k),
{
    s.insert(k)
}

/// Relies on `HashSet::remove` over rustc_hash's `FxBuildHasher`: the key is
/// taken out, and the result says whether it was present.
#[verifier::external_body]
fn fx_set_remove(s: &mut FxHashSet<Key>, k: Key) -> (r: bool)
    ensures
        final(s)@ == old(s)@.remove(k),
        r == old(s)@.contains(k),
{
    s.remove(&k)
}

/// Relies on `HashSet::len` over rustc_hash's `FxBuildHasher`: the number of
/// distinct keys held.
#[verifier::external_body]
fn fx_set_len(s: &FxHashSet<Key>) -> (r: usize)
    ensures
        r == s@.len(),
{
    s.len()
}

/// Relies on `HashSet::iter` over rustc_hash's `FxBuildHasher`: each key is
/// visited exactly once.
#[verifier::external_body]
fn fx_set_keys(s: &FxHashSet<Key>) -> (r: Vec<Key>)
    ensures
        r@.no_duplicates(),
        r@.to_set() == s@,
{
    s.iter().copied().collect()
}

/// Relies on `HashSet::clone` over rustc_hash's `FxBuildHasher`: the copy
/// holds the same keys.
#[verifier::external_body]
fn fx_set_clone(s: &FxHashSet<Key>) -> (r: FxHashSet<Key>)
    ensures
        r@ == s@,
{
    s.clone()
}

/// Relies on `HashMap::get` over rustc_hash's `FxBuildHasher`: the value
/// stored under the key, if any.
#[verifier::external_body]
pub(crate) fn fx_map_get(m: &FxHashMap<Key, u8>, k: Key) -> (r: Option<u8>)
    ensures
        r == (if m@.contains_key(k) {
            Some(m@[k])
        } else {
            None::<u8>
        }),
{
    m.get(&k).copied()
}

/// Relies on `HashMap::insert` over rustc_hash's `FxBuildHasher`: the key is
/// now mapped to the value.
#[verifier::external_body]
pub(crate) fn fx_map_insert(m: &mut FxHashMap<Key, u8>, k: Key, v: u8)
    ensures
        final(m)@ == old(m)@.insert(k, v),
{
    m.insert(k, v);
}

/// The set of living cells: a hash set of unique coordinates, unbounded
/// within the range of `i32`.
pub struct LivingSet {
    cells: FxHashSet<Key>,
}

impl View for LivingSet {
    type V = Set<Key>;

    closed spec fn view(&self) -> Set<Key> {
        self.cells@
    }
}

/// The coordinates of a list of cells, in order.
pub open spec fn pairs(v: Seq<Vector2<i32>>) -> Seq<Key> {
    v.map_values(|c: Vector2<i32>| c@)
}

/// The coordinates of a list of cells, as a set.
pub open spec fn cells_of(v: Seq<Vector2<i32>>) -> Set<Key> {
    pairs(v).to_set()
}

/// `s` with the membership of `c` flipped.
pub open spec fn toggled(s: Set<Key>, c: Key) -> Set<Key> {
    if s.contains(c) {
        s.remove(c)
    } else {
        s.insert(c)
    }
}

/// Flipping a cell twice gives back the set it started from.
pub proof fn lemma_toggled_twice(s: Set<Key>, c: Key)
    ensures
        toggled(toggled(s, c), c) == s,
{
    if s.contains(c) {
        assert(s.remove(c).insert(c) =~= s);
    } else {
        assert(s.insert(c).remove(c) =~= s);
    }
}

impl LivingSet {
    /// An empty living set.
    pub fn new() -> (r: Self)
        ensures
            r@ == Set::<Key>::empty(),
    {
        LivingSet { cells: FxHashSet::default() }
    }

    /// Builds a living set from a list of cells; repeated cells count once.
    pub fn from_cells(cells: &Vec<Vector2<i32>>) -> (r: Self)
        ensures
            r@ == cells_of(cells@),
    {
        let mut r = LivingSet::new();
        let mut i: usize = 0;
        while i < cells.len()
            invariant
                i <= cells.len(),
                r@ == cells_of(cells@.take(i as int)),
            decreases cells.len() - i,
        {
            let c = cells[i];
            r.insert(c.pair());
            proof {
                assert(cells@.take(i + 1) == cells@.take(i as int).push(c));
                assert(pairs(cells@.take(i + 1)) =~= pairs(cells@.take(i as int)).push(c@));
                pairs(cells@.take(i as int)).lemma_push_to_set_commute(c@);
            }
            i += 1;
        }
        assert(cells@.take(cells.len() as int) == cells@);
        r
    }

    /// Whether the cell is alive.
    pub fn contains(&self, c: Key) -> (r: bool)
        ensures
            r == self@.contains(c),
    {
        fx_set_contains(&self.cells, c)
    }

    /// Makes the cell alive; says whether it was dead before.
    pub fn insert(&mut self, c: Key) -> (r: bool)
        ensures
            final(self)@ == old(self)@.insert(c),
            r == !old(self)@.contains(c),
    {
        fx_set_insert(&mut self.cells, c)
    }

    /// Flips the state of one cell.
    pub fn toggle(&mut self, c: Key)
        ensures
            final(self)@ == toggled(old(self)@, c),
    {
        if fx_set_contains(&self.cells, c) {
            fx_set_remove(&mut self.cells, c);
        } else {
            fx_set_insert(&mut self.cells, c);
        }
    }

    /// The number of living cells.
    pub fn len(&self) -> (r: usize)
        ensures
            r == self@.len(),
    {
        fx_set_len(&self.cells)
    }

    /// The living cells as coordinate pairs, each once, in no given order.
    pub fn keys(&self) -> (r: Vec<Key>)
        ensures
            r@.no_duplicates(),
            r@.to_set() == self@,
    {
        fx_set_keys(&self.cells)
    }

    /// The living cells, each once, in no given order.
    pub fn cells(&self) -> (r: Vec<Vector2<i32>>)
        ensures
            r@.len() == self@.len(),
            cells_of(r@) == self@,
    {
        let keys = self.keys();
        let mut r: Vec<Vector2<i32>> = Vec::new();
        let mut i: usize = 0;
        while i < keys.len()
            invariant
                i <= keys.len(),
                r@.len() == i,
                forall|j: int| 0 <= j < i ==> #[trigger] r@[j]@ == keys@[j],
            decreases keys.len() - i,
        {
            let k = keys[i];
            r.push(Vector2::new(k.0, k.1));
            i += 1;
        }
        assert(pairs(r@) =~= keys@);
        proof {
            keys@.unique_seq_to_set();
        }
        r
    }

    /// A copy of the set, to hand over for computation.
    pub fn duplicate(&self) -> (r: Self)
        ensures
            r@ == self@,
    {
        LivingSet { cells: fx_set_clone(&self.cells) }
    }
}

} // verus!
