//! The coins picked for mining. Up to `max_selectable` coins are mined at
//! once; each picked coin occupies a numbered place on screen, and picking a
//! coin when every place is taken drops the oldest pick.
use vstd::prelude::*;
use vstd::set_lib::{lemma_int_range, lemma_len_subset, set_int_range};

verus! {

/// The single pick of older saves.
#[derive(Clone, Debug)]
pub struct Selection {
    pub index: Option<usize>,
    pub name: Option<String>,
}

/// A picked coin: its name, its market index, and the place it occupies.
#[derive(Debug)]
pub struct SelectionMulti {
    pub name: String,
    pub index: usize,
    pub selection_index: usize,
}

/// A picked coin as the contracts speak of it.
pub struct SelectionView {
    pub name: Seq<char>,
    pub index: usize,
    pub selection_index: usize,
}

impl View for SelectionMulti {
    type V = SelectionView;

    open spec fn view(&self) -> SelectionView {
        SelectionView { name: self.name@, index: self.index, selection_index: self.selection_index }
    }
}

impl Clone for SelectionMulti {
    fn clone(&self) -> (c: Self)
        ensures
            c@ == self@,
    {
        SelectionMulti {
            name: self.name.clone(),
            index: self.index,
            selection_index: self.selection_index,
        }
    }
}

/// The picked coins and how many may be picked at once.
#[derive(Clone, Debug)]
pub struct SelectionMultiList {
    pub selections: Vec<SelectionMulti>,
    pub max_selectable: u8,
}

/// The picks of a list, as views.
pub open spec fn picks(v: Seq<SelectionMulti>) -> Seq<SelectionView> {
    v.map_values(|s: SelectionMulti| s@)
}

/// Whether some pick is of the coin at market index `index`.
pub open spec fn has_coin(p: Seq<SelectionView>, index: usize) -> bool {
    exists|i: int| 0 <= i < p.len() && (#[trigger] p[i]).index == index
}

/// Whether some pick occupies place `place`.
pub open spec fn place_taken(p: Seq<SelectionView>, place: int) -> bool {
    exists|i: int| 0 <= i < p.len() && (#[trigger] p[i]).selection_index == place
}

/// The position of the first pick of the coin at `index`, from position `i` on.
pub open spec fn first_pick_of(p: Seq<SelectionView>, index: usize, i: int) -> Option<int>
    decreases p.len() - i,
{
    if i < 0 || i >= p.len() {
        None
    } else if p[i].index == index {
        Some(i)
    } else {
        first_pick_of(p, index, i + 1)
    }
}

/// The lowest free place from `i` up to `max`, or place 0 when all are taken.
pub open spec fn free_place(p: Seq<SelectionView>, max: int, i: int) -> int
    decreases max - i,
{
    if i < 0 || i >= max {
        0
    } else if !place_taken(p, i) {
        i
    } else {
        free_place(p, max, i + 1)
    }
}

/// The picks with the first pick of the coin at `index` dropped.
pub open spec fn spec_unpicked(p: Seq<SelectionView>, index: usize) -> Seq<SelectionView> {
    match first_pick_of(p, index, 0) {
        Some(i) => p.remove(i),
        None => p,
    }
}

/// Whether the list counts as full: the count, kept in eight bits, is at
/// least the limit.
pub open spec fn spec_is_full(p: Seq<SelectionView>, max: u8) -> bool {
    (p.len() as u8) >= max
}

/// The picks after picking the coin `index` named `name`: with `do_toggle`,
/// an already-picked coin is unpicked instead; otherwise, when the list is
/// full the oldest pick is dropped, and the new pick takes the lowest free
/// place and is stored at that position.
pub open spec fn spec_picked(
    p: Seq<SelectionView>,
    max: u8,
    index: usize,
    name: Seq<char>,
    do_toggle: bool,
) -> Seq<SelectionView> {
    if has_coin(p, index) && do_toggle {
        spec_unpicked(p, index)
    } else {
        let base = if spec_is_full(p, max) { p.remove(0) } else { p };
        let place = free_place(base, max as int, 0);
        base.insert(place, SelectionView { name, index, selection_index: place as usize })
    }
}

/// A list is well formed when its limit is at least one and its picks
/// occupy places below the limit in strictly increasing order.
pub open spec fn picks_wf(p: Seq<SelectionView>, max: u8) -> bool {
    &&& max >= 1
    &&& forall|i: int| 0 <= i < p.len() ==> (#[trigger] p[i]).selection_index < max
    &&& forall|i: int, j: int|
        0 <= i < j < p.len() ==> (#[trigger] p[i]).selection_index < (#[trigger] p[j]).selection_index
}

/// The places of the picks hold no repeats and lie below `max`, which is at
/// least one: what picking needs to find a free place and store the pick.
pub open spec fn places_distinct(p: Seq<SelectionView>, max: u8) -> bool {
    &&& max >= 1
    &&& forall|i: int| 0 <= i < p.len() ==> (#[trigger] p[i]).selection_index < max
    &&& forall|i: int, j: int|
        0 <= i < p.len() && 0 <= j < p.len() && i != j ==> (#[trigger] p[i]).selection_index
            != (#[trigger] p[j]).selection_index
}

/// The places the picks occupy.
pub open spec fn place_seq(p: Seq<SelectionView>) -> Seq<int> {
    p.map_values(|v: SelectionView| v.selection_index as int)
}

/// A well-formed list has distinct places.
pub proof fn lemma_wf_distinct(p: Seq<SelectionView>, max: u8)
    requires
        picks_wf(p, max),
    ensures
        places_distinct(p, max),
{
    assert forall|i: int, j: int|
        0 <= i < p.len() && 0 <= j < p.len() && i != j implies (#[trigger] p[i]).selection_index
        != (#[trigger] p[j]).selection_index by {
        if i < j {
            assert(p[i].selection_index < p[j].selection_index);
        } else {
            assert(p[j].selection_index < p[i].selection_index);
        }
    }
}

/// When every place below `m` is taken, there are at least `m` picks.
proof fn lemma_taken_bound(p: Seq<SelectionView>, m: int)
    requires
        0 <= m,
        forall|k: int| 0 <= k < m ==> place_taken(p, k),
    ensures
        m <= p.len(),
{
    broadcast use vstd::seq_lib::seq_to_set_is_finite;
    let s = place_seq(p);
    let t = s.to_set();
    lemma_int_range(0, m);
    s.lemma_cardinality_of_set();
    assert forall|k: int| set_int_range(0, m).contains(k) implies t.contains(k) by {
        assert(place_taken(p, k));
        let i = choose|i: int| 0 <= i < p.len() && (#[trigger] p[i]).selection_index == k;
        assert(s[i] == k);
        assert(s.contains(k));
    }
    lemma_len_subset(set_int_range(0, m), t);
}

/// A list with distinct places below `max` holds at most `max` picks.
pub proof fn lemma_distinct_len(p: Seq<SelectionView>, max: u8)
    requires
        places_distinct(p, max),
    ensures
        p.len() <= max,
{
    broadcast use vstd::seq_lib::seq_to_set_is_finite;
    let s = place_seq(p);
    assert forall|i: int, j: int| 0 <= i < s.len() && 0 <= j < s.len() && i != j implies s[i]
        != s[j] by {
        assert(p[i].selection_index != p[j].selection_index);
    }
    assert(s.no_duplicates());
    s.unique_seq_to_set();
    lemma_int_range(0, max as int);
    assert forall|k: int| s.to_set().contains(k) implies set_int_range(0, max as int).contains(
        k,
    ) by {
        let i = choose|i: int| 0 <= i < s.len() && s[i] == k;
        assert(p[i].selection_index < max);
    }
    lemma_len_subset(s.to_set(), set_int_range(0, max as int));
}

/// Dropping a pick keeps places distinct.
proof fn lemma_remove_distinct(p: Seq<SelectionView>, max: u8, i: int)
    requires
        places_distinct(p, max),
        0 <= i < p.len(),
    ensures
        places_distinct(p.remove(i), max),
{
    let q = p.remove(i);
    assert forall|a: int| 0 <= a < q.len() implies (#[trigger] q[a]).selection_index < max by {
        let a2 = if a < i { a } else { a + 1 };
        assert(q[a] == p[a2]);
    }
    assert forall|a: int, b: int|
        0 <= a < q.len() && 0 <= b < q.len() && a != b implies (#[trigger] q[a]).selection_index
        != (#[trigger] q[b]).selection_index by {
        let a2 = if a < i { a } else { a + 1 };
        let b2 = if b < i { b } else { b + 1 };
        assert(q[a] == p[a2]);
        assert(q[b] == p[b2]);
    }
}

/// In a list with distinct places and room left, the lowest free place is
/// a free place no further than the number of picks.
proof fn lemma_free_place_fits(p: Seq<SelectionView>, max: u8)
    requires
        places_distinct(p, max),
        p.len() < max,
    ensures
        0 <= free_place(p, max as int, 0) <= p.len(),
        free_place(p, max as int, 0) < max,
        !place_taken(p, free_place(p, max as int, 0)),
{
    lemma_free_place(p, max as int, 0);
    if forall|k: int| 0 <= k < max ==> place_taken(p, k) {
        lemma_taken_bound(p, max as int);
        assert(false);
    }
    lemma_taken_bound(p, free_place(p, max as int, 0));
}

/// A new pick stored at a free place below `max`, at a position no further
/// than the number of picks, keeps places distinct.
proof fn lemma_insert_distinct(p: Seq<SelectionView>, max: u8, r: int, x: SelectionView)
    requires
        places_distinct(p, max),
        0 <= r <= p.len(),
        x.selection_index < max,
        !place_taken(p, x.selection_index as int),
    ensures
        places_distinct(p.insert(r, x), max),
{
    let q = p.insert(r, x);
    assert forall|a: int| 0 <= a < q.len() implies (#[trigger] q[a]).selection_index < max by {
        if a < r {
            assert(q[a] == p[a]);
        } else if a > r {
            assert(q[a] == p[a - 1]);
        }
    }
    assert forall|a: int, b: int|
        0 <= a < q.len() && 0 <= b < q.len() && a != b implies (#[trigger] q[a]).selection_index
        != (#[trigger] q[b]).selection_index by {
        let a2 = if a < r { a } else { a - 1 };
        let b2 = if b < r { b } else { b - 1 };
        if a == r {
            assert(q[b] == p[b2]);
            if p[b2].selection_index == x.selection_index {
                assert(place_taken(p, x.selection_index as int));
            }
        } else if b == r {
            assert(q[a] == p[a2]);
            if p[a2].selection_index == x.selection_index {
                assert(place_taken(p, x.selection_index as int));
            }
        } else {
            assert(q[a] == p[a2]);
            assert(q[b] == p[b2]);
        }
    }
}

/// Law: every change a pick makes keeps the places distinct and below the
/// limit, so no two picks ever share a place.
pub proof fn lemma_picked_distinct(
    p: Seq<SelectionView>,
    max: u8,
    index: usize,
    name: Seq<char>,
    do_toggle: bool,
)
    requires
        places_distinct(p, max),
    ensures
        places_distinct(spec_picked(p, max, index, name, do_toggle), max),
{
    lemma_distinct_len(p, max);
    if has_coin(p, index) && do_toggle {
        lemma_first_pick_of(p, index, 0);
        if let Some(i) = first_pick_of(p, index, 0) {
            lemma_remove_distinct(p, max, i);
        }
    } else {
        let base = if spec_is_full(p, max) { p.remove(0) } else { p };
        if spec_is_full(p, max) {
            lemma_remove_distinct(p, max, 0);
        }
        lemma_free_place_fits(base, max);
        let r = free_place(base, max as int, 0);
        let x = SelectionView { name, index, selection_index: r as usize };
        lemma_insert_distinct(base, max, r, x);
    }
}

/// In a well-formed list the pick at position `i` occupies a place of at least `i`.
proof fn lemma_place_at_least_position(p: Seq<SelectionView>, max: u8, i: int)
    requires
        picks_wf(p, max),
        0 <= i < p.len(),
    ensures
        p[i].selection_index >= i,
    decreases i,
{
    if i > 0 {
        lemma_place_at_least_position(p, max, i - 1);
        assert(p[i - 1].selection_index < p[i].selection_index);
    }
}

/// A well-formed list holds at most `max` picks.
pub proof fn lemma_wf_len(p: Seq<SelectionView>, max: u8)
    requires
        picks_wf(p, max),
    ensures
        p.len() <= max,
{
    if p.len() > 0 {
        lemma_place_at_least_position(p, max, p.len() - 1);
    }
}

/// When the places below `m` are all taken in a well-formed list, they are
/// taken by its first `m` picks, in order.
proof fn lemma_taken_prefix(p: Seq<SelectionView>, max: u8, m: int)
    requires
        picks_wf(p, max),
        0 <= m,
        forall|k: int| 0 <= k < m ==> place_taken(p, k),
    ensures
        m <= p.len(),
        forall|k: int| 0 <= k < m ==> (#[trigger] p[k]).selection_index == k,
    decreases m,
{
    if m > 0 {
        lemma_taken_prefix(p, max, m - 1);
        assert(place_taken(p, m - 1));
        let j = choose|j: int| 0 <= j < p.len() && (#[trigger] p[j]).selection_index == m - 1;
        if j < m - 1 {
            assert(p[j].selection_index == j);
        }
        lemma_place_at_least_position(p, max, m - 1);
        if j > m - 1 {
            assert(p[m - 1].selection_index < p[j].selection_index);
        }
    }
}

/// The lowest free place: either every place from `i` below `max` is
/// taken (and the answer is 0), or it is the first free one from `i` on.
proof fn lemma_free_place(p: Seq<SelectionView>, max: int, i: int)
    requires
        0 <= i <= max,
    ensures
        (forall|k: int| i <= k < max ==> place_taken(p, k)) && free_place(p, max, i) == 0
            || (i <= free_place(p, max, i) < max && !place_taken(p, free_place(p, max, i))
            && forall|k: int| i <= k < free_place(p, max, i) ==> place_taken(p, k)),
    decreases max - i,
{
    if i < max && place_taken(p, i) {
        lemma_free_place(p, max, i + 1);
    }
}

/// Dropping a pick keeps a list well formed.
proof fn lemma_remove_wf(p: Seq<SelectionView>, max: u8, i: int)
    requires
        picks_wf(p, max),
        0 <= i < p.len(),
    ensures
        picks_wf(p.remove(i), max),
{
    let q = p.remove(i);
    assert forall|a: int, b: int| 0 <= a < b < q.len() implies (#[trigger] q[a]).selection_index
        < (#[trigger] q[b]).selection_index by {
        let a2 = if a < i { a } else { a + 1 };
        let b2 = if b < i { b } else { b + 1 };
        assert(q[a] == p[a2]);
        assert(q[b] == p[b2]);
        assert(p[a2].selection_index < p[b2].selection_index);
    }
    assert forall|a: int| 0 <= a < q.len() implies (#[trigger] q[a]).selection_index < max by {
        let a2 = if a < i { a } else { a + 1 };
        assert(q[a] == p[a2]);
    }
}

/// A new pick stored at the lowest free place keeps a list with room well formed.
proof fn lemma_insert_wf(p: Seq<SelectionView>, max: u8, x: SelectionView)
    requires
        picks_wf(p, max),
        p.len() < max,
        x.selection_index == free_place(p, max as int, 0),
    ensures
        0 <= free_place(p, max as int, 0) <= p.len(),
        picks_wf(p.insert(free_place(p, max as int, 0), x), max),
{
    let r = free_place(p, max as int, 0);
    lemma_free_place(p, max as int, 0);
    if forall|k: int| 0 <= k < max ==> place_taken(p, k) {
        lemma_taken_prefix(p, max, max as int);
        assert(false);
    }
    lemma_taken_prefix(p, max, r);
    if r < p.len() {
        lemma_place_at_least_position(p, max, r);
        if p[r].selection_index == r {
            assert(place_taken(p, r));
        }
    }
    let q = p.insert(r, x);
    assert forall|a: int| 0 <= a < q.len() implies (#[trigger] q[a]).selection_index < max by {
        if a < r {
            assert(q[a] == p[a]);
        } else if a > r {
            assert(q[a] == p[a - 1]);
        }
    }
    assert forall|a: int, b: int| 0 <= a < b < q.len() implies (#[trigger] q[a]).selection_index
        < (#[trigger] q[b]).selection_index by {
        if b < r {
            assert(q[a] == p[a] && q[b] == p[b]);
        } else if b == r {
            assert(q[a] == p[a]);
        } else if a < r {
            assert(q[a] == p[a] && q[b] == p[b - 1]);
            assert(p[a].selection_index == a);
            assert(p[r].selection_index > r);
            if b - 1 > r {
                assert(p[r].selection_index < p[b - 1].selection_index);
            }
        } else if a == r {
            assert(q[b] == p[b - 1]);
            if b - 1 > r {
                assert(p[r].selection_index < p[b - 1].selection_index);
            }
        } else {
            assert(q[a] == p[a - 1] && q[b] == p[b - 1]);
        }
    }
}

/// Law: every change a pick makes keeps a well-formed list well formed.
pub proof fn lemma_picked_wf(
    p: Seq<SelectionView>,
    max: u8,
    index: usize,
    name: Seq<char>,
    do_toggle: bool,
)
    requires
        picks_wf(p, max),
    ensures
        picks_wf(spec_picked(p, max, index, name, do_toggle), max),
{
    lemma_wf_len(p, max);
    if has_coin(p, index) && do_toggle {
        lemma_unpicked_wf(p, max, index);
    } else {
        let base = if spec_is_full(p, max) { p.remove(0) } else { p };
        if spec_is_full(p, max) {
            lemma_remove_wf(p, max, 0);
        }
        let x = SelectionView {
            name,
            index,
            selection_index: free_place(base, max as int, 0) as usize,
        };
        lemma_free_place(base, max as int, 0);
        lemma_insert_wf(base, max, x);
    }
}

proof fn lemma_first_pick_of(p: Seq<SelectionView>, index: usize, i: int)
    requires
        0 <= i,
    ensures
        first_pick_of(p, index, i) matches Some(j) ==> i <= j < p.len() && p[j].index == index,
        first_pick_of(p, index, i) is None ==> forall|k: int|
            i <= k < p.len() ==> (#[trigger] p[k]).index != index,
    decreases p.len() - i,
{
    if i < p.len() && p[i].index != index {
        lemma_first_pick_of(p, index, i + 1);
    }
}

/// Law: unpicking a coin keeps a well-formed list well formed.
pub proof fn lemma_unpicked_wf(p: Seq<SelectionView>, max: u8, index: usize)
    requires
        picks_wf(p, max),
    ensures
        picks_wf(spec_unpicked(p, index), max),
{
    lemma_first_pick_of(p, index, 0);
    if let Some(i) = first_pick_of(p, index, 0) {
        lemma_remove_wf(p, max, i);
    }
}

impl SelectionMultiList {
    /// The picks, as views.
    pub open spec fn spec_picks(&self) -> Seq<SelectionView> {
        picks(self.selections@)
    }

    /// Well formed: see `picks_wf`.
    pub open spec fn wf(&self) -> bool {
        picks_wf(self.spec_picks(), self.max_selectable)
    }

    /// No picks; one coin may be picked at a time.
    pub fn new() -> (l: Self)
        ensures
            l.spec_picks() == Seq::<SelectionView>::empty(),
            l.max_selectable == 1,
            l.wf(),
    {
        let l = SelectionMultiList { selections: Vec::new(), max_selectable: 1 };
        assert(l.spec_picks() =~= Seq::<SelectionView>::empty());
        l
    }

    /// Whether the picks occupy distinct places below the limit, as a list
    /// read back from storage must before a coin is picked into it.
    pub fn has_distinct_places(&self) -> (b: bool)
        ensures
            b == places_distinct(self.spec_picks(), self.max_selectable),
    {
        let ghost p = self.spec_picks();
        if self.max_selectable < 1 {
            return false;
        }
        let max = self.max_selectable as usize;
        let n = self.selections.len();
        let mut i: usize = 0;
        while i < n
            invariant
                0 <= i <= n,
                n == self.selections@.len(),
                p == self.spec_picks(),
                p.len() == n,
                max == self.max_selectable as usize,
                self.max_selectable >= 1,
                forall|k: int| 0 <= k < i ==> (#[trigger] p[k]).selection_index < max,
                forall|k: int, l: int|
                    0 <= k < i && 0 <= l < n && k != l ==> (#[trigger] p[k]).selection_index
                        != (#[trigger] p[l]).selection_index,
            decreases n - i,
        {
            let s = self.selections[i].selection_index;
            assert(p[i as int].selection_index == s);
            if s >= max {
                return false;
            }
            let mut j: usize = 0;
            while j < n
                invariant
                    0 <= i < n,
                    0 <= j <= n,
                    n == self.selections@.len(),
                    p == self.spec_picks(),
                    p.len() == n,
                    s == p[i as int].selection_index,
                    forall|l: int| 0 <= l < j && l != i ==> (#[trigger] p[l]).selection_index != s,
                decreases n - j,
            {
                if j != i && self.selections[j].selection_index == s {
                    assert(p[j as int].selection_index == s);
                    return false;
                }
                j = j + 1;
            }
            assert forall|k: int, l: int|
                0 <= k < i + 1 && 0 <= l < n && k != l implies (#[trigger] p[k]).selection_index
                != (#[trigger] p[l]).selection_index by {
                if k == i {
                    assert(p[l].selection_index != s);
                }
            }
            i = i + 1;
        }
        true
    }

    fn insert(&mut self, selection: SelectionMulti)
        requires
            selection.selection_index <= old(self).selections@.len(),
        ensures
            final(self).spec_picks() == old(self).spec_picks().insert(
                selection.selection_index as int,
                selection@,
            ),
            final(self).max_selectable == old(self).max_selectable,
    {
        let ghost x = selection@;
        let place = selection.selection_index;
        self.selections.insert(place, selection);
        assert(self.spec_picks() =~= old(self).spec_picks().insert(place as int, x));
    }

    fn remove(&mut self, index: usize)
        requires
            index < old(self).selections@.len(),
        ensures
            final(self).spec_picks() == old(self).spec_picks().remove(index as int),
            final(self).max_selectable == old(self).max_selectable,
    {
        self.selections.remove(index);
        assert(self.spec_picks() =~= old(self).spec_picks().remove(index as int));
    }

    /// Drops every pick.
    pub fn clear(&mut self)
        ensures
            final(self).spec_picks() == Seq::<SelectionView>::empty(),
            final(self).max_selectable == old(self).max_selectable,
    {
        self.selections.clear();
        assert(self.spec_picks() =~= Seq::<SelectionView>::empty());
    }

    fn is_full(&self) -> (b: bool)
        ensures
            b == spec_is_full(self.spec_picks(), self.max_selectable),
    {
        (self.selections.len() as u8) >= self.max_selectable
    }

    /// Whether the coin at market index `index` is picked.
    pub fn is_selected(&self, index: usize) -> (b: bool)
        ensures
            b == has_coin(self.spec_picks(), index),
    {
        let mut i: usize = 0;
        while i < self.selections.len()
            invariant
                0 <= i <= self.selections@.len(),
                forall|k: int| 0 <= k < i ==> (#[trigger] self.spec_picks()[k]).index != index,
            decreases self.selections@.len() - i,
        {
            if self.selections[i].index == index {
                assert(self.spec_picks()[i as int].index == index);
                return true;
            }
            i = i + 1;
        }
        false
    }

    fn place_is_taken(&self, place: usize) -> (b: bool)
        ensures
            b == place_taken(self.spec_picks(), place as int),
    {
        let mut i: usize = 0;
        while i < self.selections.len()
            invariant
                0 <= i <= self.selections@.len(),
                forall|k: int|
                    0 <= k < i ==> (#[trigger] self.spec_picks()[k]).selection_index != place,
            decreases self.selections@.len() - i,
        {
            if self.selections[i].selection_index == place {
                assert(self.spec_picks()[i as int].selection_index == place);
                return true;
            }
            i = i + 1;
        }
        false
    }

    fn lowest_free_place(&self) -> (place: usize)
        ensures
            place == free_place(self.spec_picks(), self.max_selectable as int, 0),
    {
        let max = self.max_selectable as usize;
        let mut i: usize = 0;
        while i < max
            invariant
                max == self.max_selectable,
                0 <= i <= max,
                free_place(self.spec_picks(), max as int, 0) == free_place(
                    self.spec_picks(),
                    max as int,
                    i as int,
                ),
            decreases max - i,
        {
            if !self.place_is_taken(i) {
                return i;
            }
            i = i + 1;
        }
        0
    }

    /// Picks the coin at market index `index` named `name`, as `spec_picked`
    /// says; the caller then brings the screen up to date. Unpicking (a
    /// picked coin with `do_toggle`) works on any list; picking needs
    /// distinct places below the limit.
    pub fn make_selection(&mut self, index: usize, name: &str, do_toggle: bool)
        requires
            !(has_coin(old(self).spec_picks(), index) && do_toggle) ==> places_distinct(
                old(self).spec_picks(),
                old(self).max_selectable,
            ),
        ensures
            final(self).spec_picks() == spec_picked(
                old(self).spec_picks(),
                old(self).max_selectable,
                index,
                name@,
                do_toggle,
            ),
            final(self).max_selectable == old(self).max_selectable,
            places_distinct(old(self).spec_picks(), old(self).max_selectable) ==> places_distinct(
                final(self).spec_picks(),
                final(self).max_selectable,
            ),
            old(self).wf() ==> final(self).wf(),
    {
        proof {
            if self.wf() {
                lemma_picked_wf(self.spec_picks(), self.max_selectable, index, name@, do_toggle);
            }
            if places_distinct(self.spec_picks(), self.max_selectable) {
                lemma_picked_distinct(self.spec_picks(), self.max_selectable, index, name@, do_toggle);
            }
        }
        if self.is_selected(index) && do_toggle {
            self.unmake_selection(index);
        } else {
            let ghost p = self.spec_picks();
            let ghost max = self.max_selectable;
            proof {
                lemma_distinct_len(p, max);
            }
            if self.is_full() {
                self.remove(0);
            }
            let ghost base = self.spec_picks();
            proof {
                if spec_is_full(p, max) {
                    lemma_remove_distinct(p, max, 0);
                }
                lemma_free_place_fits(base, max);
            }
            let selection_index = self.lowest_free_place();
            let selection = SelectionMulti {
                index,
                name: String::from_str(name),
                selection_index,
            };
            self.insert(selection);
        }
    }

    /// Unpicks the first pick of the coin at market index `index`, if any.
    pub fn unmake_selection(&mut self, index: usize)
        ensures
            final(self).spec_picks() == spec_unpicked(old(self).spec_picks(), index),
            final(self).max_selectable == old(self).max_selectable,
    {
        let ghost p = self.spec_picks();
        let mut i: usize = 0;
        while i < self.selections.len()
            invariant
                self.spec_picks() == p,
                p == old(self).spec_picks(),
                self.max_selectable == old(self).max_selectable,
                0 <= i <= self.selections@.len(),
                first_pick_of(p, index, 0) == first_pick_of(p, index, i as int),
            decreases self.selections@.len() - i,
        {
            if self.selections[i].index == index {
                assert(first_pick_of(p, index, i as int) == Some(i as int));
                self.remove(i);
                return;
            }
            i = i + 1;
        }
    }

    /// Allows one more pick at a time, up to ten.
    pub fn increment_max_selectable(&mut self)
        ensures
            final(self).spec_picks() == old(self).spec_picks(),
            final(self).max_selectable == if old(self).max_selectable < 10 {
                (old(self).max_selectable + 1) as u8
            } else {
                old(self).max_selectable
            },
    {
        if self.max_selectable < 10 {
            self.max_selectable = self.max_selectable + 1;
        }
    }

    /// The pick stored first, if any.
    pub fn get_first_selection(&self) -> (f: Option<&SelectionMulti>)
        ensures
            f matches Some(s) ==> self.spec_picks().len() > 0 && s@ == self.spec_picks()[0],
            f is None ==> self.spec_picks().len() == 0,
    {
        if self.selections.len() > 0 {
            Some(&self.selections[0])
        } else {
            None
        }
    }

    /// A copy of the picks.
    pub fn get_selected(&self) -> (v: Vec<SelectionMulti>)
        ensures
            picks(v@) == self.spec_picks(),
    {
        let mut v: Vec<SelectionMulti> = Vec::new();
        let mut i: usize = 0;
        while i < self.selections.len()
            invariant
                0 <= i <= self.selections@.len(),
                v@.len() == i,
                picks(v@) == self.spec_picks().subrange(0, i as int),
            decreases self.selections@.len() - i,
        {
            let c = self.selections[i].clone();
            let ghost before = v@;
            v.push(c);
            assert(v@ == before.push(c));
            assert(c@ == self.spec_picks()[i as int]);
            assert forall|k: int| 0 <= k < i + 1 implies #[trigger] picks(v@)[k]
                == self.spec_picks().subrange(0, i + 1)[k] by {
                if k < i {
                    assert(v@[k] == before[k]);
                    assert(picks(before)[k] == self.spec_picks().subrange(0, i as int)[k]);
                }
            }
            assert(picks(v@) =~= self.spec_picks().subrange(0, i + 1));
            i = i + 1;
        }
        assert(self.spec_picks().subrange(0, i as int) =~= self.spec_picks());
        v
    }

    /// The pick that occupies place `index`, if any (the first such).
    pub fn selection_by_index(&self, index: usize) -> (f: Option<&SelectionMulti>)
        ensures
            f matches Some(s) ==> s.selection_index == index && exists|i: int|
                0 <= i < self.spec_picks().len() && #[trigger] self.spec_picks()[i] == s@ && (
                forall|k: int| 0 <= k < i ==> (#[trigger] self.spec_picks()[k]).selection_index != index),
            f is None ==> !place_taken(self.spec_picks(), index as int),
    {
        let mut i: usize = 0;
        while i < self.selections.len()
            invariant
                0 <= i <= self.selections@.len(),
                forall|k: int|
                    0 <= k < i ==> (#[trigger] self.spec_picks()[k]).selection_index != index,
            decreases self.selections@.len() - i,
        {
            if self.selections[i].selection_index == index {
                assert(self.spec_picks()[i as int] == self.selections@[i as int]@);
                return Some(&self.selections[i]);
            }
            i = i + 1;
        }
        None
    }

    /// The price of allowing one more pick, in dollars: ten thousand for the
    /// second, and ten times more for each one after, capped at 10^12.
    pub fn get_upgrade_cost(&self) -> (c: u64)
        ensures
            c == spec_upgrade_cost(self.max_selectable),
    {
        match self.max_selectable {
            1 => 10_000,
            2 => 100_000,
            3 => 1_000_000,
            4 => 10_000_000,
            5 => 100_000_000,
            6 => 1_000_000_000,
            7 => 10_000_000_000,
            8 => 100_000_000_000,
            _ => 1_000_000_000_000,
        }
    }
}

/// The price of allowing a pick beyond `max`, in dollars.
pub open spec fn spec_upgrade_cost(max: u8) -> u64 {
    if max == 1 {
        10_000
    } else if max == 2 {
        100_000
    } else if max == 3 {
        1_000_000
    } else if max == 4 {
        10_000_000
    } else if max == 5 {
        100_000_000
    } else if max == 6 {
        1_000_000_000
    } else if max == 7 {
        10_000_000_000
    } else if max == 8 {
        100_000_000_000
    } else {
        1_000_000_000_000
    }
}

/// Whether some pick is of the coin at `index` under the name `name`.
pub open spec fn has_named_pick(p: Seq<SelectionView>, index: usize, name: Seq<char>) -> bool {
    exists|i: int| 0 <= i < p.len() && (#[trigger] p[i]).index == index && p[i].name == name
}

/// Law: picking a coin (unless it is a picked coin being toggled off)
/// leaves it picked, under its name, in a list with distinct places; such a
/// list never holds more picks than its limit, and when it was full its
/// length stays at the limit.
pub proof fn lemma_pick_selects(
    p: Seq<SelectionView>,
    max: u8,
    index: usize,
    name: Seq<char>,
    do_toggle: bool,
)
    requires
        places_distinct(p, max),
        !(has_coin(p, index) && do_toggle),
    ensures
        has_coin(spec_picked(p, max, index, name, do_toggle), index),
        has_named_pick(spec_picked(p, max, index, name, do_toggle), index, name),
        spec_picked(p, max, index, name, do_toggle).len() <= max,
        p.len() == max ==> spec_picked(p, max, index, name, do_toggle).len() == max,
{
    lemma_distinct_len(p, max);
    lemma_picked_distinct(p, max, index, name, do_toggle);
    let q = spec_picked(p, max, index, name, do_toggle);
    lemma_distinct_len(q, max);
    let base = if spec_is_full(p, max) { p.remove(0) } else { p };
    if spec_is_full(p, max) {
        lemma_remove_distinct(p, max, 0);
    }
    lemma_free_place_fits(base, max);
    let r = free_place(base, max as int, 0);
    let x = SelectionView { name, index, selection_index: r as usize };
    assert(q[r] == x);
    assert(q[r].index == index && q[r].name == name);
}

/// The picks a new pick joins: all of them, or all but the oldest when
/// the list holds `max` or more.
pub open spec fn pick_base(p: Seq<SelectionView>, max: u8) -> Seq<SelectionView> {
    if p.len() >= max { p.remove(0) } else { p }
}

/// Law: picking into a list with distinct places drops the oldest pick
/// when the list is full, then stores the new pick at the lowest place no
/// remaining pick occupies, at that position in the list.
pub proof fn lemma_pick_takes_lowest_place(
    p: Seq<SelectionView>,
    max: u8,
    index: usize,
    name: Seq<char>,
    do_toggle: bool,
    r: int,
)
    requires
        places_distinct(p, max),
        !(has_coin(p, index) && do_toggle),
        0 <= r < max,
        !place_taken(pick_base(p, max), r),
        forall|k: int| 0 <= k < r ==> #[trigger] place_taken(pick_base(p, max), k),
    ensures
        r <= pick_base(p, max).len(),
        spec_picked(p, max, index, name, do_toggle) == pick_base(p, max).insert(r, SelectionView { name, index, selection_index: r as usize }),
{
    lemma_distinct_len(p, max);
    let base = pick_base(p, max);
    if p.len() >= max {
        lemma_remove_distinct(p, max, 0);
    }
    assert(spec_is_full(p, max) == (p.len() >= max));
    lemma_free_place_fits(base, max);
    lemma_free_place(base, max as int, 0);
    lemma_taken_bound(base, r);
    let f = free_place(base, max as int, 0);
    if f < r {
        assert(place_taken(base, f));
    } else if f > r {
        assert(place_taken(base, r));
    }
}

/// Law: toggling off a picked coin removes exactly one pick, its first,
/// leaving the others in order, whatever the places; when no coin is
/// picked twice, the coin is no longer picked.
pub proof fn lemma_toggle_unpicks(p: Seq<SelectionView>, max: u8, index: usize, name: Seq<char>)
    requires
        has_coin(p, index),
    ensures
        spec_picked(p, max, index, name, true).len() == p.len() - 1,
        exists|i: int|
            0 <= i < p.len() && (#[trigger] p[i]).index == index && spec_picked(
                p,
                max,
                index,
                name,
                true,
            ) == p.remove(i),
        (forall|i: int, j: int|
            0 <= i < p.len() && 0 <= j < p.len() && i != j ==> (#[trigger] p[i]).index
                != (#[trigger] p[j]).index) ==> !has_coin(spec_picked(p, max, index, name, true), index),
{
    lemma_first_pick_of(p, index, 0);
    let i = choose|i: int| 0 <= i < p.len() && (#[trigger] p[i]).index == index;
    if first_pick_of(p, index, 0) is None {
        assert(p[i].index != index);
    }
    let f = first_pick_of(p, index, 0).unwrap();
    let q = p.remove(f);
    assert(p[f].index == index);
    if forall|a: int, b: int|
        0 <= a < p.len() && 0 <= b < p.len() && a != b ==> (#[trigger] p[a]).index
            != (#[trigger] p[b]).index {
        assert forall|k: int| 0 <= k < q.len() implies (#[trigger] q[k]).index != index by {
            let k2 = if k < f { k } else { k + 1 };
            assert(q[k] == p[k2]);
            assert(p[k2].index != p[f].index);
        }
    }
}

/// Law: allowing a second pick costs ten thousand, and each further one ten
/// times the last, up to 10^12 from the ninth on.
pub proof fn lemma_upgrade_cost_table(max: u8)
    ensures
        spec_upgrade_cost(1) == 10_000,
        1 <= max <= 7 ==> spec_upgrade_cost((max + 1) as u8) == 10 * spec_upgrade_cost(max),
        max >= 9 || max == 0 ==> spec_upgrade_cost(max) == 1_000_000_000_000,
        spec_upgrade_cost(8) == 100_000_000_000,
{
}

} // verus!
