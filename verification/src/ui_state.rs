//! Small pieces of screen state: the pause button, the modal flags, and the
//! paint studio's palette and undo history.
use vstd::prelude::*;

verus! {

/// The label the pause button shows: `Resume` while paused, `Pause` otherwise.
pub open spec fn pause_label(paused: bool) -> Seq<char> {
    if paused { "Resume"@ } else { "Pause"@ }
}

/// Whether the game is paused, and the pause button's label.
#[derive(Clone, Debug)]
pub struct Paused {
    pub paused: bool,
    pub btn_text: String,
}

impl Paused {
    /// Running, with the button offering to pause.
    pub fn new() -> (p: Self)
        ensures
            !p.paused,
            p.btn_text@ == pause_label(false),
    {
        Paused { paused: false, btn_text: String::from_str("Pause") }
    }

    /// Pauses a running game or resumes a paused one, relabelling the button.
    pub fn toggle(&mut self)
        ensures
            final(self).paused == !old(self).paused,
            final(self).btn_text@ == pause_label(final(self).paused),
    {
        self.paused = !self.paused;
        self.btn_text = if self.paused {
            String::from_str("Resume")
        } else {
            String::from_str("Pause")
        };
    }
}

impl Default for Paused {
    fn default() -> (p: Self)
        ensures
            !p.paused,
            p.btn_text@ == Seq::<char>::empty(),
    {
        Paused { paused: false, btn_text: String::new() }
    }
}

/// Law: the pause button reads `Resume` while the game is paused and
/// `Pause` while it runs.
pub proof fn lemma_pause_labels()
    ensures
        pause_label(true) == "Resume"@,
        pause_label(false) == "Pause"@,
{
}

/// Law: pausing twice brings the game back to the state it was in, with the
/// button labelled to match.
pub proof fn lemma_toggle_twice(paused: bool)
    ensures
        !(!paused) == paused,
        pause_label(!(!paused)) == pause_label(paused),
        pause_label(true) != pause_label(false),
{
    reveal_strlit("Resume");
    reveal_strlit("Pause");
    assert("Resume"@.len() != "Pause"@.len());
}

/// A yes/no question waiting for the player's answer.
#[derive(Clone, Debug)]
pub struct ConfirmModal {
    pub show: bool,
    pub msg: String,
    pub confirm: Option<bool>,
}

/// Whether the cloud-save loading screen is shown.
#[derive(Clone, Copy, Debug, PartialEq, Eq, Structural)]
pub struct GalaxyLoadingModal {
    pub show: bool,
}

/// Whether the import/export screen is shown.
#[derive(Clone, Copy, Debug, PartialEq, Eq, Structural)]
pub struct ImportExportModal {
    pub show: bool,
}

/// Whether the help screen is shown.
#[derive(Clone, Copy, Debug, PartialEq, Eq, Structural)]
pub struct HelpModal {
    pub show: bool,
}

/// Whether the welcome screen is shown.
#[derive(Clone, Copy, Debug, PartialEq, Eq, Structural)]
pub struct WelcomeModal {
    pub show: bool,
}

/// Whether the game should be saved at the next opportunity.
#[derive(Clone, Copy, Debug, PartialEq, Eq, Structural)]
pub struct DoSave {
    pub save: bool,
}

/// A paint colour and how many strokes were made with it.
#[derive(Debug)]
pub struct PaintColor {
    pub name: String,
    pub count: u64,
}

impl Clone for PaintColor {
    fn clone(&self) -> (c: Self)
        ensures
            c.name@ == self.name@,
            c.count == self.count,
    {
        PaintColor { name: self.name.clone(), count: self.count }
    }
}

impl PaintColor {
    /// A colour used once.
    pub fn new(name: &str) -> (c: Self)
        ensures
            c.name@ == name@,
            c.count == 1,
    {
        PaintColor { name: String::from_str(name), count: 1 }
    }
}

/// A palette entry as the contracts speak of it: a colour name and a count.
pub type Tally = (Seq<char>, u64);

/// The palette as name and count pairs.
pub open spec fn tallies(v: Seq<PaintColor>) -> Seq<Tally> {
    v.map_values(|c: PaintColor| (c.name@, c.count))
}

/// The position of the first entry for `name`, from position `i` on.
pub open spec fn first_tally_of(t: Seq<Tally>, name: Seq<char>, i: int) -> Option<int>
    decreases t.len() - i,
{
    if i < 0 || i >= t.len() {
        None
    } else if t[i].0 == name {
        Some(i)
    } else {
        first_tally_of(t, name, i + 1)
    }
}

/// Strokes made with `name`, as the first entry for it records.
pub open spec fn strokes_of(t: Seq<Tally>, name: Seq<char>) -> int {
    match first_tally_of(t, name, 0) {
        Some(i) => t[i].1 as int,
        None => 0,
    }
}

/// The palette after a stroke with `name`: its first entry counts one more,
/// or a new entry is appended.
pub open spec fn spec_painted(t: Seq<Tally>, name: Seq<char>) -> Seq<Tally> {
    match first_tally_of(t, name, 0) {
        Some(i) => t.update(i, (t[i].0, (t[i].1 + 1) as u64)),
        None => t.push((name, 1u64)),
    }
}

/// Whether one more stroke with `name` can be counted.
pub open spec fn can_paint(t: Seq<Tally>, name: Seq<char>) -> bool {
    strokes_of(t, name) < u64::MAX
}

/// Strokes made with colours other than `background`.
pub open spec fn painted_total(t: Seq<Tally>, background: Seq<char>) -> int
    decreases t.len(),
{
    if t.len() == 0 {
        0
    } else {
        painted_total(t.drop_last(), background) + if t.last().0 != background {
            t.last().1 as int
        } else {
            0
        }
    }
}

/// The colour record of a painting; its size and score are kept beside it.
#[derive(Debug)]
pub struct Painting {
    pub name: String,
    pub colors: Vec<PaintColor>,
    pub background_color: PaintColor,
}

proof fn lemma_first_tally_of(t: Seq<Tally>, name: Seq<char>, i: int)
    requires
        0 <= i,
    ensures
        first_tally_of(t, name, i) matches Some(j) ==> i <= j < t.len() && t[j].0 == name,
        first_tally_of(t, name, i) is None ==> forall|k: int|
            i <= k < t.len() ==> (#[trigger] t[k]).0 != name,
    decreases t.len() - i,
{
    if i < t.len() && t[i].0 != name {
        lemma_first_tally_of(t, name, i + 1);
    }
}

proof fn lemma_painted_total_prefix(t: Seq<Tally>, background: Seq<char>, i: int)
    requires
        0 <= i <= t.len(),
    ensures
        painted_total(t.take(i), background) <= painted_total(t, background),
        painted_total(t.take(i), background) >= 0,
    decreases t.len() - i,
{
    lemma_painted_total_nonneg(t.take(i), background);
    if i < t.len() {
        lemma_painted_total_prefix(t, background, i + 1);
        assert(t.take(i + 1).drop_last() =~= t.take(i));
    } else {
        assert(t.take(i) =~= t);
        lemma_painted_total_nonneg(t, background);
    }
}

proof fn lemma_painted_total_nonneg(t: Seq<Tally>, background: Seq<char>)
    ensures
        painted_total(t, background) >= 0,
    decreases t.len(),
{
    if t.len() > 0 {
        lemma_painted_total_nonneg(t.drop_last(), background);
    }
}

impl Painting {
    /// The palette as name and count pairs.
    pub open spec fn spec_tallies(&self) -> Seq<Tally> {
        tallies(self.colors@)
    }

    /// An unnamed painting with no strokes on a `background_color` canvas.
    pub fn new(background_color: &str) -> (p: Self)
        ensures
            p.name@ == Seq::<char>::empty(),
            p.spec_tallies() == Seq::<Tally>::empty(),
            p.background_color.name@ == background_color@,
            p.background_color.count == 1,
    {
        let p = Painting {
            name: String::new(),
            colors: Vec::new(),
            background_color: PaintColor::new(background_color),
        };
        assert(p.spec_tallies() =~= Seq::<Tally>::empty());
        p
    }

    /// Repaints the canvas background.
    pub fn set_bg_color(&mut self, color: String)
        ensures
            final(self).background_color.name@ == color@,
            final(self).background_color.count == 1,
            final(self).spec_tallies() == old(self).spec_tallies(),
            final(self).name@ == old(self).name@,
    {
        self.background_color = PaintColor::new(color.as_str());
    }

    /// Records a stroke with `color`.
    pub fn do_paint(&mut self, color: String)
        requires
            can_paint(old(self).spec_tallies(), color@),
        ensures
            final(self).spec_tallies() == spec_painted(old(self).spec_tallies(), color@),
            final(self).background_color.name@ == old(self).background_color.name@,
            final(self).background_color.count == old(self).background_color.count,
            final(self).name@ == old(self).name@,
    {
        let ghost t = self.spec_tallies();
        proof {
            lemma_first_tally_of(t, color@, 0);
        }
        let mut i: usize = 0;
        while i < self.colors.len()
            invariant
                t == self.spec_tallies(),
                t == old(self).spec_tallies(),
                self.background_color.name@ == old(self).background_color.name@,
                self.background_color.count == old(self).background_color.count,
                self.name@ == old(self).name@,
                can_paint(t, color@),
                0 <= i <= self.colors@.len(),
                first_tally_of(t, color@, 0) == first_tally_of(t, color@, i as int),
            decreases self.colors@.len() - i,
        {
            if self.colors[i].name == color {
                assert(t[i as int].0 == color@);
                assert(first_tally_of(t, color@, i as int) == Some(i as int));
                let count = self.colors[i].count;
                let name = self.colors[i].name.clone();
                self.colors.set(i, PaintColor { name, count: count + 1 });
                assert(self.spec_tallies() =~= spec_painted(t, color@));
                return;
            }
            i = i + 1;
        }
        let c = PaintColor::new(color.as_str());
        self.colors.push(c);
        assert(self.spec_tallies() =~= spec_painted(t, color@));
    }

    /// Strokes made with colours other than the background.
    pub fn get_painted_pixels_total(&self) -> (n: u64)
        requires
            painted_total(self.spec_tallies(), self.background_color.name@) <= u64::MAX,
        ensures
            n == painted_total(self.spec_tallies(), self.background_color.name@),
    {
        let ghost t = self.spec_tallies();
        let ghost bg = self.background_color.name@;
        let mut total: u64 = 0;
        let mut i: usize = 0;
        while i < self.colors.len()
            invariant
                t == self.spec_tallies(),
                bg == self.background_color.name@,
                painted_total(t, bg) <= u64::MAX,
                0 <= i <= self.colors@.len(),
                total == painted_total(t.take(i as int), bg),
            decreases self.colors@.len() - i,
        {
            proof {
                lemma_painted_total_prefix(t, bg, i + 1);
                assert(t.take(i + 1).drop_last() =~= t.take(i as int));
            }
            if self.colors[i].name != self.background_color.name {
                total = total + self.colors[i].count;
            }
            i = i + 1;
        }
        assert(t.take(i as int) =~= t);
        total
    }

    /// Strokes made with `color`, as its first palette entry records.
    pub fn get_painted_pixels(&self, color: &str) -> (n: u64)
        ensures
            n == strokes_of(self.spec_tallies(), color@),
    {
        let ghost t = self.spec_tallies();
        let wanted = String::from_str(color);
        let mut i: usize = 0;
        while i < self.colors.len()
            invariant
                t == self.spec_tallies(),
                wanted@ == color@,
                0 <= i <= self.colors@.len(),
                first_tally_of(t, color@, 0) == first_tally_of(t, color@, i as int),
            decreases self.colors@.len() - i,
        {
            if self.colors[i].name == wanted {
                assert(first_tally_of(t, color@, i as int) == Some(i as int));
                return self.colors[i].count;
            }
            i = i + 1;
        }
        0
    }

    /// The number of palette entries.
    pub fn get_colors_count(&self) -> (n: u64)
        requires
            self.colors@.len() <= u64::MAX,
        ensures
            n == self.spec_tallies().len(),
    {
        self.colors.len() as u64
    }
}

proof fn lemma_first_tally_same_names(t: Seq<Tally>, u: Seq<Tally>, name: Seq<char>, i: int)
    requires
        0 <= i,
        t.len() == u.len(),
        forall|k: int| 0 <= k < t.len() ==> (#[trigger] t[k]).0 == u[k].0,
    ensures
        first_tally_of(t, name, i) == first_tally_of(u, name, i),
    decreases t.len() - i,
{
    if i < t.len() {
        lemma_first_tally_same_names(t, u, name, i + 1);
    }
}

proof fn lemma_first_tally_push(t: Seq<Tally>, x: Tally, name: Seq<char>, i: int)
    requires
        0 <= i <= t.len(),
    ensures
        first_tally_of(t.push(x), name, i) == match first_tally_of(t, name, i) {
            Some(j) => Some(j),
            None => if x.0 == name {
                Some(t.len() as int)
            } else {
                None
            },
        },
    decreases t.len() - i,
{
    if i < t.len() {
        assert(t.push(x)[i] == t[i]);
        lemma_first_tally_push(t, x, name, i + 1);
    } else {
        assert(t.push(x)[i] == x);
        assert(first_tally_of(t.push(x), name, i + 1) is None);
    }
}

proof fn lemma_painted_total_bump(t: Seq<Tally>, bg: Seq<char>, i: int)
    requires
        0 <= i < t.len(),
        t[i].1 < u64::MAX,
    ensures
        painted_total(t.update(i, (t[i].0, (t[i].1 + 1) as u64)), bg) == painted_total(t, bg)
            + if t[i].0 != bg { 1int } else { 0int },
    decreases t.len(),
{
    let u = t.update(i, (t[i].0, (t[i].1 + 1) as u64));
    if i == t.len() - 1 {
        assert(u.drop_last() =~= t.drop_last());
    } else {
        lemma_painted_total_bump(t.drop_last(), bg, i);
        assert(u.drop_last() =~= t.drop_last().update(i, (t[i].0, (t[i].1 + 1) as u64)));
        assert(u.last() == t.last());
    }
}

/// Law: a stroke adds one to the painted total, unless it is made with the
/// background colour, which is not counted.
pub proof fn lemma_paint_adds_to_total(t: Seq<Tally>, name: Seq<char>, bg: Seq<char>)
    requires
        can_paint(t, name),
    ensures
        painted_total(spec_painted(t, name), bg) == painted_total(t, bg) + if name != bg {
            1int
        } else {
            0int
        },
{
    lemma_first_tally_of(t, name, 0);
    match first_tally_of(t, name, 0) {
        Some(i) => {
            lemma_painted_total_bump(t, bg, i);
        },
        None => {
            assert(t.push((name, 1u64)).drop_last() =~= t);
        },
    }
}

/// Law: a stroke with a colour adds exactly one to that colour's count and
/// leaves every other colour's count as it was.
pub proof fn lemma_paint_counts_one(t: Seq<Tally>, name: Seq<char>, other: Seq<char>)
    requires
        can_paint(t, name),
    ensures
        strokes_of(spec_painted(t, name), name) == strokes_of(t, name) + 1,
        other != name ==> strokes_of(spec_painted(t, name), other) == strokes_of(t, other),
{
    let u = spec_painted(t, name);
    lemma_first_tally_of(t, name, 0);
    match first_tally_of(t, name, 0) {
        Some(i) => {
            assert forall|k: int| 0 <= k < t.len() implies (#[trigger] t[k]).0 == u[k].0 by {
            }
            lemma_first_tally_same_names(t, u, name, 0);
            lemma_first_tally_same_names(t, u, other, 0);
            lemma_first_tally_of(t, other, 0);
            if let Some(k) = first_tally_of(t, other, 0) {
                if other != name {
                    assert(k != i);
                }
            }
        },
        None => {
            lemma_first_tally_push(t, (name, 1u64), name, 0);
            lemma_first_tally_push(t, (name, 1u64), other, 0);
            lemma_first_tally_of(t, other, 0);
        },
    }
}

/// The paint studio's strokes: the one being drawn, the finished ones, and
/// the ones taken back, newest last. `P` is a point of a stroke.
#[derive(Debug)]
pub struct PaintUndo<P> {
    pub current_path: Vec<P>,
    pub paths: Vec<Vec<P>>,
    pub undo_paths: Vec<Vec<P>>,
}

/// The finished strokes, the taken-back strokes and the stroke in progress
/// after an undo: the newest finished stroke moves to the taken-back ones.
pub open spec fn spec_undone<P>(paths: Seq<Vec<P>>, undone: Seq<Vec<P>>) -> (Seq<Vec<P>>, Seq<Vec<P>>) {
    if paths.len() > 0 {
        (paths.drop_last(), undone.push(paths.last()))
    } else {
        (paths, undone)
    }
}

impl<P> PaintUndo<P> {
    /// Nothing drawn.
    pub fn new() -> (u: Self)
        ensures
            u.current_path@ == Seq::<P>::empty(),
            u.paths@ == Seq::<Vec<P>>::empty(),
            u.undo_paths@ == Seq::<Vec<P>>::empty(),
    {
        PaintUndo { current_path: Vec::new(), paths: Vec::new(), undo_paths: Vec::new() }
    }

    /// Takes back the newest finished stroke, if any.
    pub fn undo(&mut self)
        ensures
            (final(self).paths@, final(self).undo_paths@) == spec_undone(
                old(self).paths@,
                old(self).undo_paths@,
            ),
            final(self).current_path@ == old(self).current_path@,
    {
        if let Some(path) = self.paths.pop() {
            self.undo_paths.push(path);
        }
    }

    /// Restores the newest taken-back stroke, if any.
    pub fn redo(&mut self)
        ensures
            (final(self).undo_paths@, final(self).paths@) == spec_undone(
                old(self).undo_paths@,
                old(self).paths@,
            ),
            final(self).current_path@ == old(self).current_path@,
    {
        if let Some(path) = self.undo_paths.pop() {
            self.paths.push(path);
        }
    }

    /// Whether there is a finished stroke to take back.
    pub fn can_undo(&self) -> (b: bool)
        ensures
            b == (self.paths@.len() > 0),
    {
        !self.paths.is_empty()
    }

    /// Whether there is a taken-back stroke to restore.
    pub fn can_redo(&self) -> (b: bool)
        ensures
            b == (self.undo_paths@.len() > 0),
    {
        !self.undo_paths.is_empty()
    }

    /// Forgets every stroke.
    pub fn clear(&mut self)
        ensures
            final(self).current_path@ == Seq::<P>::empty(),
            final(self).paths@ == Seq::<Vec<P>>::empty(),
            final(self).undo_paths@ == Seq::<Vec<P>>::empty(),
    {
        self.paths.clear();
        self.undo_paths.clear();
        self.current_path.clear();
    }

    /// Finishes the stroke in progress, unless it is empty.
    pub fn add_path(&mut self)
        ensures
            old(self).current_path@.len() > 0 ==> {
                &&& final(self).paths@.len() == old(self).paths@.len() + 1
                &&& final(self).paths@.drop_last() == old(self).paths@
                &&& final(self).paths@.last()@ == old(self).current_path@
                &&& final(self).current_path@ == Seq::<P>::empty()
            },
            old(self).current_path@.len() == 0 ==> final(self).paths@ == old(self).paths@
                && final(self).current_path@ == old(self).current_path@,
            final(self).undo_paths@ == old(self).undo_paths@,
    {
        if !self.current_path.is_empty() {
            let mut finished: Vec<P> = Vec::new();
            std::mem::swap(&mut finished, &mut self.current_path);
            self.paths.push(finished);
            assert(self.paths@.drop_last() =~= old(self).paths@);
        }
    }

    /// Adds a point to the stroke in progress; new drawing forgets the
    /// taken-back strokes.
    pub fn add_position(&mut self, position: P)
        ensures
            final(self).current_path@ == old(self).current_path@.push(position),
            final(self).paths@ == old(self).paths@,
            final(self).undo_paths@ == Seq::<Vec<P>>::empty(),
    {
        self.current_path.push(position);
        if !self.undo_paths.is_empty() {
            self.undo_paths.clear();
        }
    }
}

/// Law: an undo followed by a redo restores the strokes whenever there was
/// something to undo, and a redo followed by an undo restores them whenever
/// there was something to redo.
pub proof fn lemma_undo_redo<P>(paths: Seq<Vec<P>>, undone: Seq<Vec<P>>)
    ensures
        paths.len() > 0 ==> {
            let (p1, u1) = spec_undone(paths, undone);
            let (u2, p2) = spec_undone(u1, p1);
            p2 == paths && u2 == undone
        },
        undone.len() > 0 ==> {
            let (u1, p1) = spec_undone(undone, paths);
            let (p2, u2) = spec_undone(p1, u1);
            p2 == paths && u2 == undone
        },
{
    if paths.len() > 0 {
        assert(paths.drop_last().push(paths.last()) =~= paths);
        assert(undone.push(paths.last()).drop_last() =~= undone);
    }
    if undone.len() > 0 {
        assert(undone.drop_last().push(undone.last()) =~= undone);
        assert(paths.push(undone.last()).drop_last() =~= paths);
    }
}

} // verus!
