//! Stages and the ordered list of them with its cursor.
use vstd::prelude::*;

verus! {

/// A named countdown interval. `duration` is in whole seconds.
#[derive(Clone, Debug)]
pub struct Stage {
    pub name: String,
    pub duration: u64,
}

/// The mathematical value of a `Stage`.
pub struct StageView {
    pub name: Seq<char>,
    pub duration: u64,
}

impl View for Stage {
    type V = StageView;

    open spec fn view(&self) -> StageView {
        StageView { name: self.name@, duration: self.duration }
    }
}

/// The values of a sequence of stages, in order.
pub open spec fn views_of(s: Seq<Stage>) -> Seq<StageView> {
    s.map_values(|st: Stage| st@)
}

/// The value of an optional stage.
pub open spec fn opt_view(o: Option<Stage>) -> Option<StageView> {
    match o {
        Some(s) => Some(s@),
        None => None,
    }
}

impl Stage {
    /// A stage called `name` lasting `secs` seconds.
    pub fn new(name: &str, secs: u64) -> (r: Stage)
        ensures
            r@ == (StageView { name: name@, duration: secs }),
    {
        Stage { name: name.to_owned(), duration: secs }
    }

    /// A copy of this stage whose value is known to be the same.
    pub fn duplicate(&self) -> (r: Stage)
        ensures
            r@ == self@,
    {
        Stage { name: self.name.clone(), duration: self.duration }
    }
}

impl Default for Stage {
    /// The stage added by the editor: called "stage", lasting zero seconds.
    fn default() -> (r: Stage)
        ensures
            r@.name == "stage"@,
            r@.duration == 0,
    {
        proof {
            reveal_strlit("stage");
        }
        Stage { name: "stage".to_owned(), duration: 0 }
    }
}

/// The mathematical value of a `Stages`: the stages in playing order and the
/// cursor. The cursor may point past the end, in which case there is no
/// current stage.
pub struct StagesView {
    pub stages: Seq<StageView>,
    pub cursor: nat,
}

impl StagesView {
    /// The stage under the cursor, if the cursor is in bounds.
    pub open spec fn current(self) -> Option<StageView> {
        if self.cursor < self.stages.len() {
            Some(self.stages[self.cursor as int])
        } else {
            None
        }
    }

    /// Whether a stage follows the one under the cursor.
    pub open spec fn has_next(self) -> bool {
        self.cursor + 1 < self.stages.len()
    }

    /// The cursor moved one place forward (it stops at the largest `usize`).
    pub open spec fn advanced(self) -> StagesView {
        StagesView {
            stages: self.stages,
            cursor: if self.cursor < usize::MAX { self.cursor + 1 } else { self.cursor },
        }
    }

    /// The cursor moved forward `k` times.
    pub open spec fn advanced_times(self, k: nat) -> StagesView
        decreases k,
    {
        if k == 0 {
            self
        } else {
            self.advanced_times((k - 1) as nat).advanced()
        }
    }

    /// The cursor back on the first stage.
    pub open spec fn rewound(self) -> StagesView {
        StagesView { stages: self.stages, cursor: 0 }
    }

    /// A fresh list holding `stages`, with the cursor on the first one.
    pub open spec fn loaded(stages: Seq<Stage>) -> StagesView {
        StagesView { stages: views_of(stages), cursor: 0 }
    }
}

/// An ordered list of stages with a cursor on the active one.
#[derive(Clone, Debug)]
pub struct Stages {
    iter: Vec<Stage>,
    id: usize,
}

impl View for Stages {
    type V = StagesView;

    closed spec fn view(&self) -> StagesView {
        StagesView { stages: views_of(self.iter@), cursor: self.id as nat }
    }
}

impl Stages {
    /// A list of `stages`, in the given order, with the cursor on the first.
    pub fn new(stages: Vec<Stage>) -> (r: Stages)
        ensures
            r@ == StagesView::loaded(stages@),
    {
        Stages { iter: stages, id: 0 }
    }

    /// The number of stages.
    pub fn len(&self) -> (r: usize)
        ensures
            r == self@.stages.len(),
    {
        self.iter.len()
    }

    /// A copy of the stage under the cursor, or `None` past the end.
    pub fn get_current(&self) -> (r: Option<Stage>)
        ensures
            opt_view(r) == self@.current(),
    {
        if self.id < self.iter.len() {
            Some(self.iter[self.id].duplicate())
        } else {
            None
        }
    }

    /// Whether a stage follows the one under the cursor.
    pub fn has_next(&self) -> (r: bool)
        ensures
            r == self@.has_next(),
    {
        self.iter.len() > 0 && self.id < self.iter.len() - 1
    }

    /// Moves the cursor one place forward and returns the stage now under it.
    pub fn next(&mut self) -> (r: Option<Stage>)
        ensures
            final(self)@ == old(self)@.advanced(),
            opt_view(r) == final(self)@.current(),
    {
        if self.id < usize::MAX {
            self.id = self.id + 1;
        }
        self.get_current()
    }

    /// Appends `stage` at the end; the cursor stays where it is.
    pub fn add(&mut self, stage: Stage)
        ensures
            final(self)@ == (StagesView {
                stages: old(self)@.stages.push(stage@),
                cursor: old(self)@.cursor,
            }),
    {
        self.iter.push(stage);
        proof {
            assert(views_of(self.iter@) =~= old(self)@.stages.push(stage@));
        }
    }

    /// Removes the stage at `index`; does nothing when `index` is out of range.
    /// The cursor keeps its number.
    pub fn remove(&mut self, index: usize)
        ensures
            final(self)@ == (StagesView {
                stages: if index < old(self)@.stages.len() {
                    old(self)@.stages.remove(index as int)
                } else {
                    old(self)@.stages
                },
                cursor: old(self)@.cursor,
            }),
    {
        if index < self.iter.len() {
            self.iter.remove(index);
            proof {
                assert(views_of(self.iter@) =~= old(self)@.stages.remove(index as int));
            }
        }
    }

    /// A handle on the stage at `index` for editing it in place, or `None`
    /// when `index` is out of range.
    pub fn get_mut(&mut self, index: usize) -> (r: Option<&mut Stage>)
        ensures
            r.is_some() == (index < old(self)@.stages.len()),
            match r {
                Some(s) => {
                    &&& s@ == old(self)@.stages[index as int]
                    &&& final(self)@ == (StagesView {
                        stages: old(self)@.stages.update(index as int, final(s)@),
                        cursor: old(self)@.cursor,
                    })
                },
                None => final(self)@ == old(self)@,
            },
    {
        if index < self.iter.len() {
            let s = &mut self.iter[index];
            proof {
                lemma_views_of_update(old(self).iter@, index as int, *final(s));
            }
            Some(s)
        } else {
            None
        }
    }

    /// The stages as a slice, for editing them in place; the cursor stays.
    pub fn iter_mut(&mut self) -> (r: &mut [Stage])
        ensures
            views_of(r@) == old(self)@.stages,
            final(self)@ == (StagesView { stages: views_of(final(r)@), cursor: old(self)@.cursor }),
    {
        self.iter.as_mut_slice()
    }

    /// Puts the cursor back on the first stage.
    pub fn reset(&mut self)
        ensures
            final(self)@ == old(self)@.rewound(),
    {
        self.id = 0;
    }

    /// The stages in order, copied; the cursor is not part of it. Feeding
    /// the result to `new` gives back the same stages.
    pub fn snapshot(&self) -> (r: Vec<Stage>)
        ensures
            views_of(r@) == self@.stages,
    {
        let mut out: Vec<Stage> = Vec::new();
        let mut i: usize = 0;
        while i < self.iter.len()
            invariant
                i <= self.iter@.len(),
                out@.len() == i,
                forall|j: int| 0 <= j < i ==> #[trigger] out@[j]@ == self.iter@[j]@,
            decreases self.iter@.len() - i,
        {
            out.push(self.iter[i].duplicate());
            i = i + 1;
        }
        proof {
            assert(views_of(out@) =~= views_of(self.iter@));
        }
        out
    }
}

/// The model of a list stays within machine sizes: it holds at most
/// `usize::MAX` stages and its cursor is at most `usize::MAX`.
pub proof fn lemma_view_bounds(s: &Stages)
    ensures
        s@.stages.len() <= usize::MAX,
        s@.cursor <= usize::MAX,
{
    assert(s.iter@.len() == s.iter.len());
}

/// Replacing one stage replaces its value and leaves the others.
proof fn lemma_views_of_update(s: Seq<Stage>, i: int, x: Stage)
    requires
        0 <= i < s.len(),
    ensures
        views_of(s.update(i, x)) == views_of(s).update(i, x@),
{
    assert(views_of(s.update(i, x)) =~= views_of(s).update(i, x@));
}

/// After the cursor is put back, the current stage of a non-empty list is its
/// first stage.
pub proof fn lemma_rewound_is_first(v: StagesView)
    requires
        v.stages.len() > 0,
    ensures
        v.rewound().current() == Some(v.stages[0]),
{
}

/// The cursor stands on `k` after `k` moves from the first stage, for any `k`
/// up to the length of the list.
proof fn lemma_advanced_cursor(v: StagesView, k: nat)
    requires
        v.cursor == 0,
        k <= v.stages.len() <= usize::MAX,
    ensures
        v.advanced_times(k).cursor == k,
        v.advanced_times(k).stages == v.stages,
    decreases k,
{
    if k > 0 {
        lemma_advanced_cursor(v, (k - 1) as nat);
    }
}

/// From the first stage of a list of `n` stages, `n - 1` moves forward reach
/// the last stage, and one more leaves no current stage.
pub proof fn lemma_advance_to_end(v: StagesView)
    requires
        v.cursor == 0,
        0 < v.stages.len() <= usize::MAX,
    ensures
        v.advanced_times((v.stages.len() - 1) as nat).current() == Some(v.stages.last()),
        v.advanced_times(v.stages.len()).current() is None,
{
    lemma_advanced_cursor(v, (v.stages.len() - 1) as nat);
    lemma_advanced_cursor(v, v.stages.len());
}

/// Saving a list and loading what was saved gives back the same stages, in
/// the same order, with the cursor on the first one.
pub proof fn lemma_saved_then_loaded(s: Stages, saved: Seq<Stage>)
    requires
        views_of(saved) == s@.stages,
    ensures
        StagesView::loaded(saved).stages == s@.stages,
        StagesView::loaded(saved).cursor == 0,
{
}

} // verus!
