//! Progress reporting state for the generation stages.
//!
//! A stage reports `(label, completed, total)` any number of times. The sink
//! remembers the last label it saw, and says for each report what a display
//! has to do: show a new caption, restart its timing, and where the bar stands.

use vstd::prelude::*;
use vstd::string::*;

verus! {

/// The label of the last report, if there was one.
pub struct ProgressState {
    last_label: Option<String>,
}

/// What a display does for one report.
#[derive(Clone, Debug, PartialEq, Eq)]
pub struct ProgressUpdate {
    /// The caption to show, when the label is not the one shown already.
    pub caption: Option<String>,
    /// Whether elapsed-time and ETA tracking starts over: the label replaced
    /// a different one.
    pub reset: bool,
    /// The length of the bar: the report's total.
    pub length: u64,
    /// The position on the bar: the report's completed count, as reported.
    pub position: u64,
}

/// A caption is due when `label` is not the label seen last.
pub open spec fn caption_due(last: Option<Seq<char>>, label: Seq<char>) -> bool {
    last != Some(label)
}

/// A phase boundary: an earlier label is replaced by a different one.
pub open spec fn is_transition(last: Option<Seq<char>>, label: Seq<char>) -> bool {
    last is Some && last->0 != label
}

/// The number of phase boundaries met when `labels` are reported in turn
/// after `last`.
pub open spec fn transitions(last: Option<Seq<char>>, labels: Seq<Seq<char>>) -> nat
    decreases labels.len(),
{
    if labels.len() == 0 {
        0
    } else {
        let here: nat = if is_transition(last, labels[0]) {
            1
        } else {
            0
        };
        here + transitions(Some(labels[0]), labels.drop_first())
    }
}

impl View for ProgressState {
    type V = Option<Seq<char>>;

    closed spec fn view(&self) -> Option<Seq<char>> {
        match self.last_label {
            Some(s) => Some(s@),
            None => None,
        }
    }
}

impl ProgressState {
    /// A sink that has seen no report.
    pub fn new() -> (s: ProgressState)
        ensures
            s@ is None,
    {
        ProgressState { last_label: None }
    }

    /// The label seen last, if any report was taken.
    pub fn last_label(&self) -> (label: Option<String>)
        ensures
            label is Some <==> self@ is Some,
            label is Some ==> label->0@ == self@->0,
    {
        match &self.last_label {
            Some(s) => Some(s.clone()),
            None => None,
        }
    }

    /// Takes one report. The label becomes the last label; the caption is
    /// handed out exactly when it differs from the label seen last (the first
    /// report included), timing restarts exactly at a phase boundary, and the
    /// bar takes `total` and `completed` as they are, whether or not
    /// `completed` went up.
    pub fn observe(&mut self, label: &str, completed: usize, total: usize) -> (update:
        ProgressUpdate)
        ensures
            final(self)@ == Some(label@),
            update.caption is Some <==> caption_due(old(self)@, label@),
            update.caption is Some ==> update.caption->0@ == label@,
            update.reset <==> is_transition(old(self)@, label@),
            update.length == total,
            update.position == completed,
    {
        let fresh = String::from_str(label);
        let (due, reset) = match &self.last_label {
            None => (true, false),
            Some(previous) => {
                let same = *previous == fresh;
                (!same, !same)
            },
        };
        let caption = if due {
            Some(fresh.clone())
        } else {
            None
        };
        self.last_label = Some(fresh);
        ProgressUpdate { caption, reset, length: total as u64, position: completed as u64 }
    }
}

/// A label reported twice in a row is no phase boundary, and a different label
/// after it always is one.
pub proof fn law_reset_only_on_change(last: Option<Seq<char>>, label: Seq<char>, next: Seq<char>)
    ensures
        !is_transition(Some(label), label),
        !caption_due(Some(label), label),
        next != label ==> is_transition(Some(label), next) && caption_due(Some(label), next),
        !is_transition(None, label),
        caption_due(None, label),
{
}

/// Reports under one label, followed by reports under a second, different
/// label, meet exactly one phase boundary, and it lies at the first report of
/// the second label.
pub proof fn law_one_reset_per_change(first: Seq<char>, n: nat, second: Seq<char>, m: nat)
    requires
        first != second,
        n >= 1,
        m >= 1,
    ensures
        transitions(None, Seq::new(n, |i: int| first) + Seq::new(m, |i: int| second)) == 1,
        transitions(None, Seq::new(n, |i: int| first)) == 0,
{
    lemma_same_label_no_transition(None, first, n);
    lemma_transitions_concat(None, Seq::new(n, |i: int| first), Seq::new(m, |i: int| second));
    let mid = Some(first);
    assert(Seq::new(n, |i: int| first).last() == first);
    let tail = Seq::new(m, |i: int| second);
    assert(tail.drop_first() =~= Seq::new((m - 1) as nat, |i: int| second));
    lemma_same_label_no_transition(Some(second), second, (m - 1) as nat);
    assert(is_transition(mid, tail[0]));
}

/// Repeating one label after a state that holds no other label meets no boundary.
pub proof fn lemma_same_label_no_transition(last: Option<Seq<char>>, label: Seq<char>, n: nat)
    requires
        last is None || last == Some(label),
    ensures
        transitions(last, Seq::new(n, |i: int| label)) == 0,
    decreases n,
{
    if n > 0 {
        let all = Seq::new(n, |i: int| label);
        assert(all.drop_first() =~= Seq::new((n - 1) as nat, |i: int| label));
        lemma_same_label_no_transition(Some(label), label, (n - 1) as nat);
    }
}

/// Boundaries add up over consecutive runs of reports: the second run starts
/// from the last label of the first.
pub proof fn lemma_transitions_concat(
    last: Option<Seq<char>>,
    a: Seq<Seq<char>>,
    b: Seq<Seq<char>>,
)
    ensures
        transitions(last, a + b) == transitions(last, a) + transitions(
            if a.len() == 0 {
                last
            } else {
                Some(a.last())
            },
            b,
        ),
    decreases a.len(),
{
    if a.len() == 0 {
        assert(a + b =~= b);
    } else {
        let rest = a.drop_first();
        assert((a + b).drop_first() =~= rest + b);
        assert((a + b)[0] == a[0]);
        lemma_transitions_concat(Some(a[0]), rest, b);
        if rest.len() > 0 {
            assert(rest.last() == a.last());
        }
    }
}

} // verus!
