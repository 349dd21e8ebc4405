//! The suggestion list and its selection cursor.

use vstd::prelude::*;

verus! {

/// Mathematical model of the suggestion list: the candidate lines and the
/// selection cursor. Selection `0` means the live buffer is selected;
/// selection `k > 0` means candidate `k - 1` is selected.
#[verifier::ext_equal]
pub ghost struct EngModel {
    pub candidates: Seq<Seq<char>>,
    pub selection: nat,
}

impl EngModel {
    /// The selection cursor stays inside the list: `0 <= selection <= len`.
    pub open spec fn wf(self) -> bool {
        self.selection <= self.candidates.len()
    }

    /// The empty list with the buffer selected.
    pub open spec fn empty() -> EngModel {
        EngModel { candidates: Seq::empty(), selection: 0 }
    }
}

/// The list after one step down: a no-op once the last candidate is selected,
/// and in particular a no-op on an empty list.
pub open spec fn selection_down_model(e: EngModel) -> EngModel {
    if e.selection < e.candidates.len() {
        EngModel { candidates: e.candidates, selection: e.selection + 1 }
    } else {
        e
    }
}

/// The list after one step up: a no-op when the buffer is selected.
pub open spec fn selection_up_model(e: EngModel) -> EngModel {
    if e.selection > 0 {
        EngModel { candidates: e.candidates, selection: (e.selection - 1) as nat }
    } else {
        e
    }
}

/// The candidate list and the selection cursor.
pub struct SuggestionEngine {
    pub candidates: Vec<String>,
    pub selection: usize,
}

impl View for SuggestionEngine {
    type V = EngModel;

    open spec fn view(&self) -> EngModel {
        EngModel { candidates: self.candidates.deep_view(), selection: self.selection as nat }
    }
}

impl SuggestionEngine {
    /// An empty candidate list with the buffer selected.
    pub fn new() -> (r: SuggestionEngine)
        ensures
            r@ == EngModel::empty(),
    {
        let r = SuggestionEngine { candidates: Vec::new(), selection: 0 };
        proof {
            assert(r@.candidates =~= Seq::<Seq<char>>::empty());
        }
        r
    }

    /// Steps the selection down; a no-op once the last candidate is selected,
    /// and on an empty list.
    pub fn move_selection_down(&mut self)
        requires
            old(self)@.wf(),
        ensures
            final(self)@.wf(),
            final(self)@ == selection_down_model(old(self)@),
    {
        if self.selection < self.candidates.len() {
            self.selection = self.selection + 1;
        }
    }

    /// Steps the selection up; a no-op when the buffer is selected.
    pub fn move_selection_up(&mut self)
        requires
            old(self)@.wf(),
        ensures
            final(self)@.wf(),
            final(self)@ == selection_up_model(old(self)@),
    {
        if self.selection > 0 {
            self.selection = self.selection - 1;
        }
    }

    /// Empties the candidate list and selects the buffer.
    pub fn clear(&mut self)
        ensures
            final(self)@ == EngModel::empty(),
    {
        self.candidates.clear();
        self.selection = 0;
        proof {
            assert(self@.candidates =~= Seq::<Seq<char>>::empty());
        }
    }

    /// Replaces the candidate list, keeping the buffer selected.
    pub fn set_candidates(&mut self, lines: Vec<String>)
        requires
            old(self)@.selection == 0,
        ensures
            final(self)@.wf(),
            final(self)@ == (EngModel { candidates: lines.deep_view(), selection: 0 }),
    {
        self.candidates = lines;
    }
}

/// Stepping the selection up while the buffer is selected changes nothing.
pub proof fn lemma_selection_up_at_zero_noop(e: EngModel)
    requires
        e.selection == 0,
    ensures
        selection_up_model(e) == e,
{
}

} // verus!
