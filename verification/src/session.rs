//! The whole input session: the editable line together with the suggestion
//! list, and the dispatcher that maps one key event to one state change.
//!
//! Running the query command itself is I/O and stays with the caller: the
//! dispatcher answers with the [`Action`] the caller must perform, and
//! [`Suggester::apply_query_result`] takes the finished command's classified
//! outcome back into the state.

use vstd::prelude::*;

use crate::buffer::BufModel;
use crate::buffer::TextBuffer;
use crate::buffer::delete_model;
use crate::buffer::end_model;
use crate::buffer::home_model;
use crate::buffer::insert_model;
use crate::buffer::left_model;
use crate::buffer::right_model;
use crate::buffer::word_backward_model;
use crate::buffer::word_forward_model;
use crate::engine::EngModel;
use crate::engine::SuggestionEngine;
use crate::engine::selection_down_model;
use crate::engine::selection_up_model;
use crate::executor::ExecError;
use crate::strings::chars_of_str;
use crate::strings::lines_model;
use crate::strings::lines_of;
use crate::strings::string_of_chars;

verus! {

/// Mathematical model of a session: the line and the suggestion list.
#[verifier::ext_equal]
pub ghost struct SugModel {
    pub buf: BufModel,
    pub eng: EngModel,
}

impl SugModel {
    /// Both cursors stay inside their sequences.
    pub open spec fn wf(self) -> bool {
        self.buf.wf() && self.eng.wf()
    }
}

/// The session after promoting the selection into the line: when a candidate
/// is selected, it replaces the line's characters, the cursor moves to its
/// end, and the buffer becomes selected again; otherwise nothing changes.
pub open spec fn promote_model(s: SugModel) -> SugModel {
    if s.eng.selection == 0 {
        s
    } else {
        SugModel {
            buf: BufModel {
                chars: s.eng.candidates[s.eng.selection - 1],
                cursor: s.eng.candidates[s.eng.selection - 1].len(),
            },
            eng: EngModel { candidates: s.eng.candidates, selection: 0 },
        }
    }
}

/// The session after a direct character insertion: promote first, insert at
/// the cursor, then clear the candidates for the coming re-query.
pub open spec fn char_insert_model(s: SugModel, c: char) -> SugModel {
    SugModel { buf: insert_model(promote_model(s).buf, c), eng: EngModel::empty() }
}

/// The session after a direct deletion before the cursor: promote first,
/// delete, then clear the candidates for the coming re-query.
pub open spec fn char_delete_model(s: SugModel) -> SugModel {
    SugModel { buf: delete_model(promote_model(s).buf), eng: EngModel::empty() }
}

/// The value the session displays and queries with: the line when the buffer
/// is selected, else the selected candidate.
pub open spec fn display_model(s: SugModel) -> Seq<char> {
    if s.eng.selection == 0 {
        s.buf.chars
    } else {
        s.eng.candidates[s.eng.selection - 1]
    }
}

/// One key event, as the dispatcher classifies the raw terminal input.
/// Unrecognized input falls into `Ignored`.
pub enum KeyEvent {
    /// A printable character to insert.
    Printable(char),
    /// Delete before the cursor.
    Backspace,
    /// Cursor one step left.
    Left,
    /// Cursor one step right.
    Right,
    /// Cursor to the left edge.
    Home,
    /// Cursor to the right edge.
    End,
    /// Cursor to the start of the previous word.
    WordBackward,
    /// Cursor past the next word.
    WordForward,
    /// Selection one step down.
    SelectionDown,
    /// Selection one step up.
    SelectionUp,
    /// Submit the displayed value.
    Enter,
    /// End the session immediately.
    Interrupt,
    /// Anything the dispatcher does not map.
    Ignored,
}

/// What the caller must do after a dispatched event.
pub enum Action {
    /// Re-run the query command with the edited line, apply its outcome, then
    /// redraw.
    Requery,
    /// Redraw only.
    Redraw,
    /// Take the displayed value, optionally run the finishing command, and
    /// end the input cycle.
    Finish,
    /// End the session at once, without the finishing command.
    Quit,
    /// Do nothing.
    Ignore,
}

/// The state change and the required action for each key event.
pub open spec fn dispatch_model(s: SugModel, ev: KeyEvent) -> (SugModel, Action) {
    match ev {
        KeyEvent::Printable(c) => (char_insert_model(s, c), Action::Requery),
        KeyEvent::Backspace => (char_delete_model(s), Action::Requery),
        KeyEvent::Left => (SugModel { buf: left_model(s.buf), eng: s.eng }, Action::Redraw),
        KeyEvent::Right => (SugModel { buf: right_model(s.buf), eng: s.eng }, Action::Redraw),
        KeyEvent::Home => (SugModel { buf: home_model(s.buf), eng: s.eng }, Action::Redraw),
        KeyEvent::End => (SugModel { buf: end_model(s.buf), eng: s.eng }, Action::Redraw),
        KeyEvent::WordBackward => (
            SugModel { buf: word_backward_model(s.buf), eng: s.eng },
            Action::Redraw,
        ),
        KeyEvent::WordForward => (
            SugModel { buf: word_forward_model(s.buf), eng: s.eng },
            Action::Redraw,
        ),
        KeyEvent::SelectionDown => (
            SugModel { buf: s.buf, eng: selection_down_model(s.eng) },
            Action::Redraw,
        ),
        KeyEvent::SelectionUp => (
            SugModel { buf: s.buf, eng: selection_up_model(s.eng) },
            Action::Redraw,
        ),
        KeyEvent::Enter => (s, Action::Finish),
        KeyEvent::Interrupt => (s, Action::Quit),
        KeyEvent::Ignored => (s, Action::Ignore),
    }
}

/// The session state: the editable line and the suggestion list.
pub struct Suggester {
    pub buffer: TextBuffer,
    pub engine: SuggestionEngine,
}

impl View for Suggester {
    type V = SugModel;

    open spec fn view(&self) -> SugModel {
        SugModel { buf: self.buffer@, eng: self.engine@ }
    }
}

impl Suggester {
    /// An empty session: empty line, no candidates, buffer selected.
    pub fn new() -> (r: Suggester)
        ensures
            r@.wf(),
            r@.buf.chars.len() == 0,
            r@.buf.cursor == 0,
            r@.eng == EngModel::empty(),
    {
        Suggester { buffer: TextBuffer::new(), engine: SuggestionEngine::new() }
    }

    /// Copies the selected candidate into the line, puts the cursor at its
    /// end and selects the buffer again; a no-op when the buffer is already
    /// selected.
    pub fn promote_selection_on_edit(&mut self)
        requires
            old(self)@.wf(),
        ensures
            final(self)@.wf(),
            final(self)@ == promote_model(old(self)@),
    {
        if self.engine.selection != 0 {
            let sel: usize = self.engine.selection;
            proof {
                assert(self@.eng.candidates[sel - 1] == self.engine.candidates@[sel - 1]@);
            }
            let chars = chars_of_str(self.engine.candidates[sel - 1].as_str());
            self.buffer.cursor = chars.len();
            self.buffer.characters = chars;
            self.engine.selection = 0;
        }
    }

    /// Inserts a printable character: promotes the selection if one is
    /// active, inserts at the cursor, and clears the candidates for the
    /// coming re-query.
    pub fn char_insert(&mut self, c: char)
        requires
            old(self)@.wf(),
            promote_model(old(self)@).buf.chars.len() < usize::MAX,
        ensures
            final(self)@.wf(),
            final(self)@ == char_insert_model(old(self)@, c),
    {
        self.promote_selection_on_edit();
        self.buffer.insert(c);
        self.engine.clear();
    }

    /// Deletes before the cursor: promotes the selection if one is active,
    /// deletes, and clears the candidates for the coming re-query.
    pub fn char_delete(&mut self)
        requires
            old(self)@.wf(),
        ensures
            final(self)@.wf(),
            final(self)@ == char_delete_model(old(self)@),
    {
        self.promote_selection_on_edit();
        self.buffer.delete_before_cursor();
        self.engine.clear();
    }

    /// Steps the selection down; a no-op once the last candidate is selected,
    /// and on an empty list.
    pub fn suggestion_down(&mut self)
        requires
            old(self)@.wf(),
        ensures
            final(self)@.wf(),
            final(self)@.buf == old(self)@.buf,
            final(self)@.eng == selection_down_model(old(self)@.eng),
    {
        self.engine.move_selection_down();
    }

    /// Steps the selection up; a no-op when the buffer is selected.
    pub fn suggestion_up(&mut self)
        requires
            old(self)@.wf(),
        ensures
            final(self)@.wf(),
            final(self)@.buf == old(self)@.buf,
            final(self)@.eng == selection_up_model(old(self)@.eng),
    {
        self.engine.move_selection_up();
    }

    /// Hands out the displayed value: the line when the buffer is selected,
    /// else the selected candidate.
    pub fn display(&self) -> (r: String)
        requires
            self@.wf(),
        ensures
            r@ == display_model(self@),
    {
        if self.engine.selection == 0 {
            string_of_chars(&self.buffer.characters)
        } else {
            let sel: usize = self.engine.selection;
            proof {
                assert(self@.eng.candidates[sel - 1] == self.engine.candidates@[sel - 1]@);
            }
            self.engine.candidates[sel - 1].clone()
        }
    }

    /// Takes the classified outcome of the re-run query back into the state:
    /// on success the output's lines become the candidates, in order; on any
    /// failure the candidates are left as they are (empty after an edit) and
    /// the failure text is handed back for the diagnostic channel.
    pub fn apply_query_result(&mut self, outcome: Result<String, ExecError>) -> (diag: Option<
        String,
    >)
        requires
            old(self)@.wf(),
            old(self)@.eng.selection == 0,
        ensures
            final(self)@.wf(),
            final(self)@.buf == old(self)@.buf,
            final(self)@.eng.selection == 0,
            outcome matches Ok(out) ==> {
                &&& final(self)@.eng.candidates == lines_model(out@)
                &&& diag is None
            },
            outcome matches Err(e) ==> {
                &&& final(self)@.eng.candidates == old(self)@.eng.candidates
                &&& diag matches Some(d) && d@ == e.text_model()
            },
    {
        match outcome {
            Ok(out) => {
                let lines = lines_of(out.as_str());
                self.engine.set_candidates(lines);
                None
            },
            Err(e) => Some(e.text()),
        }
    }

    /// Applies one key event: mutates the state as the action table says and
    /// answers with what the caller must do next.
    pub fn dispatch(&mut self, ev: KeyEvent) -> (a: Action)
        requires
            old(self)@.wf(),
            ev is Printable ==> promote_model(old(self)@).buf.chars.len() < usize::MAX,
        ensures
            final(self)@.wf(),
            (final(self)@, a) == dispatch_model(old(self)@, ev),
    {
        match ev {
            KeyEvent::Printable(c) => {
                self.char_insert(c);
                Action::Requery
            },
            KeyEvent::Backspace => {
                self.char_delete();
                Action::Requery
            },
            KeyEvent::Left => {
                self.buffer.move_left();
                Action::Redraw
            },
            KeyEvent::Right => {
                self.buffer.move_right();
                Action::Redraw
            },
            KeyEvent::Home => {
                self.buffer.move_home();
                Action::Redraw
            },
            KeyEvent::End => {
                self.buffer.move_end();
                Action::Redraw
            },
            KeyEvent::WordBackward => {
                self.buffer.move_word_backward();
                Action::Redraw
            },
            KeyEvent::WordForward => {
                self.buffer.move_word_forward();
                Action::Redraw
            },
            KeyEvent::SelectionDown => {
                self.engine.move_selection_down();
                Action::Redraw
            },
            KeyEvent::SelectionUp => {
                self.engine.move_selection_up();
                Action::Redraw
            },
            KeyEvent::Enter => Action::Finish,
            KeyEvent::Interrupt => Action::Quit,
            KeyEvent::Ignored => Action::Ignore,
        }
    }
}

} // verus!
