//! The deterministic redraw: the exact character stream written to the
//! terminal after every event, using only relative cursor movement.

use vstd::prelude::*;
use vstd::string::StringExecFns;

use crate::session::SugModel;
use crate::session::Suggester;
use crate::session::display_model;
use crate::strings::chars_of_str;
use crate::term::clear_after_model;
use crate::term::cursor_right_model;
use crate::term::cursor_up_model;
use crate::term::term_clear_after;
use crate::term::term_cursor_right;
use crate::term::term_cursor_up;

verus! {

/// How many candidate rows the popup shows at most.
pub const POPUP_SIZE: usize = 5;

/// How many candidate rows a redraw writes: every candidate, up to
/// `POPUP_SIZE`.
pub open spec fn rows_shown(s: SugModel) -> nat {
    if s.eng.candidates.len() < POPUP_SIZE as nat {
        s.eng.candidates.len()
    } else {
        POPUP_SIZE as nat
    }
}

/// One popup row: the one-character marker column, the candidate, a line
/// break. The marker is present exactly on the selected row.
pub open spec fn row_model(cand: Seq<char>, marked: bool) -> Seq<char> {
    (if marked {
        ">"@
    } else {
        " "@
    }) + cand + "\r\n"@
}

/// The first `n` popup rows, in candidate order. The row of candidate `i`
/// carries the marker exactly when the selection cursor names that candidate,
/// that is when `selection == i + 1`.
pub open spec fn rows_model(cands: Seq<Seq<char>>, selection: nat, n: nat) -> Seq<char>
    decreases n,
{
    if n == 0 {
        Seq::empty()
    } else {
        rows_model(cands, selection, (n - 1) as nat) + row_model(
            cands[n - 1],
            selection == n,
        )
    }
}

/// The column the terminal cursor must come to rest in, counted from the end
/// of the prompt: the buffer cursor while the buffer is selected, else the end
/// of the displayed candidate (candidates are not cursor-addressable).
pub open spec fn effective_cursor_col(s: SugModel) -> nat {
    if s.eng.selection == 0 {
        s.buf.cursor
    } else {
        display_model(s).len()
    }
}

/// The whole redraw: return to column zero and clear to the end of the
/// screen; the prompt and the displayed value with a line break; the popup
/// rows; then the cursor moved back up by one more than the rows written and
/// right to the prompt plus the effective cursor column.
pub open spec fn render_model(s: SugModel, prompt: Seq<char>) -> Seq<char> {
    "\r"@ + clear_after_model() + prompt + display_model(s) + "\r\n"@ + rows_model(
        s.eng.candidates,
        s.eng.selection,
        rows_shown(s),
    ) + cursor_up_model((rows_shown(s) + 1) as u16) + cursor_right_model(
        (prompt.len() + effective_cursor_col(s)) as u16,
    )
}

/// Produces the character stream of one full redraw.
pub fn render(s: &Suggester, prompt: &str) -> (out: String)
    requires
        s@.wf(),
        prompt@.len() + effective_cursor_col(s@) <= u16::MAX,
    ensures
        out@ == render_model(s@, prompt@),
{
    let mut out = "\r".to_owned();
    out.append(term_clear_after().as_str());
    out.append(prompt);
    let disp = s.display();
    out.append(disp.as_str());
    out.append("\r\n");
    let ghost head = out@;

    let n: usize = if s.engine.candidates.len() < POPUP_SIZE {
        s.engine.candidates.len()
    } else {
        POPUP_SIZE
    };
    assert(n as nat == rows_shown(s@));
    let mut i: usize = 0;
    while i < n
        invariant
            i <= n,
            n <= s.engine.candidates.len(),
            n as nat == rows_shown(s@),
            s@.wf(),
            out@ == head + rows_model(s@.eng.candidates, s@.eng.selection, i as nat),
        decreases n - i,
    {
        let ghost out_before = out@;
        if i + 1 == s.engine.selection {
            out.append(">");
        } else {
            out.append(" ");
        }
        proof {
            assert(s@.eng.candidates[i as int] == s.engine.candidates@[i as int]@);
        }
        out.append(s.engine.candidates[i].as_str());
        out.append("\r\n");
        proof {
            assert(out@ =~= out_before + row_model(
                s@.eng.candidates[i as int],
                s@.eng.selection == i + 1,
            ));
            assert(out@ =~= head + rows_model(s@.eng.candidates, s@.eng.selection, (i + 1) as nat));
        }
        i = i + 1;
    }

    let up: u16 = (n + 1) as u16;
    out.append(term_cursor_up(up).as_str());

    let prompt_cols = chars_of_str(prompt).len();
    let col: usize = if s.engine.selection == 0 {
        s.buffer.cursor
    } else {
        chars_of_str(disp.as_str()).len()
    };
    assert(prompt_cols + col == prompt@.len() + effective_cursor_col(s@));
    let right: u16 = (prompt_cols + col) as u16;
    out.append(term_cursor_right(right).as_str());
    proof {
        assert(out@ =~= render_model(s@, prompt@));
    }
    out
}

} // verus!
