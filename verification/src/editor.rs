//! Editor-side logic: cursor arithmetic, the indentation rules of the source
//! language's editing actions, and the undo/redo history over buffer
//! snapshots.

use vstd::prelude::*;

use crate::text::{
    contains_pat, contains_pat_exec, find_pat, first_match_at, is_space, is_space_char,
    leading_spaces, lemma_leading_spaces_bounds, str_chars,
};

verus! {

/// The editing actions the keybinding layer dispatches to the editor.
#[derive(Debug, Clone, Copy, PartialEq, Eq, Structural)]
pub enum EditorAction {
    Dedent,
    Indent,
    NewlineIndent,
}

/// A position in the buffer, by line and column.
#[derive(Debug, Clone, Copy, PartialEq, Eq, Structural)]
pub struct Position {
    pub line: usize,
    pub column: usize,
}

/// A cursor: its position, and the other end of the selection if there is
/// one.
#[derive(Debug, Clone, Copy, PartialEq, Eq, Structural)]
pub struct Cursor {
    pub position: Position,
    pub selection: Option<Position>,
}

/// The number of spaces one indent step inserts or removes.
pub const INDENT_SPACES: usize = 4;

/// Counts the whitespace characters at the front of a line.
pub fn get_prefix_spaces(text: &str) -> (r: usize)
    ensures
        r == leading_spaces(text@),
{
    let chars = str_chars(text);
    let n: usize = chars.len();
    proof {
        lemma_leading_spaces_bounds(chars@);
    }
    let mut i: usize = 0;
    while i < n && is_space(chars[i])
        invariant
            n == chars@.len(),
            i <= n,
            forall|j: int| 0 <= j < i ==> is_space_char(chars@[j]),
            i <= leading_spaces(chars@),
        decreases n - i,
    {
        i = i + 1;
        proof {
            lemma_leading_spaces_bounds(chars@);
            if i > leading_spaces(chars@) {
                assert(is_space_char(chars@[leading_spaces(chars@)]));
            }
        }
    }
    proof {
        lemma_leading_spaces_bounds(chars@);
        if i < leading_spaces(chars@) {
            assert(is_space_char(chars@[i as int]));
        }
    }
    i
}

/// Moves a cursor sideways by `by` columns, clamped at the line start, and
/// drops any selection.
pub fn shift_cursor_cols(orig: Cursor, by: isize) -> (r: Cursor)
    requires
        by > isize::MIN,
        by >= 0 ==> orig.position.column + by <= usize::MAX,
    ensures
        r.position.line == orig.position.line,
        r.selection is None,
        by >= 0 ==> r.position.column == orig.position.column + by,
        by < 0 && orig.position.column >= -by ==> r.position.column == orig.position.column + by,
        by < 0 && orig.position.column < -by ==> r.position.column == 0,
{
    let new_column: usize = if by >= 0 {
        orig.position.column + (by as usize)
    } else {
        let back = (-by) as usize;
        if orig.position.column >= back {
            orig.position.column - back
        } else {
            0
        }
    };
    Cursor { position: Position { line: orig.position.line, column: new_column }, selection: None }
}

/// How many spaces a dedent removes from the front of this line: one indent
/// step, or fewer if the line starts with fewer spaces.
pub fn dedent_removals(text: &str) -> (r: usize)
    ensures
        r == if leading_spaces(text@) < INDENT_SPACES {
            leading_spaces(text@)
        } else {
            INDENT_SPACES as int
        },
{
    let prefix = get_prefix_spaces(text);
    if prefix < INDENT_SPACES {
        prefix
    } else {
        INDENT_SPACES
    }
}

/// The column a new line is indented to after a line break on `text` with the
/// cursor at `cursor_column`: the line's own indentation, deepened to just
/// past a grammar arrow with trailing space if the line has one, at least two
/// columns under any grammar arrow, and zero when the break happens at the
/// start of the line.
pub fn newline_indent(text: &str, cursor_column: usize) -> (r: usize)
    ensures
        cursor_column == 0 ==> r == 0,
        cursor_column != 0 ==> {
            let base = leading_spaces(text@);
            let with_arrow = if exists|i: int| first_match_at(text@, "--> "@, i) {
                let i = choose|i: int| first_match_at(text@, "--> "@, i);
                if base < i + 4 {
                    i + 4
                } else {
                    base
                }
            } else {
                base
            };
            r == if contains_pat(text@, "-->"@) && with_arrow < 2 {
                2int
            } else {
                with_arrow
            }
        },
{
    if cursor_column == 0 {
        return 0;
    }
    let mut indent_to = get_prefix_spaces(text);
    let chars = str_chars(text);
    let n: usize = chars.len();
    let arrow_space = str_chars("--> ");
    let arrow = str_chars("-->");
    proof {
        reveal_strlit("--> ");
        assert(arrow_space@.len() == 4);
    }
    if let Some(arrow_index) = find_pat(&chars, &arrow_space) {
        proof {
            assert(arrow_index + 4 <= n);
        }
        let deep = arrow_index + 4;
        if indent_to < deep {
            indent_to = deep;
        }
        proof {
            let i = choose|i: int| first_match_at(text@, "--> "@, i);
            assert(first_match_at(text@, "--> "@, arrow_index as int));
            assert(i == arrow_index as int) by {
                if i < arrow_index as int {
                    assert(!first_match_at(text@, "--> "@, arrow_index as int));
                }
                if i > arrow_index as int {
                    assert(!first_match_at(text@, "--> "@, i));
                }
            }
        }
    }
    if contains_pat_exec(&chars, &arrow) {
        if indent_to < 2 {
            indent_to = 2;
        }
    }
    indent_to
}

/// One buffer snapshot: the whole text and the cursor position it was taken
/// at.
#[derive(Debug)]
pub struct EditorSnapshot {
    pub text: String,
    pub line: usize,
    pub column: usize,
}

impl View for EditorSnapshot {
    type V = (Seq<char>, int, int);

    open spec fn view(&self) -> (Seq<char>, int, int) {
        (self.text@, self.line as int, self.column as int)
    }
}

impl EditorSnapshot {
    /// A snapshot with the given text and position.
    pub fn new(text: String, line: usize, column: usize) -> (r: Self)
        ensures
            r@ == (text@, line as int, column as int),
    {
        EditorSnapshot { text, line, column }
    }

    /// An identical snapshot.
    pub fn duplicate(&self) -> (r: Self)
        ensures
            r@ == self@,
    {
        EditorSnapshot { text: self.text.clone(), line: self.line, column: self.column }
    }
}

/// The undo/redo history: a stack of past snapshots (the last of which is the
/// current state) and a stack of undone snapshots.
#[derive(Debug)]
pub struct UndoStack {
    pub undo: Vec<EditorSnapshot>,
    pub redo: Vec<EditorSnapshot>,
}

/// The views of a snapshot stack.
pub open spec fn stack_views(s: Seq<EditorSnapshot>) -> Seq<(Seq<char>, int, int)> {
    s.map_values(|e: EditorSnapshot| e@)
}

impl UndoStack {
    /// A history whose only state is the initial snapshot.
    pub fn new(initial_content: EditorSnapshot) -> (r: Self)
        ensures
            stack_views(r.undo@) == seq![initial_content@],
            r.redo@.len() == 0,
    {
        let mut undo: Vec<EditorSnapshot> = Vec::new();
        undo.push(initial_content);
        let r = UndoStack { undo, redo: Vec::new() };
        proof {
            assert(stack_views(r.undo@) =~= seq![r.undo@[0]@]);
        }
        r
    }

    /// Records a new state: it goes on the undo stack, and the redo stack is
    /// emptied, since history has forked.
    pub fn push(&mut self, content: EditorSnapshot)
        ensures
            final(self).undo@.len() == old(self).undo@.len() + 1,
            stack_views(final(self).undo@) == stack_views(old(self).undo@).push(content@),
            final(self).redo@.len() == 0,
    {
        self.redo.clear();
        self.undo.push(content);
        proof {
            assert(stack_views(final(self).undo@) =~= stack_views(old(self).undo@).push(
                content@,
            ));
        }
    }

    /// Steps back: the current state moves to the redo stack and the buffer
    /// is set to the state before it.  At the initial state there is nothing
    /// to undo; the buffer is reset to that state and the stacks are kept.
    pub fn undo_into(&mut self, content: &mut EditorSnapshot)
        requires
            old(self).undo@.len() >= 1,
        ensures
            old(self).undo@.len() == 1 ==> {
                &&& final(content)@ == old(self).undo@.last()@
                &&& final(self).undo@ == old(self).undo@
                &&& final(self).redo@ == old(self).redo@
            },
            old(self).undo@.len() > 1 ==> {
                &&& final(content)@ == old(self).undo@[old(self).undo@.len() - 2]@
                &&& final(self).undo@ == old(self).undo@.drop_last()
                &&& stack_views(final(self).redo@) == stack_views(old(self).redo@).push(
                    old(self).undo@.last()@,
                )
            },
    {
        if self.undo.len() <= 1 {
            let last = &self.undo[self.undo.len() - 1];
            *content = last.duplicate();
            return ;
        }
        let undo_layer = self.undo.pop().unwrap();
        self.redo.push(undo_layer);
        let previous = &self.undo[self.undo.len() - 1];
        *content = previous.duplicate();
        proof {
            assert(stack_views(final(self).redo@) =~= stack_views(old(self).redo@).push(
                old(self).undo@.last()@,
            ));
        }
    }

    /// Steps forward again: the most recently undone state, if any, is
    /// restored into the buffer and moved back to the undo stack.
    pub fn redo_into(&mut self, content: &mut EditorSnapshot)
        ensures
            old(self).redo@.len() == 0 ==> {
                &&& *final(content) == *old(content)
                &&& final(self).undo@ == old(self).undo@
                &&& final(self).redo@ == old(self).redo@
            },
            old(self).redo@.len() > 0 ==> {
                &&& final(content)@ == old(self).redo@.last()@
                &&& final(self).redo@ == old(self).redo@.drop_last()
                &&& stack_views(final(self).undo@) == stack_views(old(self).undo@).push(
                    old(self).redo@.last()@,
                )
            },
    {
        if let Some(redo_layer) = self.redo.pop() {
            *content = redo_layer.duplicate();
            self.undo.push(redo_layer);
            proof {
                assert(stack_views(final(self).undo@) =~= stack_views(old(self).undo@).push(
                    old(self).redo@.last()@,
                ));
            }
        }
    }
}

} // verus!
