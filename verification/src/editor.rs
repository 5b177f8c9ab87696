//! Single-line text editor: a character buffer with a cursor that always
//! stays inside the buffer bounds. Both the branch-name entry flow and the
//! first-run setup flow drive this editor.

use vstd::prelude::*;
use crate::strutil::push_char;

verus! {

/// Mathematical model of the buffer: the text and the cursor offset.
pub ghost struct BufModel {
    pub text: Seq<char>,
    pub cursor: int,
}

impl BufModel {
    /// The cursor sits between 0 and the text length, inclusive.
    pub open spec fn wf(self) -> bool {
        0 <= self.cursor <= self.text.len()
    }
}

/// One editing operation on the buffer.
pub enum EditOp {
    Insert(char),
    Backspace,
    DeleteForward,
    MoveLeft,
    MoveRight,
    MoveHome,
    MoveEnd,
}

/// What one operation does to the buffer: insertion happens at the cursor,
/// removal is a no-op at the relevant boundary, and the moves clamp to the
/// buffer bounds.
pub open spec fn apply_edit(b: BufModel, op: EditOp) -> BufModel {
    match op {
        EditOp::Insert(c) => BufModel { text: b.text.insert(b.cursor, c), cursor: b.cursor + 1 },
        EditOp::Backspace => if b.cursor > 0 {
            BufModel { text: b.text.remove(b.cursor - 1), cursor: b.cursor - 1 }
        } else {
            b
        },
        EditOp::DeleteForward => if b.cursor < b.text.len() {
            BufModel { text: b.text.remove(b.cursor), cursor: b.cursor }
        } else {
            b
        },
        EditOp::MoveLeft => if b.cursor > 0 {
            BufModel { text: b.text, cursor: b.cursor - 1 }
        } else {
            b
        },
        EditOp::MoveRight => if b.cursor < b.text.len() {
            BufModel { text: b.text, cursor: b.cursor + 1 }
        } else {
            b
        },
        EditOp::MoveHome => BufModel { text: b.text, cursor: 0 },
        EditOp::MoveEnd => BufModel { text: b.text, cursor: b.text.len() as int },
    }
}

/// The buffer after a whole sequence of operations, applied front to back.
pub open spec fn apply_edits(b: BufModel, ops: Seq<EditOp>) -> BufModel
    decreases ops.len(),
{
    if ops.len() == 0 {
        b
    } else {
        apply_edits(apply_edit(b, ops[0]), ops.drop_first())
    }
}

/// One operation keeps the cursor inside the buffer bounds.
pub proof fn lemma_edit_preserves_wf(b: BufModel, op: EditOp)
    requires
        b.wf(),
    ensures
        apply_edit(b, op).wf(),
{
}

/// For every sequence of editing operations on a well-formed buffer,
/// `0 <= cursor <= length` holds after every operation.
pub proof fn lemma_edits_preserve_bounds(b: BufModel, ops: Seq<EditOp>)
    requires
        b.wf(),
    ensures
        forall|k: int|
            0 <= k <= ops.len() ==> (#[trigger] apply_edits(b, ops.subrange(0, k))).wf(),
    decreases ops.len(),
{
    assert(ops.subrange(0, 0) =~= Seq::<EditOp>::empty());
    if ops.len() > 0 {
        lemma_edit_preserves_wf(b, ops[0]);
        let b1 = apply_edit(b, ops[0]);
        let rest = ops.drop_first();
        lemma_edits_preserve_bounds(b1, rest);
        assert forall|k: int| 1 <= k <= ops.len() implies (#[trigger] apply_edits(
            b,
            ops.subrange(0, k),
        )).wf() by {
            let pre = ops.subrange(0, k);
            assert(pre.drop_first() =~= rest.subrange(0, k - 1));
            assert(apply_edits(b1, rest.subrange(0, k - 1)).wf());
        }
    }
}

/// The editable single-line buffer.
pub struct InputBuffer {
    pub text: Vec<char>,
    pub cursor: usize,
}

impl View for InputBuffer {
    type V = BufModel;

    open spec fn view(&self) -> BufModel {
        BufModel { text: self.text@, cursor: self.cursor as int }
    }
}

impl InputBuffer {
    pub open spec fn wf(&self) -> bool {
        self@.wf()
    }

    pub fn new() -> (b: InputBuffer)
        ensures
            b.wf(),
            b@.text.len() == 0,
            b@.cursor == 0,
    {
        InputBuffer { text: Vec::new(), cursor: 0 }
    }

    pub fn clear(&mut self)
        ensures
            final(self).wf(),
            final(self)@.text.len() == 0,
            final(self)@.cursor == 0,
    {
        self.text.clear();
        self.cursor = 0;
    }

    pub fn len(&self) -> (n: usize)
        ensures
            n == self@.text.len(),
    {
        self.text.len()
    }

    pub fn is_empty(&self) -> (r: bool)
        ensures
            r == (self@.text.len() == 0),
    {
        self.text.len() == 0
    }

    pub fn insert(&mut self, c: char)
        requires
            old(self).wf(),
        ensures
            final(self).wf(),
            final(self)@ == apply_edit(old(self)@, EditOp::Insert(c)),
    {
        self.text.insert(self.cursor, c);
        let n = self.text.len();
        proof {
            assert(self.cursor < n);
        }
        self.cursor = self.cursor + 1;
    }

    pub fn backspace(&mut self)
        requires
            old(self).wf(),
        ensures
            final(self).wf(),
            final(self)@ == apply_edit(old(self)@, EditOp::Backspace),
    {
        if self.cursor > 0 {
            self.cursor = self.cursor - 1;
            self.text.remove(self.cursor);
        }
    }

    pub fn delete_forward(&mut self)
        requires
            old(self).wf(),
        ensures
            final(self).wf(),
            final(self)@ == apply_edit(old(self)@, EditOp::DeleteForward),
    {
        if self.cursor < self.text.len() {
            self.text.remove(self.cursor);
        }
    }

    pub fn move_left(&mut self)
        requires
            old(self).wf(),
        ensures
            final(self).wf(),
            final(self)@ == apply_edit(old(self)@, EditOp::MoveLeft),
    {
        if self.cursor > 0 {
            self.cursor = self.cursor - 1;
        }
    }

    pub fn move_right(&mut self)
        requires
            old(self).wf(),
        ensures
            final(self).wf(),
            final(self)@ == apply_edit(old(self)@, EditOp::MoveRight),
    {
        if self.cursor < self.text.len() {
            self.cursor = self.cursor + 1;
        }
    }

    pub fn move_home(&mut self)
        requires
            old(self).wf(),
        ensures
            final(self).wf(),
            final(self)@ == apply_edit(old(self)@, EditOp::MoveHome),
    {
        self.cursor = 0;
    }

    pub fn move_end(&mut self)
        requires
            old(self).wf(),
        ensures
            final(self).wf(),
            final(self)@ == apply_edit(old(self)@, EditOp::MoveEnd),
    {
        self.cursor = self.text.len();
    }

    /// The buffer contents as an owned string.
    pub fn text_string(&self) -> (r: String)
        ensures
            r@ == self@.text,
    {
        let mut r = String::new();
        let n = self.text.len();
        let mut i: usize = 0;
        while i < n
            invariant
                i <= n,
                n == self.text@.len(),
                r@ == self.text@.subrange(0, i as int),
            decreases n - i,
        {
            let c = self.text[i];
            push_char(&mut r, c);
            proof {
                assert(self.text@.subrange(0, i as int).push(c) =~= self.text@.subrange(
                    0,
                    i as int + 1,
                ));
            }
            i = i + 1;
        }
        proof {
            assert(self.text@.subrange(0, n as int) =~= self.text@);
        }
        r
    }
}

} // verus!
