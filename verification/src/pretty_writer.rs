use vstd::prelude::*;
use vstd::string::StringExecFns;

verus! {

/// The whitespace that precedes a line written at nesting depth `depth`:
/// four spaces per level.
pub open spec fn indent_spaces(depth: nat) -> Seq<char>
    decreases depth,
{
    if depth == 0 {
        Seq::<char>::empty()
    } else {
        indent_spaces((depth - 1) as nat) + "    "@
    }
}

/// The text a single line-write appends: the current indentation, the line
/// itself, and a newline.
pub open spec fn line_text(depth: nat, line: Seq<char>) -> Seq<char> {
    indent_spaces(depth) + line + "\n"@
}

/// Line-oriented output sink. Everything written lands in an in-memory
/// buffer in call order; a nested block raises the indentation depth until
/// the matching end, and an end-of-block marker leaves a blank line for
/// readability.
pub struct PrettyWriter {
    pub buf: String,
    pub depth: usize,
}

impl PrettyWriter {
    /// An empty sink at the outermost depth.
    pub fn new() -> (r: Self)
        ensures
            r.buf@ == Seq::<char>::empty(),
            r.depth == 0,
    {
        PrettyWriter { buf: String::new(), depth: 0 }
    }

    /// Appends `line` at the current depth, terminated by a newline.
    pub fn write_line(&mut self, line: &str)
        ensures
            final(self).buf@ == old(self).buf@ + line_text(old(self).depth as nat, line@),
            final(self).depth == old(self).depth,
    {
        let mut i: usize = 0;
        while i < self.depth
            invariant
                i <= self.depth,
                self.buf@ == old(self).buf@ + indent_spaces(i as nat),
                self.depth == old(self).depth,
            decreases self.depth - i,
        {
            self.buf.append("    ");
            i = i + 1;
        }
        self.buf.append(line);
        self.buf.append("\n");
        proof {
            assert(final(self).buf@ == old(self).buf@ + indent_spaces(old(self).depth as nat)
                + line@ + "\n"@);
            assert(final(self).buf@ == old(self).buf@ + line_text(old(self).depth as nat, line@));
        }
    }

    /// Appends a blank line: the end-of-block spacing marker.
    pub fn eob(&mut self)
        ensures
            final(self).buf@ == old(self).buf@ + "\n"@,
            final(self).depth == old(self).depth,
    {
        self.buf.append("\n");
    }

    /// Enters a nested block: lines written until the matching
    /// `end_block` are indented one level deeper.
    pub fn begin_block(&mut self)
        requires
            old(self).depth < usize::MAX,
        ensures
            final(self).buf@ == old(self).buf@,
            final(self).depth == old(self).depth + 1,
    {
        self.depth = self.depth + 1;
    }

    /// Leaves a nested block, returning to the enclosing depth.
    pub fn end_block(&mut self)
        requires
            old(self).depth > 0,
        ensures
            final(self).buf@ == old(self).buf@,
            final(self).depth == old(self).depth - 1,
    {
        self.depth = self.depth - 1;
    }
}

} // verus!
