//! Conditional directives (`!if`, `!else if`, `!else`, `!endif`): the lines
//! of a file as a tree of blocks, and the evaluation of a condition.

use vstd::prelude::*;
use crate::text::{
    chars_of, replace, replace_str, starts_with, starts_with_at, string_of, trim,
    trim_start_matches, trim_start_matches_str, trim_str,
};
use vstd::string::StrSliceExecFns;

verus! {

/// A block of lines: a conditional with its condition and the blocks it
/// guards, or a plain statement.
#[derive(Debug)]
pub enum Block {
    /// `!if <condition>` and the blocks up to the matching directive.
    If(String, Vec<Block>),
    /// `!else if <condition>` and the blocks up to the matching directive.
    ElseIf(String, Vec<Block>),
    /// `!else` and the blocks up to `!endif`.
    Else(Vec<Block>),
    /// Any other line, trimmed.
    Statement(String),
}

/// The text content of a block.
pub enum BlockView {
    /// `!if <condition>` and its blocks.
    If(Seq<char>, Seq<BlockView>),
    /// `!else if <condition>` and its blocks.
    ElseIf(Seq<char>, Seq<BlockView>),
    /// `!else` and its blocks.
    Else(Seq<BlockView>),
    /// A statement.
    Statement(Seq<char>),
}

impl Block {
    /// The text content of the block.
    pub open spec fn view_block(self) -> BlockView
        decreases self,
    {
        match self {
            Block::If(c, v) => BlockView::If(c@, blocks_view(v@)),
            Block::ElseIf(c, v) => BlockView::ElseIf(c@, blocks_view(v@)),
            Block::Else(v) => BlockView::Else(blocks_view(v@)),
            Block::Statement(s) => BlockView::Statement(s@),
        }
    }
}

/// The text content of a list of blocks.
pub open spec fn blocks_view(v: Seq<Block>) -> Seq<BlockView>
    decreases v,
{
    if v.len() == 0 {
        Seq::<BlockView>::empty()
    } else {
        blocks_view(v.drop_last()).push(v.last().view_block())
    }
}

/// `n` held between `lo` and `hi`.
pub open spec fn clamp(n: int, lo: int, hi: int) -> int {
    if n < lo {
        lo
    } else if n > hi {
        hi
    } else {
        n
    }
}

/// The blocks read from `lines[pos..]` after the blocks `acc`, and the position
/// after them. Blank lines are skipped; `!if`, `!else if` and `!else` open a
/// block whose contents are read in the same way from the next line (the
/// condition is the trimmed line without the directive, blanks before it kept);
/// `!endif` ends the list; a statement ends it too when the next line is an
/// `!else` or `!else if` directive, or when no line follows.
pub open spec fn parse_blocks_from(lines: Seq<Seq<char>>, pos: int, acc: Seq<BlockView>) -> (
    Seq<BlockView>,
    int,
)
    decreases lines.len() - pos,
{
    if pos < 0 || pos >= lines.len() {
        (acc, pos)
    } else {
        let line = trim(lines[pos]);
        if line.len() == 0 {
            parse_blocks_from(lines, pos + 1, acc)
        } else if starts_with(line, "!if"@) {
            let inner = parse_blocks_from(lines, pos + 1, Seq::<BlockView>::empty());
            let next = clamp(inner.1, pos + 1, lines.len() as int);
            parse_blocks_from(
                lines,
                next,
                acc.push(BlockView::If(trim_start_matches(line, "!if"@), inner.0)),
            )
        } else if starts_with(line, "!else if"@) {
            let inner = parse_blocks_from(lines, pos + 1, Seq::<BlockView>::empty());
            let next = clamp(inner.1, pos + 1, lines.len() as int);
            parse_blocks_from(
                lines,
                next,
                acc.push(BlockView::ElseIf(trim_start_matches(line, "!else if"@), inner.0)),
            )
        } else if starts_with(line, "!else"@) {
            let inner = parse_blocks_from(lines, pos + 1, Seq::<BlockView>::empty());
            let next = clamp(inner.1, pos + 1, lines.len() as int);
            parse_blocks_from(lines, next, acc.push(BlockView::Else(inner.0)))
        } else if starts_with(line, "!endif"@) {
            (acc, pos + 1)
        } else {
            let acc2 = acc.push(BlockView::Statement(line));
            if pos + 1 >= lines.len() {
                (acc2, pos + 1)
            } else if starts_with(trim(lines[pos + 1]), "!else"@) {
                (acc2, pos + 1)
            } else {
                parse_blocks_from(lines, pos + 1, acc2)
            }
        }
    }
}

/// The blocks read from `lines[pos..]` after `acc` by the second reader: like
/// `parse_blocks_from`, but conditions are trimmed, an `!else if` or `!else`
/// block ends the list after it, and a statement never does.
pub open spec fn parse_blocks2_from(lines: Seq<Seq<char>>, pos: int, acc: Seq<BlockView>) -> (
    Seq<BlockView>,
    int,
)
    decreases lines.len() - pos,
{
    if pos < 0 || pos >= lines.len() {
        (acc, pos)
    } else {
        let line = trim(lines[pos]);
        if line.len() == 0 {
            parse_blocks2_from(lines, pos + 1, acc)
        } else if starts_with(line, "!if"@) {
            let inner = parse_blocks_from(lines, pos + 1, Seq::<BlockView>::empty());
            let next = clamp(inner.1, pos + 1, lines.len() as int);
            parse_blocks2_from(
                lines,
                next,
                acc.push(BlockView::If(trim(trim_start_matches(line, "!if"@)), inner.0)),
            )
        } else if starts_with(line, "!else if"@) {
            let inner = parse_blocks_from(lines, pos + 1, Seq::<BlockView>::empty());
            (acc.push(BlockView::ElseIf(trim(trim_start_matches(line, "!else if"@)), inner.0)), inner.1)
        } else if starts_with(line, "!else"@) {
            let inner = parse_blocks_from(lines, pos + 1, Seq::<BlockView>::empty());
            (acc.push(BlockView::Else(inner.0)), inner.1)
        } else if starts_with(line, "!endif"@) {
            (acc, pos + 1)
        } else {
            parse_blocks2_from(lines, pos + 1, acc.push(BlockView::Statement(line)))
        }
    }
}

/// Whether a trimmed line is a conditional directive.
pub open spec fn is_directive(t: Seq<char>) -> bool {
    starts_with(t, "!if"@) || starts_with(t, "!else if"@) || starts_with(t, "!else"@) || starts_with(
        t,
        "!endif"@,
    )
}

/// The statements among `lines[a..b]`: every line that is neither blank nor
/// a directive, trimmed, in order.
pub open spec fn statements_between(lines: Seq<Seq<char>>, a: int, b: int) -> Seq<Seq<char>>
    decreases b - a,
{
    if a >= b {
        Seq::<Seq<char>>::empty()
    } else {
        let t = trim(lines[a]);
        (if t.len() > 0 && !is_directive(t) {
            seq![t]
        } else {
            Seq::<Seq<char>>::empty()
        }) + statements_between(lines, a + 1, b)
    }
}

/// The statements of a block, in pre-order: the block's own statement, or
/// those of the blocks it guards.
pub open spec fn block_statements(b: BlockView) -> Seq<Seq<char>>
    decreases b,
{
    match b {
        BlockView::If(_, ch) => statements_of(ch),
        BlockView::ElseIf(_, ch) => statements_of(ch),
        BlockView::Else(ch) => statements_of(ch),
        BlockView::Statement(t) => seq![t],
    }
}

/// The statements of a list of blocks, in pre-order.
pub open spec fn statements_of(bs: Seq<BlockView>) -> Seq<Seq<char>>
    decreases bs,
{
    if bs.len() == 0 {
        Seq::<Seq<char>>::empty()
    } else {
        statements_of(bs.drop_last()) + block_statements(bs.last())
    }
}

/// Statements of consecutive ranges of lines join up.
proof fn lemma_statements_between_concat(lines: Seq<Seq<char>>, a: int, b: int, c: int)
    requires
        a <= b <= c,
    ensures
        statements_between(lines, a, b) + statements_between(lines, b, c) == statements_between(
            lines,
            a,
            c,
        ),
    decreases b - a,
{
    if a < b {
        lemma_statements_between_concat(lines, a + 1, b, c);
        let t = trim(lines[a]);
        let first: Seq<Seq<char>> = if t.len() > 0 && !is_directive(t) {
            seq![t]
        } else {
            Seq::<Seq<char>>::empty()
        };
        assert(first + statements_between(lines, a + 1, b) + statements_between(lines, b, c)
            =~= first + (statements_between(lines, a + 1, b) + statements_between(lines, b, c)));
    } else {
        assert(statements_between(lines, a, b) + statements_between(lines, b, c) =~= statements_between(
            lines,
            b,
            c,
        ));
    }
}

/// The statements of a list grown by one block.
proof fn lemma_statements_of_push(acc: Seq<BlockView>, b: BlockView)
    ensures
        statements_of(acc.push(b)) == statements_of(acc) + block_statements(b),
{
    assert(acc.push(b).drop_last() =~= acc);
}

/// Reading blocks keeps the statements of the lines it reads, in their order:
/// the statements of the blocks read, in pre-order, are those of the blocks
/// already held followed by every line of `lines[pos..]` up to the position
/// reached that is neither blank nor a directive, trimmed.
pub proof fn lemma_blocks_keep_statements(lines: Seq<Seq<char>>, pos: int, acc: Seq<BlockView>)
    requires
        0 <= pos <= lines.len(),
    ensures
        pos <= parse_blocks_from(lines, pos, acc).1 <= lines.len(),
        statements_of(parse_blocks_from(lines, pos, acc).0) == statements_of(acc) + statements_between(
            lines,
            pos,
            parse_blocks_from(lines, pos, acc).1,
        ),
    decreases lines.len() - pos,
{
    if pos >= lines.len() {
        assert(statements_of(acc) + statements_between(lines, pos, pos) =~= statements_of(acc));
    } else {
        let line = trim(lines[pos]);
        let r = parse_blocks_from(lines, pos, acc);
        if line.len() == 0 {
            lemma_blocks_keep_statements(lines, pos + 1, acc);
            lemma_statements_between_concat(lines, pos, pos + 1, r.1);
            assert(statements_between(lines, pos, pos + 1) =~= Seq::<Seq<char>>::empty());
        } else if starts_with(line, "!if"@) || starts_with(line, "!else if"@) || starts_with(
            line,
            "!else"@,
        ) {
            let inner = parse_blocks_from(lines, pos + 1, Seq::<BlockView>::empty());
            lemma_blocks_keep_statements(lines, pos + 1, Seq::<BlockView>::empty());
            assert(statements_of(Seq::<BlockView>::empty()) + statements_between(lines, pos + 1, inner.1)
                =~= statements_between(lines, pos + 1, inner.1));
            let b = if starts_with(line, "!if"@) {
                BlockView::If(trim_start_matches(line, "!if"@), inner.0)
            } else if starts_with(line, "!else if"@) {
                BlockView::ElseIf(trim_start_matches(line, "!else if"@), inner.0)
            } else {
                BlockView::Else(inner.0)
            };
            assert(r == parse_blocks_from(lines, inner.1, acc.push(b)));
            lemma_blocks_keep_statements(lines, inner.1, acc.push(b));
            lemma_statements_of_push(acc, b);
            lemma_statements_between_concat(lines, pos + 1, inner.1, r.1);
            lemma_statements_between_concat(lines, pos, pos + 1, r.1);
            assert(statements_between(lines, pos, pos + 1) =~= Seq::<Seq<char>>::empty());
            assert(statements_of(acc) + statements_between(lines, pos + 1, inner.1) + statements_between(
                lines,
                inner.1,
                r.1,
            ) =~= statements_of(acc) + statements_between(lines, pos, r.1));
        } else if starts_with(line, "!endif"@) {
            assert(statements_between(lines, pos + 1, pos + 1) =~= Seq::<Seq<char>>::empty());
            assert(statements_between(lines, pos, pos + 1) =~= Seq::<Seq<char>>::empty());
            assert(statements_of(acc) + Seq::<Seq<char>>::empty() =~= statements_of(acc));
        } else {
            let acc2 = acc.push(BlockView::Statement(line));
            lemma_statements_of_push(acc, BlockView::Statement(line));
            assert(!is_directive(line));
            assert(statements_between(lines, pos + 1, pos + 1) =~= Seq::<Seq<char>>::empty());
            assert(statements_between(lines, pos, pos + 1) =~= seq![line]);
            if pos + 1 >= lines.len() || starts_with(trim(lines[pos + 1]), "!else"@) {
                assert(r == (acc2, pos + 1));
            } else {
                lemma_blocks_keep_statements(lines, pos + 1, acc2);
                lemma_statements_between_concat(lines, pos, pos + 1, r.1);
                assert(statements_of(acc) + seq![line] + statements_between(lines, pos + 1, r.1)
                    =~= statements_of(acc) + (seq![line] + statements_between(lines, pos + 1, r.1)));
            }
        }
    }
}

/// Whether a trimmed line opens a conditional: `!if`.
pub open spec fn opens_if(t: Seq<char>) -> bool {
    starts_with(t, "!if"@)
}

/// Whether a trimmed line is an `!else if` or `!else` directive.
pub open spec fn is_else_kind(t: Seq<char>) -> bool {
    !opens_if(t) && (starts_with(t, "!else if"@) || starts_with(t, "!else"@))
}

/// Whether a trimmed line closes a conditional: `!endif`.
pub open spec fn closes_if(t: Seq<char>) -> bool {
    !opens_if(t) && !is_else_kind(t) && starts_with(t, "!endif"@)
}

/// How many conditionals are open after the first `i` lines: the `!if`
/// lines among them less the `!endif` lines.
pub open spec fn if_depth(lines: Seq<Seq<char>>, i: int) -> int
    decreases i,
{
    if i <= 0 {
        0
    } else {
        let t = trim(lines[i - 1]);
        if opens_if(t) {
            if_depth(lines, i - 1) + 1
        } else if closes_if(t) {
            if_depth(lines, i - 1) - 1
        } else {
            if_depth(lines, i - 1)
        }
    }
}

/// Whether the directives of `lines` are well nested: no `!endif` closes more
/// than was opened, and every `!else` and `!else if` lies inside an open `!if`.
pub open spec fn well_nested(lines: Seq<Seq<char>>) -> bool {
    &&& forall|i: int| 0 <= i <= lines.len() ==> #[trigger] if_depth(lines, i) >= 0
    &&& forall|i: int|
        0 <= i < lines.len() && is_else_kind(trim(#[trigger] lines[i])) ==> if_depth(lines, i) >= 1
}

/// Where a reading of blocks begun at `p` stops, read from `pos` on: at the
/// end of the lines, just after an `!endif` that leaves fewer conditionals
/// open than at `p`, or at an `!else` or `!else if` line with no more open
/// than at `p`.
proof fn lemma_blocks_stop(lines: Seq<Seq<char>>, pos: int, acc: Seq<BlockView>, p: int)
    requires
        0 <= p <= pos <= lines.len(),
        pos < lines.len() && is_else_kind(trim(lines[pos])) ==> if_depth(lines, pos) <= if_depth(
            lines,
            p,
        ) + 1,
        pos < lines.len() && !is_else_kind(trim(lines[pos])) ==> if_depth(lines, pos) <= if_depth(
            lines,
            p,
        ),
    ensures
        ({
            let q = parse_blocks_from(lines, pos, acc).1;
            ||| q == lines.len()
            ||| (1 <= q && if_depth(lines, q) < if_depth(lines, p))
            ||| (q < lines.len() && is_else_kind(trim(lines[q])) && if_depth(lines, q) <= if_depth(
                lines,
                p,
            ))
        }),
    decreases lines.len() - pos,
{
    reveal_strlit("!if");
    reveal_strlit("!else");
    reveal_strlit("!else if");
    reveal_strlit("!endif");
    if pos < lines.len() {
        let line = trim(lines[pos]);
        lemma_blocks_keep_statements(lines, pos, acc);
        let r = parse_blocks_from(lines, pos, acc);
        assert(if_depth(lines, pos + 1) == if (opens_if(line)) {
            if_depth(lines, pos) + 1
        } else if closes_if(line) {
            if_depth(lines, pos) - 1
        } else {
            if_depth(lines, pos)
        });
        if line.len() == 0 {
            assert(!starts_with(line, "!if"@) && !starts_with(line, "!else"@) && !starts_with(
                line,
                "!else if"@,
            ) && !starts_with(line, "!endif"@));
            lemma_blocks_stop(lines, pos + 1, acc, p);
        } else if starts_with(line, "!if"@) || starts_with(line, "!else if"@) || starts_with(
            line,
            "!else"@,
        ) {
            let inner = parse_blocks_from(lines, pos + 1, Seq::<BlockView>::empty());
            lemma_blocks_keep_statements(lines, pos + 1, Seq::<BlockView>::empty());
            lemma_blocks_stop(lines, pos + 1, Seq::<BlockView>::empty(), pos + 1);
            let b = if starts_with(line, "!if"@) {
                BlockView::If(trim_start_matches(line, "!if"@), inner.0)
            } else if starts_with(line, "!else if"@) {
                BlockView::ElseIf(trim_start_matches(line, "!else if"@), inner.0)
            } else {
                BlockView::Else(inner.0)
            };
            assert(r == parse_blocks_from(lines, inner.1, acc.push(b)));
            if inner.1 < lines.len() {
                lemma_blocks_stop(lines, inner.1, acc.push(b), p);
            } else {
                assert(parse_blocks_from(lines, inner.1, acc.push(b)).1 == lines.len());
            }
        } else if starts_with(line, "!endif"@) {
            assert(closes_if(line));
        } else {
            assert(!opens_if(line) && !closes_if(line) && !is_else_kind(line));
            if pos + 1 >= lines.len() {
            } else if starts_with(trim(lines[pos + 1]), "!else"@) {
                let t = trim(lines[pos + 1]);
                assert(!opens_if(t)) by {
                    assert(t.take(5)[1] == t[1]);
                    assert("!else"@[1] == 'e');
                    if opens_if(t) {
                        assert(t.take(3)[1] == t[1]);
                        assert("!if"@[1] == 'i');
                    }
                }
                assert(is_else_kind(t));
            } else {
                let t = trim(lines[pos + 1]);
                assert(!is_else_kind(t)) by {
                    if starts_with(t, "!else if"@) {
                        assert(t.take(5) =~= "!else"@);
                    }
                }
                lemma_blocks_stop(lines, pos + 1, acc.push(BlockView::Statement(line)), p);
            }
        }
    }
}

/// Blocks read from the first line of well-nested lines reach the end of the
/// lines, so their statements, in pre-order, are all the lines that are
/// neither blank nor directives, trimmed, in order.
pub proof fn lemma_well_nested_read_to_end(lines: Seq<Seq<char>>)
    requires
        well_nested(lines),
    ensures
        parse_blocks_from(lines, 0, Seq::<BlockView>::empty()).1 == lines.len(),
        statements_of(parse_blocks_from(lines, 0, Seq::<BlockView>::empty()).0)
            == statements_between(lines, 0, lines.len() as int),
{
    assert(if_depth(lines, 0) >= 0);
    if lines.len() > 0 && is_else_kind(trim(lines[0])) {
        assert(if_depth(lines, 0) >= 1);
    }
    lemma_blocks_stop(lines, 0, Seq::<BlockView>::empty(), 0);
    lemma_blocks_keep_statements(lines, 0, Seq::<BlockView>::empty());
    let q = parse_blocks_from(lines, 0, Seq::<BlockView>::empty()).1;
    if q < lines.len() {
        assert(if_depth(lines, q) >= 0);
        if is_else_kind(trim(lines[q])) {
            assert(if_depth(lines, q) >= 1);
        }
    }
    assert(statements_of(Seq::<BlockView>::empty()) + statements_between(lines, 0, q) =~= statements_between(
        lines,
        0,
        q,
    ));
}

/// Reading blocks after the blocks `acc` keeps `acc` in front of what it reads.
pub proof fn lemma_blocks_extend(lines: Seq<Seq<char>>, pos: int, acc: Seq<BlockView>)
    requires
        0 <= pos <= lines.len(),
    ensures
        parse_blocks_from(lines, pos, acc).0.len() >= acc.len(),
        parse_blocks_from(lines, pos, acc).0.take(acc.len() as int) == acc,
    decreases lines.len() - pos,
{
    if pos < lines.len() {
        let line = trim(lines[pos]);
        lemma_blocks_keep_statements(lines, pos, acc);
        if line.len() == 0 {
            lemma_blocks_extend(lines, pos + 1, acc);
        } else if starts_with(line, "!if"@) || starts_with(line, "!else if"@) || starts_with(
            line,
            "!else"@,
        ) {
            let inner = parse_blocks_from(lines, pos + 1, Seq::<BlockView>::empty());
            lemma_blocks_keep_statements(lines, pos + 1, Seq::<BlockView>::empty());
            let b = if starts_with(line, "!if"@) {
                BlockView::If(trim_start_matches(line, "!if"@), inner.0)
            } else if starts_with(line, "!else if"@) {
                BlockView::ElseIf(trim_start_matches(line, "!else if"@), inner.0)
            } else {
                BlockView::Else(inner.0)
            };
            lemma_blocks_extend(lines, inner.1, acc.push(b));
            let r = parse_blocks_from(lines, inner.1, acc.push(b)).0;
            assert(r.take(acc.len() as int) =~= r.take(acc.len() as int + 1).take(acc.len() as int));
            assert(acc.push(b).take(acc.len() as int) =~= acc);
        } else if starts_with(line, "!endif"@) {
            assert(acc.take(acc.len() as int) =~= acc);
        } else {
            let acc2 = acc.push(BlockView::Statement(line));
            if pos + 1 >= lines.len() || starts_with(trim(lines[pos + 1]), "!else"@) {
                assert(acc2.take(acc.len() as int) =~= acc);
            } else {
                lemma_blocks_extend(lines, pos + 1, acc2);
                let r = parse_blocks_from(lines, pos + 1, acc2).0;
                assert(r.take(acc.len() as int) =~= r.take(acc.len() as int + 1).take(acc.len() as int));
                assert(acc2.take(acc.len() as int) =~= acc);
            }
        }
    } else {
        assert(acc.take(acc.len() as int) =~= acc);
    }
}

/// A directive line opens a block that comes right after the blocks read
/// before it: `!if <c>` gives an `If` block and `!else if <c>` an `ElseIf`
/// block whose condition is the trimmed line without its directive (every
/// repetition of the directive at its start removed), and `!else` gives an
/// `Else` block; each holds the blocks read from the next line on.
pub proof fn lemma_directive_opens_block(lines: Seq<Seq<char>>, pos: int, acc: Seq<BlockView>)
    requires
        0 <= pos < lines.len(),
        trim(lines[pos]).len() > 0,
    ensures
        ({
            let t = trim(lines[pos]);
            let inner = parse_blocks_from(lines, pos + 1, Seq::<BlockView>::empty()).0;
            let r = parse_blocks_from(lines, pos, acc).0;
            &&& r.len() >= acc.len()
            &&& r.take(acc.len() as int) == acc
            &&& starts_with(t, "!if"@) ==> r.len() > acc.len() && r[acc.len() as int] == BlockView::If(
                trim_start_matches(t, "!if"@),
                inner,
            )
            &&& !starts_with(t, "!if"@) && starts_with(t, "!else if"@) ==> r.len() > acc.len()
                && r[acc.len() as int] == BlockView::ElseIf(trim_start_matches(t, "!else if"@), inner)
            &&& !starts_with(t, "!if"@) && !starts_with(t, "!else if"@) && starts_with(t, "!else"@)
                ==> r.len() > acc.len() && r[acc.len() as int] == BlockView::Else(inner)
        }),
{
    let t = trim(lines[pos]);
    lemma_blocks_extend(lines, pos, acc);
    if starts_with(t, "!if"@) || starts_with(t, "!else if"@) || starts_with(t, "!else"@) {
        let inner = parse_blocks_from(lines, pos + 1, Seq::<BlockView>::empty());
        lemma_blocks_keep_statements(lines, pos + 1, Seq::<BlockView>::empty());
        let b = if starts_with(t, "!if"@) {
            BlockView::If(trim_start_matches(t, "!if"@), inner.0)
        } else if starts_with(t, "!else if"@) {
            BlockView::ElseIf(trim_start_matches(t, "!else if"@), inner.0)
        } else {
            BlockView::Else(inner.0)
        };
        lemma_blocks_extend(lines, inner.1, acc.push(b));
        let r = parse_blocks_from(lines, inner.1, acc.push(b)).0;
        assert(r.take(acc.len() as int + 1)[acc.len() as int] == acc.push(b)[acc.len() as int]);
    }
}

/// The second reader keeps the blocks `acc` in front of what it reads.
pub proof fn lemma_blocks2_extend(lines: Seq<Seq<char>>, pos: int, acc: Seq<BlockView>)
    requires
        0 <= pos <= lines.len(),
    ensures
        parse_blocks2_from(lines, pos, acc).0.len() >= acc.len(),
        parse_blocks2_from(lines, pos, acc).0.take(acc.len() as int) == acc,
    decreases lines.len() - pos,
{
    if pos < lines.len() {
        let line = trim(lines[pos]);
        if line.len() == 0 {
            lemma_blocks2_extend(lines, pos + 1, acc);
        } else if starts_with(line, "!if"@) {
            let inner = parse_blocks_from(lines, pos + 1, Seq::<BlockView>::empty());
            lemma_blocks_keep_statements(lines, pos + 1, Seq::<BlockView>::empty());
            let b = BlockView::If(trim(trim_start_matches(line, "!if"@)), inner.0);
            lemma_blocks2_extend(lines, inner.1, acc.push(b));
            let r = parse_blocks2_from(lines, inner.1, acc.push(b)).0;
            assert(r.take(acc.len() as int) =~= r.take(acc.len() as int + 1).take(acc.len() as int));
            assert(acc.push(b).take(acc.len() as int) =~= acc);
        } else if starts_with(line, "!else if"@) || starts_with(line, "!else"@) {
            let r = parse_blocks2_from(lines, pos, acc).0;
            assert(r.take(acc.len() as int) =~= acc);
        } else if starts_with(line, "!endif"@) {
            assert(acc.take(acc.len() as int) =~= acc);
        } else {
            let acc2 = acc.push(BlockView::Statement(line));
            lemma_blocks2_extend(lines, pos + 1, acc2);
            let r = parse_blocks2_from(lines, pos + 1, acc2).0;
            assert(r.take(acc.len() as int) =~= r.take(acc.len() as int + 1).take(acc.len() as int));
            assert(acc2.take(acc.len() as int) =~= acc);
        }
    } else {
        assert(acc.take(acc.len() as int) =~= acc);
    }
}

/// In the second reader a directive line opens a block right after the blocks
/// read before it: `!if <c>` an `If` block and `!else if <c>` an `ElseIf`
/// block whose condition is the trimmed line without its directive, trimmed
/// again, and `!else` an `Else` block; an `!else if` or `!else` block ends
/// the list.
pub proof fn lemma_directive_opens_block2(lines: Seq<Seq<char>>, pos: int, acc: Seq<BlockView>)
    requires
        0 <= pos < lines.len(),
        trim(lines[pos]).len() > 0,
    ensures
        ({
            let t = trim(lines[pos]);
            let inner = parse_blocks_from(lines, pos + 1, Seq::<BlockView>::empty()).0;
            let r = parse_blocks2_from(lines, pos, acc).0;
            &&& r.len() >= acc.len()
            &&& r.take(acc.len() as int) == acc
            &&& starts_with(t, "!if"@) ==> r.len() > acc.len() && r[acc.len() as int] == BlockView::If(
                trim(trim_start_matches(t, "!if"@)),
                inner,
            )
            &&& !starts_with(t, "!if"@) && starts_with(t, "!else if"@) ==> r == acc.push(
                BlockView::ElseIf(trim(trim_start_matches(t, "!else if"@)), inner),
            )
            &&& !starts_with(t, "!if"@) && !starts_with(t, "!else if"@) && starts_with(t, "!else"@)
                ==> r == acc.push(BlockView::Else(inner))
        }),
{
    let t = trim(lines[pos]);
    lemma_blocks2_extend(lines, pos, acc);
    if starts_with(t, "!if"@) {
        let inner = parse_blocks_from(lines, pos + 1, Seq::<BlockView>::empty());
        lemma_blocks_keep_statements(lines, pos + 1, Seq::<BlockView>::empty());
        let b = BlockView::If(trim(trim_start_matches(t, "!if"@)), inner.0);
        lemma_blocks2_extend(lines, inner.1, acc.push(b));
        let r = parse_blocks2_from(lines, inner.1, acc.push(b)).0;
        assert(r.take(acc.len() as int + 1)[acc.len() as int] == acc.push(b)[acc.len() as int]);
    }
}

/// Whether `s` starts with `prefix`.
fn begins_with(s: &String, prefix: &str) -> (r: bool)
    ensures
        r == starts_with(s@, prefix@),
{
    let t = chars_of(s.as_str());
    let d = chars_of(prefix);
    assert(t@.subrange(0, t@.len() as int) =~= t@);
    starts_with_at(&t, 0, t.len(), &d)
}

/// The blocks `v` followed by `b`, as text content.
proof fn lemma_blocks_view_push(v: Seq<Block>, b: Block)
    ensures
        blocks_view(v.push(b)) == blocks_view(v).push(b.view_block()),
{
    assert(v.push(b).drop_last() =~= v);
}

/// Reads blocks from `lines[pos..]` as `parse_blocks_from` says; the position
/// after them is returned with them.
pub fn parse_blocks(lines: &Vec<String>, pos: usize) -> (r: (Vec<Block>, usize))
    requires
        pos <= lines.len(),
    ensures
        pos <= r.1 <= lines.len(),
        (blocks_view(r.0@), r.1 as int) == parse_blocks_from(
            lines.deep_view(),
            pos as int,
            Seq::<BlockView>::empty(),
        ),
    decreases lines.len() - pos,
{
    let ghost ls = lines.deep_view();
    let mut blocks: Vec<Block> = Vec::new();
    let mut p = pos;
    assert(blocks_view(blocks@) =~= Seq::<BlockView>::empty());
    loop
        invariant
            pos <= p <= lines.len(),
            ls == lines.deep_view(),
            parse_blocks_from(ls, p as int, blocks_view(blocks@)) == parse_blocks_from(
                ls,
                pos as int,
                Seq::<BlockView>::empty(),
            ),
        decreases lines.len() - p,
    {
        if p >= lines.len() {
            return (blocks, p);
        }
        let ghost q = p as int;
        let ghost acc = blocks_view(blocks@);
        let ghost old_blocks = blocks@;
        let line = trim_str(lines[p].as_str());
        assert(line@ == trim(ls[q]));
        p += 1;
        if line.as_str().unicode_len() == 0 {
            continue ;
        }
        if begins_with(&line, "!if") {
            let condition = trim_start_matches_str(line.as_str(), "!if");
            let (inner, next) = parse_blocks(lines, p);
            let b = Block::If(condition, inner);
            proof {
                lemma_blocks_view_push(old_blocks, b);
            }
            blocks.push(b);
            p = next;
            continue ;
        }
        if begins_with(&line, "!else if") {
            let condition = trim_start_matches_str(line.as_str(), "!else if");
            let (inner, next) = parse_blocks(lines, p);
            let b = Block::ElseIf(condition, inner);
            proof {
                lemma_blocks_view_push(old_blocks, b);
            }
            blocks.push(b);
            p = next;
            continue ;
        }
        if begins_with(&line, "!else") {
            let (inner, next) = parse_blocks(lines, p);
            let b = Block::Else(inner);
            proof {
                lemma_blocks_view_push(old_blocks, b);
            }
            blocks.push(b);
            p = next;
            continue ;
        }
        if begins_with(&line, "!endif") {
            return (blocks, p);
        }
        let b = Block::Statement(line);
        proof {
            lemma_blocks_view_push(old_blocks, b);
        }
        blocks.push(b);
        if p >= lines.len() {
            return (blocks, p);
        }
        let next_line = trim_str(lines[p].as_str());
        assert(next_line@ == trim(ls[p as int]));
        if begins_with(&next_line, "!else if") || begins_with(&next_line, "!else") {
            proof {
                reveal_strlit("!else if");
                reveal_strlit("!else");
                if starts_with(next_line@, "!else if"@) {
                    assert(next_line@.take(5) =~= "!else if"@.take(5));
                    assert("!else if"@.take(5) =~= "!else"@);
                }
            }
            return (blocks, p);
        }
    }
}

/// Reads blocks from `lines[pos..]` as `parse_blocks2_from` says; the position
/// after them is returned with them.
pub fn parse_blocks2(lines: &Vec<String>, pos: usize) -> (r: (Vec<Block>, usize))
    requires
        pos <= lines.len(),
    ensures
        pos <= r.1 <= lines.len(),
        (blocks_view(r.0@), r.1 as int) == parse_blocks2_from(
            lines.deep_view(),
            pos as int,
            Seq::<BlockView>::empty(),
        ),
{
    let ghost ls = lines.deep_view();
    let mut blocks: Vec<Block> = Vec::new();
    let mut p = pos;
    assert(blocks_view(blocks@) =~= Seq::<BlockView>::empty());
    loop
        invariant
            pos <= p <= lines.len(),
            ls == lines.deep_view(),
            parse_blocks2_from(ls, p as int, blocks_view(blocks@)) == parse_blocks2_from(
                ls,
                pos as int,
                Seq::<BlockView>::empty(),
            ),
        decreases lines.len() - p,
    {
        if p >= lines.len() {
            return (blocks, p);
        }
        let ghost old_blocks = blocks@;
        let line = trim_str(lines[p].as_str());
        assert(line@ == trim(ls[p as int]));
        p += 1;
        if line.as_str().unicode_len() == 0 {
            continue ;
        }
        if begins_with(&line, "!if") {
            let condition = trim_str(trim_start_matches_str(line.as_str(), "!if").as_str());
            let (inner, next) = parse_blocks(lines, p);
            let b = Block::If(condition, inner);
            proof {
                lemma_blocks_view_push(old_blocks, b);
            }
            blocks.push(b);
            p = next;
        } else if begins_with(&line, "!else if") {
            let condition = trim_str(trim_start_matches_str(line.as_str(), "!else if").as_str());
            let (inner, next) = parse_blocks(lines, p);
            let b = Block::ElseIf(condition, inner);
            proof {
                lemma_blocks_view_push(old_blocks, b);
            }
            blocks.push(b);
            return (blocks, next);
        } else if begins_with(&line, "!else") {
            let (inner, next) = parse_blocks(lines, p);
            let b = Block::Else(inner);
            proof {
                lemma_blocks_view_push(old_blocks, b);
            }
            blocks.push(b);
            return (blocks, next);
        } else if begins_with(&line, "!endif") {
            return (blocks, p);
        } else {
            let b = Block::Statement(line);
            proof {
                lemma_blocks_view_push(old_blocks, b);
            }
            blocks.push(b);
        }
    }
}

/// `s` with each `!` that is followed by a character other than `=` written
/// as `NOT ` before that character (`(!)([^=])` replaced from left to right).
pub open spec fn rewrite_not(s: Seq<char>) -> Seq<char>
    decreases s.len(),
{
    if s.len() >= 2 && s[0] == '!' && s[1] != '=' {
        "NOT "@ + seq![s[1]] + rewrite_not(s.skip(2))
    } else if s.len() == 0 {
        Seq::<char>::empty()
    } else {
        seq![s[0]] + rewrite_not(s.drop_first())
    }
}

/// A condition written with the operators of SQL: `||` as `OR`, `&&` as
/// `AND`, `EQ` as `==`, `NE` as `!=`, `GE` as `>=`, `LE` as `<=`, `GT` as `>`,
/// `LT` as `<` (each between spaces), then `!x` as `NOT x`.
pub open spec fn rewrite_condition(c: Seq<char>) -> Seq<char> {
    let c = replace(c, " || "@, " OR "@);
    let c = replace(c, " && "@, " AND "@);
    let c = replace(c, " EQ "@, " == "@);
    let c = replace(c, " NE "@, " !="@);
    let c = replace(c, " GE "@, " >= "@);
    let c = replace(c, " LE "@, " <= "@);
    let c = replace(c, " GT "@, " > "@);
    let c = replace(c, " LT "@, " < "@);
    rewrite_not(c)
}

/// `!x` written as `NOT x`, as `rewrite_not` says.
pub fn rewrite_not_str(s: &String) -> (r: String)
    ensures
        r@ == rewrite_not(s@),
{
    let v = chars_of(s.as_str());
    let mut out = String::new();
    let mut i: usize = 0;
    assert(v@.skip(0) =~= v@);
    while i < v.len()
        invariant
            i <= v.len(),
            v@ == s@,
            out@ + rewrite_not(v@.skip(i as int)) == rewrite_not(s@),
        decreases v.len() - i,
    {
        let ghost rest = v@.skip(i as int);
        if i + 1 < v.len() && v[i] == '!' && v[i + 1] != '=' {
            assert(rest[0] == v@[i as int] && rest[1] == v@[i + 1]);
            out.append("NOT ");
            out.append(string_of(&v, i + 1, i + 2).as_str());
            assert(v@.subrange(i + 1, i + 2) =~= seq![rest[1]]);
            assert(rest.skip(2) =~= v@.skip(i + 2));
            i += 2;
        } else {
            assert(rest[0] == v@[i as int]);
            if i + 1 < v.len() {
                assert(rest[1] == v@[i + 1]);
            }
            out.append(string_of(&v, i, i + 1).as_str());
            assert(v@.subrange(i as int, i + 1) =~= seq![rest[0]]);
            assert(rest.drop_first() =~= v@.skip(i + 1));
            i += 1;
        }
    }
    assert(v@.skip(i as int) =~= Seq::<char>::empty());
    assert(out@ + Seq::<char>::empty() =~= out@);
    out
}

/// The condition written with the operators of SQL, as `rewrite_condition` says.
pub fn rewrite_condition_str(condition: &String) -> (r: String)
    ensures
        r@ == rewrite_condition(condition@),
{
    let c = replace_str(condition.as_str(), " || ", " OR ");
    let c = replace_str(c.as_str(), " && ", " AND ");
    let c = replace_str(c.as_str(), " EQ ", " == ");
    let c = replace_str(c.as_str(), " NE ", " !=");
    let c = replace_str(c.as_str(), " GE ", " >= ");
    let c = replace_str(c.as_str(), " LE ", " <= ");
    let c = replace_str(c.as_str(), " GT ", " > ");
    let c = replace_str(c.as_str(), " LT ", " < ");
    rewrite_not_str(&c)
}

/// The SQL query whose only value is the condition: `SELECT <condition> AS result`.
pub open spec fn condition_query(condition: Seq<char>) -> Seq<char> {
    "SELECT "@ + rewrite_condition(condition) + " AS result"@
}

/// The SQL query that evaluates a condition, as `condition_query` says.
pub fn condition_query_str(condition: &String) -> (r: String)
    ensures
        r@ == condition_query(condition@),
{
    String::from_str("SELECT ").concat(rewrite_condition_str(condition).as_str()).concat(
        " AS result",
    )
}

/// A connection to an SQLite database.
#[verifier::external_type_specification]
#[verifier::external_body]
pub struct ExConnection(rusqlite::Connection);

/// `rusqlite::Connection::open_in_memory`: a new, empty in-memory database;
/// `None` when SQLite refuses to open one. Nothing more is said of it.
#[verifier::external_body]
fn open_in_memory() -> (r: Option<rusqlite::Connection>) {
    rusqlite::Connection::open_in_memory().ok()
}

/// `rusqlite::Connection::query_row` with no parameters, reading the first
/// column of the first row of `query` as a boolean; `None` when SQLite refuses
/// the query, it gives no row, or the value is not a boolean. What comes back
/// is left open: the query may call functions whose value changes from one
/// run to the next.
#[verifier::external_body]
fn query_first_bool(conn: &rusqlite::Connection, query: &str) -> (r: Option<bool>) {
    conn.query_row(query, [], |row| row.get::<usize, bool>(0)).ok()
}

impl Block {
    /// Whether the block applies: the value of its condition for `!if` and
    /// `!else if`, always for the others. `None` when the condition cannot be evaluated.
    pub fn eval(&self) -> (r: Option<bool>)
        ensures
            (self is Else || self is Statement) ==> r == Some(true),
    {
        match self {
            Block::If(condition, _) => self._eval(condition),
            Block::ElseIf(condition, _) => self._eval(condition),
            _ => Some(true),
        }
    }

    /// The value of `condition`, evaluated by SQLite as the query
    /// `condition_query(condition)`. `None` when SQLite refuses it.
    pub fn _eval(&self, condition: &String) -> (r: Option<bool>) {
        let query = condition_query_str(condition);
        match open_in_memory() {
            Some(conn) => query_first_bool(&conn, query.as_str()),
            None => None,
        }
    }
}

} // verus!
