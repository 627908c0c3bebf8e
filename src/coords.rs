//! The layout of the saved coordinates: a text of lines, one value per line,
//! each ended by a newline. Lines are read as a line reader reads them: a line
//! ends at a newline, which is dropped with a carriage return just before it;
//! a last line with no newline after it is kept as it stands.

use vstd::prelude::*;

verus! {

/// The byte that ends a line.
pub const NEWLINE: u8 = 10;

/// The byte that a line may carry just before its newline.
pub const CARRIAGE_RETURN: u8 = 13;

/// How many values a coordinates text holds: centre x, centre y, zoom,
/// iteration cap.
pub const FIELD_COUNT: usize = 4;

/// Why a coordinates text was refused.
#[derive(Clone, Copy, Debug, PartialEq, Eq, Structural)]
pub enum CoordsError {
    /// The text holds fewer lines than there are values.
    TooFewLines,
}

/// `line` without one carriage return at its end.
pub open spec fn strip_cr(line: Seq<u8>) -> Seq<u8> {
    if line.len() > 0 && line.last() == CARRIAGE_RETURN {
        line.drop_last()
    } else {
        line
    }
}

/// The lines read from `rest` when the line being read so far holds `cur`.
pub open spec fn lines_after(rest: Seq<u8>, cur: Seq<u8>) -> Seq<Seq<u8>>
    decreases rest.len(),
{
    if rest.len() == 0 {
        if cur.len() == 0 {
            seq![]
        } else {
            seq![cur]
        }
    } else if rest[0] == NEWLINE {
        seq![strip_cr(cur)] + lines_after(rest.drop_first(), seq![])
    } else {
        lines_after(rest.drop_first(), cur.push(rest[0]))
    }
}

/// The lines of `text`.
pub open spec fn lines_of(text: Seq<u8>) -> Seq<Seq<u8>> {
    lines_after(text, seq![])
}

/// `lines`, each followed by a newline.
pub open spec fn joined(lines: Seq<Seq<u8>>) -> Seq<u8>
    decreases lines.len(),
{
    if lines.len() == 0 {
        seq![]
    } else {
        lines[0] + seq![NEWLINE] + joined(lines.drop_first())
    }
}

/// A line that reads back as itself: no newline in it, no carriage return
/// at its end.
pub open spec fn plain_line(line: Seq<u8>) -> bool {
    !line.contains(NEWLINE) && strip_cr(line) == line
}

/// The contents of a sequence of byte vectors.
pub open spec fn line_views(lines: Seq<Vec<u8>>) -> Seq<Seq<u8>> {
    lines.map_values(|l: Vec<u8>| l@)
}

/// Reading a line that ends with a newline.
proof fn lemma_lines_after_line(line: Seq<u8>, rest: Seq<u8>, cur: Seq<u8>)
    requires
        !line.contains(NEWLINE),
    ensures
        lines_after(line + seq![NEWLINE] + rest, cur) == seq![strip_cr(cur + line)]
            + lines_after(rest, seq![]),
    decreases line.len(),
{
    let t = line + seq![NEWLINE] + rest;
    if line.len() == 0 {
        assert(t =~= seq![NEWLINE] + rest);
        assert(t.drop_first() =~= rest);
        assert(cur + line =~= cur);
    } else {
        assert(line[0] != NEWLINE) by {
            if line[0] == NEWLINE {
                assert(line.contains(NEWLINE));
            }
        }
        let tail = line.drop_first();
        assert(!tail.contains(NEWLINE)) by {
            if tail.contains(NEWLINE) {
                let k = choose|k: int| 0 <= k < tail.len() && tail[k] == NEWLINE;
                assert(line[k + 1] == NEWLINE);
            }
        }
        assert(t[0] == line[0]);
        assert(t.drop_first() =~= tail + seq![NEWLINE] + rest);
        lemma_lines_after_line(tail, rest, cur.push(line[0]));
        assert(cur.push(line[0]) + tail =~= cur + line);
    }
}

/// Lines written out one per line read back as the same lines.
pub proof fn lemma_lines_of_joined(lines: Seq<Seq<u8>>)
    requires
        forall|k: int| 0 <= k < lines.len() ==> plain_line(#[trigger] lines[k]),
    ensures
        lines_of(joined(lines)) == lines,
    decreases lines.len(),
{
    if lines.len() > 0 {
        let tail = lines.drop_first();
        assert(plain_line(lines[0]));
        assert forall|k: int| 0 <= k < tail.len() implies plain_line(#[trigger] tail[k]) by {
            assert(tail[k] == lines[k + 1]);
        }
        lemma_lines_after_line(lines[0], joined(tail), seq![]);
        assert(seq![] + lines[0] =~= lines[0]);
        lemma_lines_of_joined(tail);
        assert(seq![lines[0]] + tail =~= lines);
    }
}

/// Writing one more line adds it and its newline at the end.
proof fn lemma_joined_push(lines: Seq<Seq<u8>>, line: Seq<u8>)
    ensures
        joined(lines.push(line)) == joined(lines) + line + seq![NEWLINE],
    decreases lines.len(),
{
    if lines.len() == 0 {
        assert(lines.push(line).drop_first() =~= lines);
        assert(joined(lines.push(line)) =~= line + seq![NEWLINE]);
    } else {
        assert(lines.push(line).drop_first() =~= lines.drop_first().push(line));
        lemma_joined_push(lines.drop_first(), line);
        assert(joined(lines.push(line)) =~= joined(lines) + line + seq![NEWLINE]);
    }
}

/// The lines of `text`.
pub fn split_lines(text: &Vec<u8>) -> (lines: Vec<Vec<u8>>)
    ensures
        line_views(lines@) == lines_of(text@),
{
    let mut lines: Vec<Vec<u8>> = Vec::new();
    let mut cur: Vec<u8> = Vec::new();
    let mut i: usize = 0;
    assert(text@.subrange(0, text@.len() as int) =~= text@);
    assert(line_views(lines@) + lines_of(text@) =~= lines_of(text@));
    while i < text.len()
        invariant
            i <= text@.len(),
            line_views(lines@) + lines_after(text@.subrange(i as int, text@.len() as int), cur@)
                == lines_of(text@),
        decreases text@.len() - i,
    {
        let ghost rest = text@.subrange(i as int, text@.len() as int);
        let ghost next = text@.subrange(i + 1, text@.len() as int);
        let ghost before = line_views(lines@);
        let ghost line = cur@;
        assert(rest.drop_first() =~= next);
        if text[i] == NEWLINE {
            let n = cur.len();
            if n > 0 && cur[n - 1] == CARRIAGE_RETURN {
                cur.pop();
            }
            assert(cur@ =~= strip_cr(line));
            lines.push(cur);
            cur = Vec::new();
            assert(line_views(lines@) =~= before.push(strip_cr(line)));
            assert(before.push(strip_cr(line)) + lines_after(next, seq![]) =~= before + (
            seq![strip_cr(line)] + lines_after(next, seq![])));
            assert(cur@ =~= seq![]);
        } else {
            cur.push(text[i]);
        }
        i = i + 1;
    }
    proof {
        let ghost before = line_views(lines@);
        assert(text@.subrange(i as int, text@.len() as int) =~= seq![]);
        if cur@.len() > 0 {
            assert(line_views(lines@.push(cur)) =~= before.push(cur@));
            assert(before + seq![cur@] =~= before.push(cur@));
        } else {
            assert(before + seq![] =~= before);
        }
    }
    if cur.len() > 0 {
        lines.push(cur);
    }
    lines
}

/// `lines`, each followed by a newline: the text that holds them.
pub fn join_lines(lines: &Vec<Vec<u8>>) -> (text: Vec<u8>)
    requires
        joined(line_views(lines@)).len() <= usize::MAX,
    ensures
        text@ == joined(line_views(lines@)),
{
    let mut text: Vec<u8> = Vec::new();
    let mut k: usize = 0;
    assert(line_views(lines@).subrange(0, 0) =~= seq![]);
    while k < lines.len()
        invariant
            k <= lines@.len(),
            text@ == joined(line_views(lines@).subrange(0, k as int)),
            joined(line_views(lines@)).len() <= usize::MAX,
        decreases lines@.len() - k,
    {
        let ghost done = line_views(lines@).subrange(0, k as int);
        let line = &lines[k];
        proof {
            assert(line_views(lines@).subrange(0, k + 1) =~= done.push(line@));
            lemma_joined_push(done, line@);
            lemma_joined_prefix_len(line_views(lines@), k + 1);
        }
        let mut j: usize = 0;
        while j < line.len()
            invariant
                j <= line@.len(),
                text@ == joined(done) + line@.subrange(0, j as int),
                joined(done).len() + line@.len() + 1 <= usize::MAX,
            decreases line@.len() - j,
        {
            text.push(line[j]);
            j = j + 1;
            assert(text@ =~= joined(done) + line@.subrange(0, j as int));
        }
        text.push(NEWLINE);
        assert(text@ =~= joined(done) + line@ + seq![NEWLINE]);
        k = k + 1;
    }
    assert(line_views(lines@).subrange(0, lines@.len() as int) =~= line_views(lines@));
    text
}

/// The text of the first `k` lines is no longer than that of all of them.
proof fn lemma_joined_prefix_len(lines: Seq<Seq<u8>>, k: int)
    requires
        0 <= k <= lines.len(),
    ensures
        joined(lines.subrange(0, k)).len() <= joined(lines).len(),
    decreases lines.len() - k,
{
    if k < lines.len() {
        lemma_joined_prefix_len(lines, k + 1);
        assert(lines.subrange(0, k + 1) =~= lines.subrange(0, k).push(lines[k]));
        lemma_joined_push(lines.subrange(0, k), lines[k]);
    } else {
        assert(lines.subrange(0, k) =~= lines);
    }
}

/// The lines of a coordinates text, one value on each: refused when there
/// are fewer lines than values.
pub fn coordinate_fields(text: &Vec<u8>) -> (fields: Result<Vec<Vec<u8>>, CoordsError>)
    ensures
        match fields {
            Ok(lines) => lines_of(text@).len() >= FIELD_COUNT && line_views(lines@) == lines_of(text@),
            Err(e) => lines_of(text@).len() < FIELD_COUNT && e == CoordsError::TooFewLines,
        },
{
    let lines = split_lines(text);
    if lines.len() < FIELD_COUNT {
        Err(CoordsError::TooFewLines)
    } else {
        Ok(lines)
    }
}

} // verus!
