//! The on-disk shape of a document and its proof of round-tripping. A saved
//! document is every row in order, each followed by a newline — including the
//! last. Reading splits on newlines, with a final unterminated fragment
//! counting as a row and a final newline producing no extra row. Whoever
//! performs the actual file I/O hands the character content in and out of
//! these functions unchanged.

use vstd::prelude::*;

use crate::rows::view_lines;

verus! {

/// The serialized form: every row followed by a newline.
pub open spec fn serialize_rows(rows: Seq<Seq<char>>) -> Seq<char>
    decreases rows.len(),
{
    if rows.len() == 0 {
        Seq::empty()
    } else {
        rows.first().push('\n') + serialize_rows(rows.drop_first())
    }
}

/// The index of the first newline in `s`, or `s.len()` when there is none.
pub open spec fn line_break(s: Seq<char>) -> nat
    decreases s.len(),
{
    if s.len() == 0 {
        0
    } else if s.first() == '\n' {
        0
    } else {
        1 + line_break(s.drop_first())
    }
}

/// The rows encoded by `s`: the text before each newline, plus a final
/// unterminated fragment if one remains.
pub open spec fn parse_rows(s: Seq<char>) -> Seq<Seq<char>>
    decreases s.len(),
{
    if s.len() == 0 {
        Seq::empty()
    } else {
        let k = line_break(s) as int;
        if k >= s.len() {
            seq![s]
        } else {
            seq![s.take(k)] + parse_rows(s.skip(k + 1))
        }
    }
}

/// In a sequence with no newline, the first line break is the end.
pub proof fn lemma_line_break_none(s: Seq<char>)
    requires
        !s.contains('\n'),
    ensures
        line_break(s) == s.len(),
    decreases s.len(),
{
    if s.len() > 0 {
        assert(s[0] != '\n');
        assert forall|j: int| 0 <= j < s.drop_first().len() implies s.drop_first()[j] != '\n' by {
            assert(s.drop_first()[j] == s[j + 1]);
        }
        lemma_line_break_none(s.drop_first());
    }
}

/// The first line break of "`a`, then a newline, then anything" is at the end
/// of `a`, provided `a` itself has no newline.
pub proof fn lemma_line_break_prefix(a: Seq<char>, b: Seq<char>)
    requires
        !a.contains('\n'),
    ensures
        line_break(a + seq!['\n'] + b) == a.len(),
    decreases a.len(),
{
    let s = a + seq!['\n'] + b;
    if a.len() == 0 {
        assert(s[0] == '\n');
    } else {
        assert(s[0] == a[0]);
        assert(a[0] != '\n');
        assert forall|j: int| 0 <= j < a.drop_first().len() implies a.drop_first()[j] != '\n' by {
            assert(a.drop_first()[j] == a[j + 1]);
        }
        lemma_line_break_prefix(a.drop_first(), b);
        assert(s.drop_first() =~= a.drop_first() + seq!['\n'] + b);
    }
}

/// Serializing one more row appends that row and a newline.
pub proof fn lemma_serialize_snoc(rows: Seq<Seq<char>>, i: int)
    requires
        0 <= i < rows.len(),
    ensures
        serialize_rows(rows.take(i + 1)) == serialize_rows(rows.take(i)) + rows[i].push('\n'),
    decreases i,
{
    if i == 0 {
        assert(rows.take(0) =~= Seq::<Seq<char>>::empty());
        assert(rows.take(1).drop_first() =~= Seq::<Seq<char>>::empty());
        assert(rows.take(1).first() == rows[0]);
        assert(rows[0].push('\n') + Seq::<char>::empty() =~= rows[0].push('\n'));
        assert(Seq::<char>::empty() + rows[0].push('\n') =~= rows[0].push('\n'));
    } else {
        let t = rows.drop_first();
        lemma_serialize_snoc(t, i - 1);
        assert(rows.take(i + 1).drop_first() =~= t.take(i));
        assert(rows.take(i).drop_first() =~= t.take(i - 1));
        assert(rows.take(i + 1).first() == rows[0]);
        assert(rows.take(i).first() == rows[0]);
        assert(t[i - 1] == rows[i]);
        assert(rows[0].push('\n') + (serialize_rows(t.take(i - 1)) + rows[i].push('\n')) =~= (
        rows[0].push('\n') + serialize_rows(t.take(i - 1))) + rows[i].push('\n'));
    }
}

/// Round trip: parsing a serialized document gives back exactly its rows,
/// for any document whose rows contain no newline character.
pub proof fn lemma_parse_serialize(rows: Seq<Seq<char>>)
    requires
        forall|i: int| 0 <= i < rows.len() ==> !(#[trigger] rows[i]).contains('\n'),
    ensures
        parse_rows(serialize_rows(rows)) == rows,
    decreases rows.len(),
{
    if rows.len() > 0 {
        let rest = rows.drop_first();
        let s = serialize_rows(rows);
        assert(s =~= rows[0] + seq!['\n'] + serialize_rows(rest));
        lemma_line_break_prefix(rows[0], serialize_rows(rest));
        assert(s.len() > rows[0].len());
        let k = rows[0].len() as int;
        assert(s.take(k) =~= rows[0]);
        assert(s.skip(k + 1) =~= serialize_rows(rest));
        assert forall|i: int| 0 <= i < rest.len() implies !(#[trigger] rest[i]).contains('\n') by {
            assert(rest[i] == rows[i + 1]);
        }
        lemma_parse_serialize(rest);
        assert(seq![rows[0]] + rest =~= rows);
    }
}

/// The character content a save writes for these rows.
pub fn serialize_lines(lines: &Vec<Vec<char>>) -> (out: Vec<char>)
    ensures
        out@ == serialize_rows(view_lines(lines@)),
{
    let mut out: Vec<char> = Vec::new();
    let mut i: usize = 0;
    while i < lines.len()
        invariant
            i <= lines.len(),
            out@ == serialize_rows(view_lines(lines@).take(i as int)),
        decreases lines.len() - i,
    {
        let mut j: usize = 0;
        while j < lines[i].len()
            invariant
                i < lines.len(),
                j <= lines@[i as int]@.len(),
                out@ == serialize_rows(view_lines(lines@).take(i as int)) + lines@[i as int]@.take(
                    j as int,
                ),
            decreases lines@[i as int]@.len() - j,
        {
            out.push(lines[i][j]);
            proof {
                assert(out@ =~= serialize_rows(view_lines(lines@).take(i as int)) + lines@[i
                    as int]@.take(j + 1));
            }
            j = j + 1;
        }
        out.push('\n');
        proof {
            lemma_serialize_snoc(view_lines(lines@), i as int);
            assert(lines@[i as int]@.take(lines@[i as int]@.len() as int) =~= lines@[i as int]@);
            assert(out@ =~= serialize_rows(view_lines(lines@).take(i + 1)));
        }
        i = i + 1;
    }
    proof {
        assert(view_lines(lines@).take(lines@.len() as int) =~= view_lines(lines@));
    }
    out
}

/// The rows read back from saved character content.
pub fn parse_lines(content: &Vec<char>) -> (lines: Vec<Vec<char>>)
    ensures
        view_lines(lines@) == parse_rows(content@),
{
    let mut lines: Vec<Vec<char>> = Vec::new();
    let mut cur: Vec<char> = Vec::new();
    let mut i: usize = 0;
    proof {
        assert(cur@ + content@.skip(0) =~= content@);
        assert(view_lines(lines@) =~= Seq::<Seq<char>>::empty());
    }
    while i < content.len()
        invariant
            i <= content.len(),
            !cur@.contains('\n'),
            parse_rows(content@) == view_lines(lines@) + parse_rows(cur@ + content@.skip(i as int)),
        decreases content.len() - i,
    {
        let ch = content[i];
        let ghost prev_cur = cur@;
        let ghost prev_lines = lines@;
        if ch == '\n' {
            lines.push(cur);
            cur = Vec::new();
            proof {
                let s = prev_cur + content@.skip(i as int);
                assert(s =~= prev_cur + seq!['\n'] + content@.skip(i + 1));
                lemma_line_break_prefix(prev_cur, content@.skip(i + 1));
                assert(s.len() > prev_cur.len());
                let k = prev_cur.len() as int;
                assert(s.take(k) =~= prev_cur);
                assert(s.skip(k + 1) =~= content@.skip(i + 1));
                assert(cur@ + content@.skip(i + 1) =~= content@.skip(i + 1));
                assert(view_lines(lines@) =~= view_lines(prev_lines) + seq![prev_cur]);
                assert(view_lines(prev_lines) + (seq![prev_cur] + parse_rows(content@.skip(i + 1)))
                    =~= (view_lines(prev_lines) + seq![prev_cur]) + parse_rows(
                    content@.skip(i + 1),
                ));
            }
        } else {
            cur.push(ch);
            proof {
                assert forall|j: int| 0 <= j < cur@.len() implies cur@[j] != '\n' by {
                    if j < prev_cur.len() {
                        assert(cur@[j] == prev_cur[j]);
                    }
                }
                assert(cur@ + content@.skip(i + 1) =~= prev_cur + content@.skip(i as int));
            }
        }
        i = i + 1;
    }
    proof {
        assert(cur@ + content@.skip(content@.len() as int) =~= cur@);
    }
    if cur.len() > 0 {
        proof {
            lemma_line_break_none(cur@);
            assert(parse_rows(cur@) == seq![cur@]);
        }
        let ghost prev_lines = lines@;
        let ghost last = cur@;
        lines.push(cur);
        proof {
            assert(view_lines(lines@) =~= view_lines(prev_lines) + seq![last]);
        }
    } else {
        proof {
            assert(cur@ =~= Seq::<char>::empty());
            assert(parse_rows(cur@) == Seq::<Seq<char>>::empty());
            assert(view_lines(lines@) + Seq::<Seq<char>>::empty() =~= view_lines(lines@));
        }
    }
    lines
}

} // verus!
