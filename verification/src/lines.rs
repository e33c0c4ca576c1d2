//! The lines of a text as `str::lines` gives them, and reading them one at a time.

use vstd::prelude::*;

verus! {

/// The first position at or after `pos` that holds `c`, or the length of `s` when none does.
pub open spec fn index_of_from(s: Seq<char>, c: char, pos: nat) -> nat
    decreases s.len() - pos,
{
    if pos >= s.len() {
        s.len()
    } else if s[pos as int] == c {
        pos
    } else {
        index_of_from(s, c, pos + 1)
    }
}

pub proof fn index_of_from_facts(s: Seq<char>, c: char, pos: nat)
    requires
        pos <= s.len(),
    ensures
        pos <= index_of_from(s, c, pos) <= s.len(),
        index_of_from(s, c, pos) < s.len() ==> s[index_of_from(s, c, pos) as int] == c,
        forall|j: int| pos <= j < index_of_from(s, c, pos) ==> s[j] != c,
    decreases s.len() - pos,
{
    if pos < s.len() && s[pos as int] != c {
        index_of_from_facts(s, c, pos + 1);
    }
}

pub proof fn index_of_from_is(s: Seq<char>, c: char, pos: nat, q: nat)
    requires
        pos <= q <= s.len(),
        q < s.len() ==> s[q as int] == c,
        forall|j: int| pos <= j < q ==> s[j] != c,
    ensures
        index_of_from(s, c, pos) == q,
    decreases q - pos,
{
    if pos < q {
        index_of_from_is(s, c, pos + 1, q);
    }
}

/// The line that runs from `pos` to the line break at `brk`, without a `\r` right before it.
pub open spec fn line_between(s: Seq<char>, pos: nat, brk: nat) -> Seq<char> {
    if brk < s.len() && brk > pos && s[brk - 1] == '\r' {
        s.subrange(pos as int, brk - 1 as int)
    } else {
        s.subrange(pos as int, brk as int)
    }
}

/// The lines of `s` from position `pos` on, as `str::lines` gives them: split at each `\n`,
/// a `\r` right before a `\n` dropped, and no empty line after a final `\n`.
pub open spec fn lines_from(s: Seq<char>, pos: nat) -> Seq<Seq<char>>
    decreases s.len() - pos,
{
    if pos >= s.len() {
        Seq::empty()
    } else {
        let brk = index_of_from(s, '\n', pos);
        proof {
            index_of_from_facts(s, '\n', pos);
        }
        let rest = if brk < s.len() {
            lines_from(s, brk + 1)
        } else {
            Seq::empty()
        };
        seq![line_between(s, pos, brk)] + rest
    }
}

/// The lines of a text, as `str::lines` gives them.
pub open spec fn text_lines(s: Seq<char>) -> Seq<Seq<char>> {
    lines_from(s, 0)
}

pub open spec fn nth_line(lines: Seq<Seq<char>>, i: int) -> Option<Seq<char>> {
    if 0 <= i < lines.len() {
        Some(lines[i])
    } else {
        None
    }
}

pub open spec fn line_view(line: Option<&str>) -> Option<Seq<char>> {
    match line {
        Some(l) => Some(l@),
        None => None,
    }
}

/// Reads the line that starts at `pos`, if one does, and where the line after it starts.
pub fn next_line<'a>(text: &'a str, n: usize, pos: usize) -> (r: (Option<&'a str>, usize))
    requires
        n == text@.len(),
        pos <= n,
    ensures
        pos <= r.1 <= n,
        match r.0 {
            None => lines_from(text@, pos as nat) == Seq::<Seq<char>>::empty(),
            Some(line) => pos < r.1 && lines_from(text@, pos as nat) == seq![line@] + lines_from(
                text@,
                r.1 as nat,
            ),
        },
{
    if pos == n {
        return (None, pos);
    }
    let ghost s = text@;
    let mut brk: usize = pos;
    while brk < n
        invariant
            n == s.len(),
            s == text@,
            pos < n,
            pos <= brk <= n,
            index_of_from(s, '\n', pos as nat) == index_of_from(s, '\n', brk as nat),
        ensures
            pos <= brk <= n,
            index_of_from(s, '\n', pos as nat) == brk,
        decreases n - brk,
    {
        if text.get_char(brk) == '\n' {
            break;
        }
        brk = brk + 1;
    }
    let mut end: usize = brk;
    if brk < n && brk > pos && text.get_char(brk - 1) == '\r' {
        end = brk - 1;
    }
    let line = text.substring_char(pos, end);
    let next: usize = if brk < n {
        brk + 1
    } else {
        n
    };
    assert(line@ == line_between(s, pos as nat, brk as nat));
    (Some(line), next)
}

pub proof fn line_up_to_break(s: Seq<char>, pos: nat, brk: nat, line: Seq<char>)
    requires
        pos <= brk < s.len(),
        s.subrange(pos as int, brk as int) == line,
        s[brk as int] == '\n',
        forall|i: int| 0 <= i < line.len() ==> line[i] != '\n',
        line.len() > 0 ==> line.last() != '\r',
    ensures
        lines_from(s, pos) == seq![line] + lines_from(s, brk + 1),
{
    assert forall|j: int| pos <= j < brk implies s[j] != '\n' by {
        assert(s[j] == line[j - pos]);
    }
    index_of_from_is(s, '\n', pos, brk);
    if brk > pos {
        assert(s[brk - 1] == line.last());
    }
}

pub open spec fn line_fits(line: Seq<char>) -> bool {
    &&& forall|i: int| 0 <= i < line.len() ==> line[i] != '\n'
    &&& line.len() > 0 ==> line.last() != '\r'
}

/// Lines written one after another, each followed by `\n`.
pub open spec fn joined_lines(ls: Seq<Seq<char>>) -> Seq<char>
    decreases ls.len(),
{
    if ls.len() == 0 {
        Seq::empty()
    } else {
        ls[0] + seq!['\n'] + joined_lines(ls.drop_first())
    }
}

proof fn index_of_from_shift(p: Seq<char>, s: Seq<char>, c: char, k: nat)
    requires
        k <= s.len(),
    ensures
        index_of_from(p + s, c, p.len() + k) == p.len() + index_of_from(s, c, k),
    decreases s.len() - k,
{
    if k < s.len() {
        assert((p + s)[p.len() + k as int] == s[k as int]);
        if s[k as int] != c {
            index_of_from_shift(p, s, c, k + 1);
        }
    }
}

/// The lines of a text from a position on do not depend on what stands before it.
pub proof fn lines_from_shift(p: Seq<char>, s: Seq<char>, k: nat)
    requires
        k <= s.len(),
    ensures
        lines_from(p + s, p.len() + k) == lines_from(s, k),
    decreases s.len() - k,
{
    if k < s.len() {
        index_of_from_shift(p, s, '\n', k);
        index_of_from_facts(s, '\n', k);
        let brk = index_of_from(s, '\n', k);
        if brk > k {
            assert((p + s)[p.len() + brk - 1] == s[brk - 1]);
        }
        assert(line_between(p + s, p.len() + k, p.len() + brk) =~= line_between(s, k, brk));
        if brk < s.len() {
            lines_from_shift(p, s, brk + 1);
        }
    }
}

/// Lines that each read back as themselves, joined, read back as those lines.
pub proof fn lines_of_joined(ls: Seq<Seq<char>>)
    requires
        forall|i: int| 0 <= i < ls.len() ==> line_fits(#[trigger] ls[i]),
    ensures
        text_lines(joined_lines(ls)) == ls,
    decreases ls.len(),
{
    if ls.len() > 0 {
        let x = ls[0];
        let rest = joined_lines(ls.drop_first());
        let s = joined_lines(ls);
        assert(s == (x + seq!['\n']) + rest);
        assert(s.subrange(0, x.len() as int) =~= x);
        assert(s[x.len() as int] == '\n');
        assert(line_fits(x));
        line_up_to_break(s, 0, x.len(), x);
        lines_from_shift(x + seq!['\n'], rest, 0);
        assert forall|i: int| 0 <= i < ls.drop_first().len() implies line_fits(
            #[trigger] ls.drop_first()[i],
        ) by {
            assert(ls.drop_first()[i] == ls[i + 1]);
        }
        lines_of_joined(ls.drop_first());
        assert(ls =~= seq![x] + ls.drop_first());
    }
}

/// Joining two runs of lines one after the other joins their texts.
pub proof fn joined_lines_add(a: Seq<Seq<char>>, b: Seq<Seq<char>>)
    ensures
        joined_lines(a + b) == joined_lines(a) + joined_lines(b),
    decreases a.len(),
{
    if a.len() == 0 {
        assert(a + b =~= b);
        assert(joined_lines(a) + joined_lines(b) =~= joined_lines(b));
    } else {
        assert((a + b).drop_first() =~= a.drop_first() + b);
        assert((a + b)[0] == a[0]);
        joined_lines_add(a.drop_first(), b);
        assert(joined_lines(a + b) =~= joined_lines(a) + joined_lines(b));
    }
}

/// A single line, joined, is the line and its line break.
pub proof fn joined_single(x: Seq<char>)
    ensures
        joined_lines(seq![x]) == x + seq!['\n'],
{
    let l = seq![x];
    assert(l.drop_first() =~= Seq::<Seq<char>>::empty());
    assert(joined_lines(l.drop_first()) == Seq::<char>::empty());
    assert(l[0] == x);
    assert(joined_lines(l) =~= x + seq!['\n']);
}

} // verus!
