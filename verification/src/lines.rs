use vstd::prelude::*;

verus! {

// Line-oriented text, as the level format understands it: lines end at a
// '\n' (a '\r' immediately before the '\n' belongs to the ending and is
// dropped), and a final line ending is optional.

/// Index of the first '\n' in `s`, or `s.len()` when there is none.
pub open spec fn first_newline(s: Seq<char>) -> int
    decreases s.len(),
{
    if s.len() == 0 {
        0
    } else if s[0] == '\n' {
        0
    } else {
        1 + first_newline(s.drop_first())
    }
}

/// A terminated line keeps only the part before a trailing '\r'.
pub open spec fn strip_cr(l: Seq<char>) -> Seq<char> {
    if l.len() > 0 && l[l.len() - 1] == '\r' {
        l.drop_last()
    } else {
        l
    }
}

/// The lines of a text. An unterminated final segment is kept as it
/// stands (its '\r', if any, is not part of a line ending), and a text
/// that ends in '\n' has no empty line after it.
pub open spec fn lines_of(s: Seq<char>) -> Seq<Seq<char>>
    decreases s.len(),
    via lines_of_decreases
{
    if s.len() == 0 {
        Seq::empty()
    } else {
        let i = first_newline(s);
        if i == s.len() {
            seq![s]
        } else {
            seq![strip_cr(s.take(i))] + lines_of(s.skip(i + 1))
        }
    }
}

#[via_fn]
proof fn lines_of_decreases(s: Seq<char>) {
    lemma_first_newline_bounds(s);
}

/// The views of a vector of lines.
pub open spec fn line_views(ls: Seq<Vec<char>>) -> Seq<Seq<char>> {
    ls.map_values(|l: Vec<char>| l@)
}

proof fn lemma_first_newline_bounds(s: Seq<char>)
    ensures
        0 <= first_newline(s) <= s.len(),
        first_newline(s) < s.len() ==> s[first_newline(s)] == '\n',
        forall|k: int| 0 <= k < first_newline(s) ==> s[k] != '\n',
    decreases s.len(),
{
    if s.len() > 0 && s[0] != '\n' {
        lemma_first_newline_bounds(s.drop_first());
        assert(forall|k: int|
            1 <= k < first_newline(s) ==> s[k] == s.drop_first()[k - 1] && s[k] != '\n');
    }
}

proof fn lemma_first_newline_concat(l: Seq<char>, t: Seq<char>)
    requires
        !l.contains('\n'),
    ensures
        first_newline(l + seq!['\n'] + t) == l.len(),
    decreases l.len(),
{
    let u = l + seq!['\n'] + t;
    if l.len() == 0 {
        assert(u[0] == '\n');
    } else {
        assert(u[0] == l[0]);
        assert(l[0] != '\n');
        assert(u.drop_first() =~= l.drop_first() + seq!['\n'] + t);
        assert(!l.drop_first().contains('\n')) by {
            if l.drop_first().contains('\n') {
                let k = choose|k: int|
                    0 <= k < l.drop_first().len() && l.drop_first()[k] == '\n';
                assert(l[k + 1] == '\n');
            }
        }
        lemma_first_newline_concat(l.drop_first(), t);
    }
}

/// Closing a '\n'-free segment with a '\n' yields one stripped line
/// followed by the lines of the rest.
proof fn lemma_lines_of_split(l: Seq<char>, t: Seq<char>)
    requires
        !l.contains('\n'),
    ensures
        lines_of(l + seq!['\n'] + t) == seq![strip_cr(l)] + lines_of(t),
{
    let u = l + seq!['\n'] + t;
    lemma_first_newline_concat(l, t);
    assert(u.take(l.len() as int) =~= l);
    assert(u.skip(l.len() as int + 1) =~= t);
}

/// A nonempty '\n'-free text is a single line, kept as it stands.
proof fn lemma_lines_of_single(l: Seq<char>)
    requires
        l.len() > 0,
        !l.contains('\n'),
    ensures
        lines_of(l) == seq![l],
{
    lemma_first_newline_bounds(l);
    if first_newline(l) < l.len() {
        assert(l.contains('\n')) by {
            assert(l[first_newline(l)] == '\n');
        }
    }
}

/// A text has no more lines than characters.
pub(crate) proof fn lemma_lines_count_bound(s: Seq<char>)
    ensures
        lines_of(s).len() <= s.len(),
    decreases s.len(),
{
    if s.len() > 0 {
        lemma_first_newline_bounds(s);
        let i = first_newline(s);
        if i < s.len() {
            lemma_lines_count_bound(s.skip(i + 1));
        }
    }
}

/// No line of a text is longer than the text.
pub(crate) proof fn lemma_line_len_bound(s: Seq<char>, k: int)
    requires
        0 <= k < lines_of(s).len(),
    ensures
        lines_of(s)[k].len() <= s.len(),
    decreases s.len(),
{
    lemma_first_newline_bounds(s);
    let i = first_newline(s);
    if i < s.len() && k > 0 {
        lemma_line_len_bound(s.skip(i + 1), k - 1);
    }
}

/// Collect the characters of a string into a vector.
pub(crate) fn chars_vec(s: &str) -> (v: Vec<char>)
    ensures
        v@ == s@,
{
    let mut v: Vec<char> = Vec::new();
    proof {
        vstd::string::axiom_spec_iter(s);
    }
    for c in it: s.chars()
        invariant
            it.seq() == s@,
            v@ == it.history(),
    {
        v.push(c);
    }
    assert(v@ =~= s@);
    v
}

/// Split a text into its lines.
pub(crate) fn split_lines(cs: &Vec<char>) -> (r: Vec<Vec<char>>)
    ensures
        line_views(r@) == lines_of(cs@),
{
    let mut lines: Vec<Vec<char>> = Vec::new();
    let mut cur: Vec<char> = Vec::new();
    proof {
        assert(line_views(lines@) =~= Seq::<Seq<char>>::empty());
        assert(cur@ + cs@.skip(0) =~= cs@);
    }
    let mut i: usize = 0;
    while i < cs.len()
        invariant
            0 <= i <= cs@.len(),
            !cur@.contains('\n'),
            line_views(lines@) + lines_of(cur@ + cs@.skip(i as int)) =~= lines_of(cs@),
        decreases cs@.len() - i,
    {
        let c = cs[i];
        if c == '\n' {
            let ghost pre = cur@;
            let ghost rest = cs@.skip(i as int + 1);
            proof {
                assert(pre + cs@.skip(i as int) =~= pre + seq!['\n'] + rest);
                lemma_lines_of_split(pre, rest);
            }
            // A '\r' immediately before the '\n' belongs to the ending.
            if cur.len() > 0 && cur[cur.len() - 1] == '\r' {
                cur.pop();
            }
            assert(cur@ =~= strip_cr(pre));
            let ghost closed = lines@;
            lines.push(cur);
            cur = Vec::new();
            proof {
                assert(line_views(lines@) =~= line_views(closed).push(strip_cr(pre)));
                assert(cur@ + rest =~= rest);
            }
        } else {
            let ghost pre = cur@;
            cur.push(c);
            proof {
                assert(cur@ + cs@.skip(i as int + 1) =~= pre + cs@.skip(i as int));
                assert(!cur@.contains('\n')) by {
                    if cur@.contains('\n') {
                        let k = choose|k: int| 0 <= k < cur@.len() && cur@[k] == '\n';
                        assert(k < pre.len() || cur@[k] == c);
                    }
                }
            }
        }
        i += 1;
    }
    if cur.len() > 0 {
        proof {
            lemma_lines_of_single(cur@);
        }
        lines.push(cur);
    }
    assert(line_views(lines@) =~= lines_of(cs@));
    lines
}

} // verus!
