//! Small verified operations on text.
use vstd::prelude::*;
use vstd::string::*;

verus! {

/// Whether two texts hold the same characters.
pub fn str_eq(a: &str, b: &str) -> (r: bool)
    ensures
        r == (a@ == b@),
{
    let x: String = a.to_owned();
    let y: String = b.to_owned();
    x == y
}

/// Whether a text ends with `/`.
pub fn ends_with_slash(s: &str) -> (r: bool)
    ensures
        r == (s@.len() > 0 && s@.last() == '/'),
{
    let n: usize = s.unicode_len();
    if n == 0 {
        false
    } else {
        s.get_char(n - 1) == '/'
    }
}

/// The pieces of `s` between the occurrences of `sep`, empty pieces included
/// (so a text without `sep` is one piece, and the empty text is one empty piece).
pub open spec fn split_on(s: Seq<char>, sep: char) -> Seq<Seq<char>>
    decreases s.len(),
{
    if s.len() == 0 {
        seq![Seq::<char>::empty()]
    } else {
        let rest = split_on(s.drop_last(), sep);
        if s.last() == sep {
            rest.push(Seq::<char>::empty())
        } else {
            rest.update(rest.len() - 1, rest.last().push(s.last()))
        }
    }
}

proof fn lemma_split_on_nonempty(s: Seq<char>, sep: char)
    ensures
        split_on(s, sep).len() >= 1,
    decreases s.len(),
{
    if s.len() > 0 {
        lemma_split_on_nonempty(s.drop_last(), sep);
    }
}

/// Splits `s` at each `sep`, keeping empty pieces.
pub fn split_text(s: &str, sep: char) -> (r: Vec<String>)
    ensures
        r@.map_values(|p: String| p@) == split_on(s@, sep),
{
    let n: usize = s.unicode_len();
    let mut parts: Vec<String> = Vec::new();
    let mut start: usize = 0;
    let mut i: usize = 0;
    proof {
        assert(s@.subrange(0, 0) =~= Seq::<char>::empty());
        assert(parts@.map_values(|p: String| p@).push(s@.subrange(0, 0)) =~= seq![Seq::<char>::empty()]);
    }
    while i < n
        invariant
            n == s@.len(),
            start <= i <= n,
            parts@.map_values(|p: String| p@).push(s@.subrange(start as int, i as int))
                == split_on(s@.subrange(0, i as int), sep),
        decreases n - i,
    {
        let c = s.get_char(i);
        proof {
            let pre = s@.subrange(0, i as int);
            let next = s@.subrange(0, i + 1);
            assert(next.drop_last() =~= pre);
            assert(next.last() == c);
            lemma_split_on_nonempty(pre, sep);
        }
        if c == sep {
            let piece: String = s.substring_char(start, i).to_owned();
            parts.push(piece);
            start = i + 1;
            proof {
                assert(s@.subrange(start as int, i + 1) =~= Seq::<char>::empty());
            }
        } else {
            proof {
                assert(s@.subrange(start as int, i + 1) =~= s@.subrange(start as int, i as int).push(c));
            }
        }
        i = i + 1;
    }
    let last: String = s.substring_char(start, n).to_owned();
    parts.push(last);
    proof {
        assert(s@.subrange(0, n as int) =~= s@);
    }
    parts
}

/// The pieces put end to end with `sep` between each two.
pub open spec fn join_on(parts: Seq<Seq<char>>, sep: char) -> Seq<char>
    decreases parts.len(),
{
    if parts.len() == 0 {
        Seq::empty()
    } else if parts.len() == 1 {
        parts[0]
    } else {
        join_on(parts.drop_last(), sep).push(sep) + parts.last()
    }
}

/// Text without `sep` extends the last piece.
proof fn lemma_split_on_append(s: Seq<char>, t: Seq<char>, sep: char)
    requires
        forall|i: int| 0 <= i < t.len() ==> t[i] != sep,
    ensures
        split_on(s + t, sep) == split_on(s, sep).update(
            split_on(s, sep).len() - 1,
            split_on(s, sep).last() + t,
        ),
    decreases t.len(),
{
    lemma_split_on_nonempty(s, sep);
    let ps = split_on(s, sep);
    if t.len() == 0 {
        assert(s + t =~= s);
        assert(ps.last() + t =~= ps.last());
        assert(ps.update(ps.len() - 1, ps.last() + t) =~= ps);
    } else {
        let u = t.drop_last();
        lemma_split_on_append(s, u, sep);
        assert((s + t).drop_last() =~= s + u);
        assert((s + t).last() == t.last());
        let rest = split_on(s + u, sep);
        assert(rest.last() == ps.last() + u);
        assert((ps.last() + u).push(t.last()) =~= ps.last() + t);
        assert(rest.update(rest.len() - 1, rest.last().push(t.last()))
            =~= ps.update(ps.len() - 1, ps.last() + t));
    }
}

/// Splitting the join of pieces that do not hold the separator gives the
/// pieces back.
pub proof fn lemma_split_join(parts: Seq<Seq<char>>, sep: char)
    requires
        parts.len() >= 1,
        forall|i: int, j: int| 0 <= i < parts.len() && 0 <= j < parts[i].len() ==> parts[i][j] != sep,
    ensures
        split_on(join_on(parts, sep), sep) == parts,
    decreases parts.len(),
{
    let last = parts.last();
    assert(forall|j: int| 0 <= j < last.len() ==> last[j] != sep) by {
        assert forall|j: int| 0 <= j < last.len() implies last[j] != sep by {
            assert(parts[parts.len() - 1][j] != sep);
        }
    }
    if parts.len() == 1 {
        lemma_split_on_append(Seq::empty(), last, sep);
        assert(Seq::<char>::empty() + last =~= last);
        assert(split_on(Seq::<char>::empty(), sep) =~= seq![Seq::<char>::empty()]);
        assert(Seq::<char>::empty() + last =~= last);
        assert(seq![Seq::<char>::empty()].update(0, Seq::<char>::empty() + last) =~= parts);
    } else {
        let init = parts.drop_last();
        assert forall|i: int, j: int| 0 <= i < init.len() && 0 <= j < init[i].len() implies init[i][j] != sep by {
            assert(init[i] == parts[i]);
        }
        lemma_split_join(init, sep);
        let js = join_on(init, sep);
        assert(js.push(sep).drop_last() =~= js);
        let with_sep = split_on(js.push(sep), sep);
        assert(with_sep == init.push(Seq::<char>::empty()));
        lemma_split_on_append(js.push(sep), last, sep);
        assert(Seq::<char>::empty() + last =~= last);
        assert(with_sep.update(with_sep.len() - 1, with_sep.last() + last) =~= parts);
    }
}

} // verus!
