//! Joining name parts with a separator, and splitting a name at a separator.
use vstd::prelude::*;

verus! {

/// The characters of each string, in order.
pub open spec fn string_views(v: Seq<String>) -> Seq<Seq<char>> {
    v.map_values(|s: String| s@)
}

/// The parts written one after another with `sep` between neighbours.
pub open spec fn joined(parts: Seq<Seq<char>>, sep: Seq<char>) -> Seq<char>
    decreases parts.len(),
{
    if parts.len() == 0 {
        Seq::empty()
    } else if parts.len() == 1 {
        parts[0]
    } else {
        joined(parts.drop_last(), sep) + sep + parts.last()
    }
}

/// The pieces of `s` between occurrences of `sep`: one more piece than there
/// are separators, empty pieces included.
pub open spec fn split_on(s: Seq<char>, sep: char) -> Seq<Seq<char>>
    decreases s.len(),
{
    if s.len() == 0 {
        seq![Seq::empty()]
    } else {
        let rest = split_on(s.drop_last(), sep);
        if s.last() == sep {
            rest.push(Seq::empty())
        } else {
            rest.update(rest.len() - 1, rest.last().push(s.last()))
        }
    }
}

/// Writes the parts one after another with `sep` between neighbours.
pub fn join(parts: &Vec<String>, sep: &str) -> (r: String)
    ensures
        r@ == joined(string_views(parts@), sep@),
{
    let ghost v = string_views(parts@);
    let mut out = String::new();
    let mut i: usize = 0;
    while i < parts.len()
        invariant
            i <= parts.len(),
            v == string_views(parts@),
            out@ == joined(v.take(i as int), sep@),
        decreases parts.len() - i,
    {
        assert(v.take(i as int + 1).drop_last() =~= v.take(i as int));
        if i > 0 {
            out.append(sep);
        }
        out.append(parts[i].as_str());
        i = i + 1;
    }
    assert(v.take(parts.len() as int) =~= v);
    out
}

/// Cuts `s` at every occurrence of `sep`.
pub fn split(s: &str, sep: char) -> (r: Vec<String>)
    ensures
        string_views(r@) == split_on(s@, sep),
{
    let n = s.unicode_len();
    let mut pieces: Vec<String> = Vec::new();
    let mut start: usize = 0;
    let mut i: usize = 0;
    assert(s@.take(0) =~= Seq::<char>::empty());
    assert(string_views(pieces@).push(s@.subrange(0, 0)) =~= seq![Seq::<char>::empty()]);
    while i < n
        invariant
            n == s@.len(),
            start <= i <= n,
            split_on(s@.take(i as int), sep) == string_views(pieces@).push(
                s@.subrange(start as int, i as int),
            ),
        decreases n - i,
    {
        let c = s.get_char(i);
        let ghost prefix = s@.take(i as int + 1);
        let ghost rest = split_on(s@.take(i as int), sep);
        assert(prefix.drop_last() =~= s@.take(i as int));
        assert(prefix.last() == c);
        assert(split_on(prefix, sep) == (if c == sep {
            rest.push(Seq::empty())
        } else {
            rest.update(rest.len() - 1, rest.last().push(c))
        }));
        if c == sep {
            let ghost before = pieces@;
            let piece = s.substring_char(start, i).to_owned();
            pieces.push(piece);
            start = i + 1;
            assert(string_views(pieces@) =~= string_views(before).push(piece@));
            assert(s@.subrange(start as int, i as int + 1) =~= Seq::<char>::empty());
            assert(split_on(prefix, sep) =~= string_views(pieces@).push(
                s@.subrange(start as int, i as int + 1),
            ));
        } else {
            assert(s@.subrange(start as int, i as int).push(c) =~= s@.subrange(
                start as int,
                i as int + 1,
            ));
            assert(split_on(prefix, sep) =~= string_views(pieces@).push(
                s@.subrange(start as int, i as int + 1),
            ));
        }
        i = i + 1;
    }
    let last = s.substring_char(start, n).to_owned();
    pieces.push(last);
    assert(s@.take(n as int) =~= s@);
    assert(string_views(pieces@) =~= string_views(pieces@.drop_last()).push(last@));
    pieces
}

/// The strings of `s` other than `x`, in order.
pub open spec fn removed(s: Seq<Seq<char>>, x: Seq<char>) -> Seq<Seq<char>>
    decreases s.len(),
{
    if s.len() == 0 {
        s
    } else if s.last() == x {
        removed(s.drop_last(), x)
    } else {
        removed(s.drop_last(), x).push(s.last())
    }
}

/// Whether `x` is among the strings.
pub fn contains(v: &Vec<String>, x: &str) -> (r: bool)
    ensures
        r == string_views(v@).contains(x@),
{
    let ghost w = string_views(v@);
    let owned = x.to_owned();
    let mut i: usize = 0;
    while i < v.len()
        invariant
            i <= v.len(),
            owned@ == x@,
            w == string_views(v@),
            forall|j: int| 0 <= j < i ==> #[trigger] w[j] != x@,
        decreases v.len() - i,
    {
        assert(w[i as int] == v@[i as int]@);
        if v[i] == owned {
            return true;
        }
        i = i + 1;
    }
    false
}

/// The strings other than `x`, in order.
pub fn without(v: &Vec<String>, x: &str) -> (r: Vec<String>)
    ensures
        string_views(r@) == removed(string_views(v@), x@),
{
    let ghost w = string_views(v@);
    let owned = x.to_owned();
    let mut out: Vec<String> = Vec::new();
    let mut i: usize = 0;
    assert(w.take(0) =~= Seq::<Seq<char>>::empty());
    assert(string_views(out@) =~= Seq::<Seq<char>>::empty());
    while i < v.len()
        invariant
            i <= v.len(),
            owned@ == x@,
            w == string_views(v@),
            string_views(out@) == removed(w.take(i as int), x@),
        decreases v.len() - i,
    {
        assert(w.take(i as int + 1).drop_last() =~= w.take(i as int));
        assert(w[i as int] == v@[i as int]@);
        if v[i] != owned {
            let ghost before = out@;
            out.push(v[i].clone());
            assert(string_views(out@) =~= string_views(before).push(v@[i as int]@));
        }
        i = i + 1;
    }
    assert(w.take(v.len() as int) =~= w);
    out
}

/// A copy of the strings.
pub fn copy_strings(v: &Vec<String>) -> (r: Vec<String>)
    ensures
        r@ == v@,
{
    let mut out: Vec<String> = Vec::new();
    let mut i: usize = 0;
    while i < v.len()
        invariant
            i <= v.len(),
            out@ == v@.take(i as int),
        decreases v.len() - i,
    {
        out.push(v[i].clone());
        assert(out@ =~= v@.take(i as int + 1));
        i = i + 1;
    }
    assert(v@.take(v.len() as int) =~= v@);
    out
}

} // verus!
