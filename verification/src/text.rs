//! Text as sequences of characters: the few string operations the emitters are
//! built from, each with its meaning as a function on `Seq<char>`.
use vstd::prelude::*;
use vstd::string::*;

verus! {

/// The texts of a sequence of strings.
pub open spec fn strs(v: Seq<String>) -> Seq<Seq<char>> {
    v.map_values(|s: String| s@)
}

/// `parts` written one after another with `sep` between neighbours.
pub open spec fn join_seq(parts: Seq<Seq<char>>, sep: Seq<char>) -> Seq<char>
    decreases parts.len(),
{
    if parts.len() == 0 {
        Seq::empty()
    } else if parts.len() == 1 {
        parts[0]
    } else {
        join_seq(parts.drop_last(), sep) + sep + parts.last()
    }
}

/// `parts` written one after another.
pub open spec fn concat_seq(parts: Seq<Seq<char>>) -> Seq<char>
    decreases parts.len(),
{
    if parts.len() == 0 {
        Seq::empty()
    } else {
        concat_seq(parts.drop_last()) + parts.last()
    }
}

/// The pieces of `s` between occurrences of `sep`. There is always at least
/// one piece; a separator at either end gives an empty piece there.
pub open spec fn split_seq(s: Seq<char>, sep: char) -> Seq<Seq<char>>
    decreases s.len(),
{
    if s.len() == 0 {
        seq![Seq::empty()]
    } else {
        let before = split_seq(s.drop_last(), sep);
        if s.last() == sep {
            before.push(Seq::empty())
        } else {
            before.drop_last().push(before.last().push(s.last()))
        }
    }
}

/// Splitting never gives an empty list of pieces.
pub proof fn lemma_split_nonempty(s: Seq<char>, sep: char)
    ensures
        split_seq(s, sep).len() >= 1,
    decreases s.len(),
{
    if s.len() > 0 {
        lemma_split_nonempty(s.drop_last(), sep);
    }
}

/// No piece of a split holds the separator.
pub proof fn lemma_split_pieces_lack_sep(s: Seq<char>, sep: char, i: int)
    requires
        0 <= i < split_seq(s, sep).len(),
    ensures
        !split_seq(s, sep)[i].contains(sep),
    decreases s.len(),
{
    if s.len() > 0 {
        let before = split_seq(s.drop_last(), sep);
        lemma_split_nonempty(s.drop_last(), sep);
        if s.last() == sep {
            if i < before.len() {
                lemma_split_pieces_lack_sep(s.drop_last(), sep, i);
            }
        } else {
            if i < before.len() - 1 {
                lemma_split_pieces_lack_sep(s.drop_last(), sep, i);
            } else {
                lemma_split_pieces_lack_sep(s.drop_last(), sep, before.len() - 1);
                let piece = before.last().push(s.last());
                assert forall|k: int| 0 <= k < piece.len() implies piece[k] != sep by {
                    if k < before.last().len() {
                        assert(before.last().contains(before.last()[k]));
                    }
                }
            }
        }
    }
}

/// Joining the pieces of a split with the separator gives the text back.
pub proof fn lemma_join_of_split(s: Seq<char>, sep: char)
    ensures
        join_seq(split_seq(s, sep), seq![sep]) == s,
    decreases s.len(),
{
    if s.len() == 0 {
        assert(split_seq(s, sep)[0] =~= s);
    } else {
        let head = s.drop_last();
        let before = split_seq(head, sep);
        lemma_split_nonempty(head, sep);
        lemma_join_of_split(head, sep);
        if s.last() == sep {
            let all = before.push(Seq::empty());
            assert(all.drop_last() =~= before);
            assert(join_seq(all, seq![sep]) =~= head + seq![sep]);
            assert(head + seq![sep] =~= s);
        } else {
            let piece = before.last().push(s.last());
            let all = before.drop_last().push(piece);
            assert(all.drop_last() =~= before.drop_last());
            if before.len() == 1 {
                assert(before[0] == head);
                assert(piece =~= s);
            } else {
                assert(join_seq(before, seq![sep]) == join_seq(before.drop_last(), seq![sep])
                    + seq![sep] + before.last());
                assert(join_seq(all, seq![sep]) =~= join_seq(before, seq![sep]).push(s.last()));
                assert(head.push(s.last()) =~= s);
            }
        }
    }
}

/// A joined text begins with its first part.
pub proof fn lemma_join_starts_with_first(parts: Seq<Seq<char>>, sep: Seq<char>)
    requires
        parts.len() > 0,
    ensures
        join_seq(parts, sep).len() >= parts[0].len(),
        join_seq(parts, sep).subrange(0, parts[0].len() as int) == parts[0],
    decreases parts.len(),
{
    if parts.len() == 1 {
        assert(parts[0].subrange(0, parts[0].len() as int) =~= parts[0]);
    } else {
        lemma_join_starts_with_first(parts.drop_last(), sep);
        let head = join_seq(parts.drop_last(), sep);
        assert(parts.drop_last()[0] == parts[0]);
        assert(join_seq(parts, sep).subrange(0, parts[0].len() as int) =~= head.subrange(
            0,
            parts[0].len() as int,
        ));
    }
}

/// Appends one character by `String::push`, which adds it at the end.
#[verifier::external_body]
pub(crate) fn push_char(s: &mut String, c: char)
    ensures
        final(s)@ == old(s)@.push(c),
{
    s.push(c)
}

/// The characters of `s`, in order.
pub fn chars_of(s: &str) -> (v: Vec<char>)
    ensures
        v@ == s@,
{
    let mut v: Vec<char> = Vec::new();
    for c in it: s.chars()
        invariant
            v@ == s@.take(it.index() as int),
            it.seq() == s@,
    {
        v.push(c);
    }
    v
}

/// Whether two texts are the same.
pub fn str_eq(a: &str, b: &str) -> (r: bool)
    ensures
        r == (a@ == b@),
{
    let x = a.to_owned();
    let y = b.to_owned();
    x == y
}

/// Whether `c` occurs in `s`.
pub fn contains_char(s: &str, c: char) -> (r: bool)
    ensures
        r == s@.contains(c),
{
    let mut found = false;
    for x in it: s.chars()
        invariant
            it.seq() == s@,
            found == s@.take(it.index() as int).contains(c),
    {
        proof {
            let i = it.index() as int;
            let seen = s@.take(i);
            let next = s@.take(i + 1);
            assert(next =~= seen.push(x));
            if seen.contains(c) {
                let k = choose|k: int| 0 <= k < seen.len() && seen[k] == c;
                assert(next[k] == c);
            }
            if next.contains(c) && x != c {
                let k = choose|k: int| 0 <= k < next.len() && next[k] == c;
                assert(seen[k] == c);
            }
            if x == c {
                assert(next[i] == c);
            }
        }
        if x == c {
            found = true;
        }
    }
    proof {
        assert(s@.take(s@.len() as int) =~= s@);
    }
    found
}

/// The first character of `s`, if there is one.
pub fn first_char(s: &str) -> (r: Option<char>)
    ensures
        r == if s@.len() == 0 { None } else { Some(s@[0]) },
{
    let mut it = s.chars();
    let r = it.next();
    proof {
        broadcast use vstd::string::group_string_axioms;
    }
    r
}

/// `parts` joined with `sep` between neighbours.
pub fn join(parts: &Vec<String>, sep: &str) -> (out: String)
    ensures
        out@ == join_seq(strs(parts@), sep@),
{
    let mut out = String::new();
    let mut i: usize = 0;
    while i < parts.len()
        invariant
            i <= parts.len(),
            out@ == join_seq(strs(parts@).take(i as int), sep@),
        decreases parts.len() - i,
    {
        proof {
            let all = strs(parts@);
            assert(all.take(i + 1).drop_last() =~= all.take(i as int));
            assert(all.take(i + 1).last() == parts@[i as int]@);
        }
        if i > 0 {
            out.append(sep);
        }
        out.append(parts[i].as_str());
        proof {
            if i == 0 {
                assert(out@ =~= parts@[0]@);
            }
        }
        i += 1;
    }
    proof {
        assert(strs(parts@).take(parts@.len() as int) =~= strs(parts@));
    }
    out
}

/// The pieces of `s` between occurrences of `sep`.
pub fn split(s: &str, sep: char) -> (pieces: Vec<String>)
    ensures
        strs(pieces@) == split_seq(s@, sep),
        pieces@.len() >= 1,
{
    let mut pieces: Vec<String> = Vec::new();
    let mut cur = String::new();
    for c in it: s.chars()
        invariant
            it.seq() == s@,
            strs(pieces@).push(cur@) == split_seq(s@.take(it.index() as int), sep),
    {
        proof {
            let i = it.index() as int;
            assert(s@.take(i + 1).drop_last() =~= s@.take(i));
            assert(s@.take(i + 1).last() == c);
            assert(strs(pieces@).push(cur@).drop_last() =~= strs(pieces@));
        }
        if c == sep {
            let ghost before = strs(pieces@);
            pieces.push(cur);
            cur = String::new();
            proof {
                assert(strs(pieces@) =~= before.push(pieces@.last()@));
            }
        } else {
            push_char(&mut cur, c);
        }
    }
    proof {
        assert(s@.take(s@.len() as int) =~= s@);
    }
    let ghost before = strs(pieces@);
    pieces.push(cur);
    proof {
        assert(strs(pieces@) =~= before.push(pieces@.last()@));
    }
    pieces
}

} // verus!
