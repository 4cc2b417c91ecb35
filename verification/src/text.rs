//! Helpers on lists of strings: membership, overlap and joining.

use vstd::prelude::*;

verus! {

/// Whether two lists of texts share at least one element.
pub open spec fn intersects(a: Seq<Seq<char>>, b: Seq<Seq<char>>) -> bool {
    exists|i: int, j: int| 0 <= i < a.len() && 0 <= j < b.len() && a[i] == b[j]
}

/// The texts of `parts` written one after another with `sep` between each
/// neighbouring pair.
pub open spec fn joined(parts: Seq<Seq<char>>, sep: Seq<char>) -> Seq<char>
    decreases parts.len(),
{
    if parts.len() == 0 {
        Seq::empty()
    } else if parts.len() == 1 {
        parts[0]
    } else {
        joined(parts.drop_last(), sep) + sep + parts.last()
    }
}

/// Whether `c` is white space: what `char::is_whitespace` answers for it.
pub uninterp spec fn white_space(c: char) -> bool;

/// `char::is_whitespace` of std decides the Unicode property White_Space.
/// The contract gives its answer a name and claims nothing else of it.
pub assume_specification[ char::is_whitespace ](c: char) -> (yes: bool)
    ensures
        yes == white_space(c),
;

/// `s` without the white space it begins with.
pub open spec fn trim_start(s: Seq<char>) -> Seq<char>
    decreases s.len(),
{
    if s.len() > 0 && white_space(s[0]) {
        trim_start(s.drop_first())
    } else {
        s
    }
}

/// `s` without the white space it ends with.
pub open spec fn trim_end(s: Seq<char>) -> Seq<char>
    decreases s.len(),
{
    if s.len() > 0 && white_space(s.last()) {
        trim_end(s.drop_last())
    } else {
        s
    }
}

/// `s` without the white space at either end.
pub open spec fn trimmed(s: Seq<char>) -> Seq<char> {
    trim_end(trim_start(s))
}

/// The pieces of `s` between occurrences of `sep`, in order. There is one
/// piece more than there are separators, so the empty text has one empty
/// piece.
pub open spec fn split(s: Seq<char>, sep: char) -> Seq<Seq<char>>
    decreases s.len(),
{
    if s.len() == 0 {
        seq![Seq::empty()]
    } else {
        let before = split(s.drop_last(), sep);
        if s.last() == sep {
            before.push(Seq::empty())
        } else {
            before.drop_last().push(before.last().push(s.last()))
        }
    }
}

/// The pieces of `s` between occurrences of `sep`, each without the white
/// space at its ends.
pub open spec fn split_trimmed(s: Seq<char>, sep: char) -> Seq<Seq<char>> {
    split(s, sep).map_values(|piece: Seq<char>| trimmed(piece))
}

/// A split gives at least one piece.
pub proof fn lemma_split_has_a_piece(s: Seq<char>, sep: char)
    ensures
        split(s, sep).len() >= 1,
    decreases s.len(),
{
    if s.len() > 0 {
        lemma_split_has_a_piece(s.drop_last(), sep);
    }
}

/// Joining the pieces of a split with the separator gives the text back,
/// and no piece holds the separator.
pub proof fn lemma_split_then_join(s: Seq<char>, sep: char)
    ensures
        joined(split(s, sep), seq![sep]) == s,
        forall|i: int| 0 <= i < split(s, sep).len() ==> !(#[trigger] split(s, sep)[i]).contains(sep),
    decreases s.len(),
{
    let pieces = split(s, sep);
    if s.len() == 0 {
        assert(pieces[0] =~= s);
        assert(joined(pieces, seq![sep]) == pieces[0]);
    } else {
        let before = split(s.drop_last(), sep);
        let last = s.last();
        lemma_split_has_a_piece(s.drop_last(), sep);
        lemma_split_then_join(s.drop_last(), sep);
        assert(s.drop_last().push(last) =~= s);
        if last == sep {
            assert(pieces.drop_last() =~= before);
            assert(joined(pieces, seq![sep]) =~= s.drop_last() + seq![sep] + Seq::<char>::empty());
            assert(joined(pieces, seq![sep]) =~= s);
        } else {
            let grown = before.last().push(last);
            assert(pieces.last() == grown);
            if before.len() == 1 {
                assert(joined(before, seq![sep]) == before[0]);
                assert(joined(pieces, seq![sep]) == grown);
            } else {
                assert(pieces.drop_last() =~= before.drop_last());
                assert(joined(pieces, seq![sep]) =~= joined(before.drop_last(), seq![sep]) + seq![
                    sep,
                ] + grown);
                assert(joined(before, seq![sep]) =~= joined(before.drop_last(), seq![sep]) + seq![
                    sep,
                ] + before.last());
                assert(joined(pieces, seq![sep]) =~= joined(before, seq![sep]).push(last));
            }
            assert(!grown.contains(sep)) by {
                if grown.contains(sep) {
                    let j = choose|j: int| 0 <= j < grown.len() && grown[j] == sep;
                    if j < before.last().len() {
                        assert(before.last()[j] == sep);
                        assert(before.last().contains(sep));
                        assert(before[before.len() - 1].contains(sep));
                    }
                }
            }
        }
        assert forall|i: int| 0 <= i < pieces.len() implies !(#[trigger] pieces[i]).contains(
            sep,
        ) by {
            if i < pieces.len() - 1 {
                assert(pieces[i] == before[i]);
            } else if last == sep {
                assert(pieces[i] =~= Seq::<char>::empty());
            }
        }
    }
}

/// Trimming the start of a range leaves what begins at its first character
/// that is not white space.
pub proof fn lemma_trim_start_range(s: Seq<char>, lo: int, first: int, hi: int)
    requires
        0 <= lo <= first <= hi <= s.len(),
        forall|k: int| lo <= k < first ==> white_space(s[k]),
        first == hi || !white_space(s[first]),
    ensures
        trim_start(s.subrange(lo, hi)) == s.subrange(first, hi),
    decreases first - lo,
{
    let range = s.subrange(lo, hi);
    if lo < first {
        assert(range[0] == s[lo]);
        assert(range.drop_first() =~= s.subrange(lo + 1, hi));
        lemma_trim_start_range(s, lo + 1, first, hi);
    } else if first < hi {
        assert(range[0] == s[first]);
    }
}

/// Trimming the end of a range leaves what ends with its last character
/// that is not white space.
pub proof fn lemma_trim_end_range(s: Seq<char>, lo: int, end: int, hi: int)
    requires
        0 <= lo <= end <= hi <= s.len(),
        forall|k: int| end <= k < hi ==> white_space(s[k]),
        end == lo || !white_space(s[end - 1]),
    ensures
        trim_end(s.subrange(lo, hi)) == s.subrange(lo, end),
    decreases hi - end,
{
    let range = s.subrange(lo, hi);
    if end < hi {
        assert(range.last() == s[hi - 1]);
        assert(range.drop_last() =~= s.subrange(lo, hi - 1));
        lemma_trim_end_range(s, lo, end, hi - 1);
    } else if lo < end {
        assert(range.last() == s[end - 1]);
    }
}

/// Whether `value` occurs in `list`.
pub fn contains(list: &Vec<String>, value: &String) -> (found: bool)
    ensures
        found == list.deep_view().contains(value@),
{
    let mut i: usize = 0;
    while i < list.len()
        invariant
            i <= list.len(),
            forall|k: int| 0 <= k < i ==> list.deep_view()[k] != value@,
        decreases list.len() - i,
    {
        if list[i] == *value {
            assert(list.deep_view()[i as int] == value@);
            return true;
        }
        i += 1;
    }
    false
}

/// Whether some element of `a` also occurs in `b`.
pub fn overlap(a: &Vec<String>, b: &Vec<String>) -> (found: bool)
    ensures
        found == intersects(a.deep_view(), b.deep_view()),
{
    let mut i: usize = 0;
    while i < a.len()
        invariant
            i <= a.len(),
            forall|k: int, j: int|
                0 <= k < i && 0 <= j < b.len() ==> a.deep_view()[k] != b.deep_view()[j],
        decreases a.len() - i,
    {
        if contains(b, &a[i]) {
            let ghost j = choose|j: int| 0 <= j < b.len() && b.deep_view()[j] == a[i as int]@;
            assert(a.deep_view()[i as int] == b.deep_view()[j]);
            return true;
        }
        i += 1;
    }
    false
}

/// Joins `parts` with `sep` between neighbours.
pub fn join(parts: &Vec<String>, sep: &str) -> (line: String)
    ensures
        line@ == joined(parts.deep_view(), sep@),
{
    let mut line = String::new();
    let mut i: usize = 0;
    while i < parts.len()
        invariant
            i <= parts.len(),
            line@ == joined(parts.deep_view().take(i as int), sep@),
        decreases parts.len() - i,
    {
        let ghost before = parts.deep_view().take(i as int);
        let ghost after = parts.deep_view().take(i + 1);
        assert(after.drop_last() == before);
        assert(after.last() == parts[i as int]@);
        if i > 0 {
            line.append(sep);
        }
        line.append(parts[i].as_str());
        assert(line@ == joined(after, sep@)) by {
            if i == 0 {
                assert(before.len() == 0);
                assert(line@ == parts[i as int]@);
            }
        }
        i += 1;
    }
    assert(parts.deep_view().take(parts.len() as int) == parts.deep_view());
    line
}

/// The characters of `s`, in order.
pub fn chars_of(s: &str) -> (chars: Vec<char>)
    ensures
        chars@ == s@,
{
    let mut chars: Vec<char> = Vec::new();
    for c in it: s.chars()
        invariant
            it.seq() == s@,
            chars@ == it.seq().take(it.index() as int),
    {
        chars.push(c);
    }
    chars
}

/// The characters `lo..hi` of `text` without the white space at either end.
/// `chars` holds the characters of `text`.
fn trim_range(text: &str, chars: &Vec<char>, lo: usize, hi: usize) -> (piece: String)
    requires
        chars@ == text@,
        lo <= hi <= chars.len(),
    ensures
        piece@ == trimmed(text@.subrange(lo as int, hi as int)),
{
    let mut first: usize = lo;
    while first < hi && chars[first].is_whitespace()
        invariant
            lo <= first <= hi <= chars.len(),
            forall|k: int| lo <= k < first ==> white_space(chars@[k]),
        decreases hi - first,
    {
        first += 1;
    }
    let mut end: usize = hi;
    while end > first && chars[end - 1].is_whitespace()
        invariant
            first <= end <= hi <= chars.len(),
            forall|k: int| end <= k < hi ==> white_space(chars@[k]),
        decreases end,
    {
        end -= 1;
    }
    proof {
        lemma_trim_start_range(text@, lo as int, first as int, hi as int);
        lemma_trim_end_range(text@, first as int, end as int, hi as int);
    }
    String::from_str(text.substring_char(first, end))
}

/// `text` without the white space at either end.
pub fn trim(text: &str) -> (piece: String)
    ensures
        piece@ == trimmed(text@),
{
    let chars = chars_of(text);
    assert(text@.subrange(0, text@.len() as int) =~= text@);
    trim_range(text, &chars, 0, chars.len())
}

/// Splits `text` at every `sep` and trims each piece.
pub fn split_and_trim(text: &str, sep: char) -> (pieces: Vec<String>)
    ensures
        pieces.deep_view() == split_trimmed(text@, sep),
{
    let chars = chars_of(text);
    let ghost s = text@;
    let ghost mut done: Seq<Seq<char>> = Seq::empty();
    let mut pieces: Vec<String> = Vec::new();
    let mut start: usize = 0;
    let mut i: usize = 0;
    proof {
        assert(s.take(0).len() == 0);
        assert(s.subrange(0, 0) =~= Seq::<char>::empty());
        assert(split(s.take(0), sep) =~= done.push(s.subrange(0, 0)));
        assert(pieces.deep_view() =~= done.map_values(|piece: Seq<char>| trimmed(piece)));
    }
    while i < chars.len()
        invariant
            chars@ == text@,
            s == text@,
            start <= i <= chars.len(),
            split(s.take(i as int), sep) == done.push(s.subrange(start as int, i as int)),
            pieces.deep_view() == done.map_values(|piece: Seq<char>| trimmed(piece)),
        decreases chars.len() - i,
    {
        proof {
            assert(s.take(i + 1).drop_last() =~= s.take(i as int));
            assert(s.take(i + 1).last() == s[i as int]);
            let before = done.push(s.subrange(start as int, i as int));
            assert(before.drop_last() =~= done);
            assert(before.last() == s.subrange(start as int, i as int));
        }
        if chars[i] == sep {
            let piece = trim_range(text, &chars, start, i);
            let ghost shown = pieces.deep_view();
            pieces.push(piece);
            proof {
                let raw = s.subrange(start as int, i as int);
                assert(pieces.deep_view() =~= shown.push(trimmed(raw)));
                assert(done.push(raw).map_values(|piece: Seq<char>| trimmed(piece)) =~= shown.push(
                    trimmed(raw),
                ));
                done = done.push(raw);
                assert(s.subrange(i + 1, i + 1) =~= Seq::<char>::empty());
            }
            start = i + 1;
        } else {
            assert(s.subrange(start as int, i as int).push(s[i as int]) =~= s.subrange(
                start as int,
                i + 1,
            ));
        }
        i += 1;
    }
    let piece = trim_range(text, &chars, start, i);
    let ghost shown = pieces.deep_view();
    pieces.push(piece);
    proof {
        let raw = s.subrange(start as int, i as int);
        assert(s.take(i as int) =~= s);
        assert(pieces.deep_view() =~= shown.push(trimmed(raw)));
        assert(done.push(raw).map_values(|piece: Seq<char>| trimmed(piece)) =~= shown.push(
            trimmed(raw),
        ));
    }
    pieces
}

} // verus!
