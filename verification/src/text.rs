//! Text as sequences of characters: the operations the edit buffer and the
//! commit step need, each stated over `Seq<char>`.
//!
//! Offsets count characters, never bytes, so every operation is defined on
//! any text, ASCII or not.

use vstd::prelude::*;
use vstd::string::StringExecFns;

verus! {

/// Trusted: `String::push` of the standard library, which vstd leaves
/// unspecified. Its documentation says that it appends the given character
/// to the end of the string; the contract says the same of the views.
pub assume_specification[ String::push ](s: &mut String, ch: char)
    ensures
        final(s)@ == old(s)@.push(ch),
;

/// The texts held by a sequence of strings.
pub open spec fn texts(strings: Seq<String>) -> Seq<Seq<char>> {
    strings.map_values(|s: String| s@)
}

/// The characters with the Unicode property `White_Space`.
pub open spec fn whitespace(c: char) -> bool {
    let code = c as u32;
    ||| 0x09 <= code <= 0x0D
    ||| code == 0x20
    ||| code == 0x85
    ||| code == 0xA0
    ||| code == 0x1680
    ||| 0x2000 <= code <= 0x200A
    ||| code == 0x2028
    ||| code == 0x2029
    ||| code == 0x202F
    ||| code == 0x205F
    ||| code == 0x3000
}

/// `s` without its leading whitespace.
pub open spec fn trim_start(s: Seq<char>) -> Seq<char>
    decreases s.len(),
{
    if s.len() > 0 && whitespace(s.first()) {
        trim_start(s.drop_first())
    } else {
        s
    }
}

/// `s` without its trailing whitespace.
pub open spec fn trim_end(s: Seq<char>) -> Seq<char>
    decreases s.len(),
{
    if s.len() > 0 && whitespace(s.last()) {
        trim_end(s.drop_last())
    } else {
        s
    }
}

/// `s` without the whitespace that surrounds it.
pub open spec fn trimmed(s: Seq<char>) -> Seq<char> {
    trim_end(trim_start(s))
}

/// The pieces of `s` between occurrences of `sep`, in order. A text with `k`
/// separators has `k + 1` pieces, some of which may be empty.
pub open spec fn split(s: Seq<char>, sep: char) -> Seq<Seq<char>>
    decreases s.len(),
{
    if s.len() == 0 {
        seq![Seq::empty()]
    } else {
        let before = split(s.drop_last(), sep);
        if s.last() == sep {
            before.push(Seq::empty())
        } else {
            before.update(before.len() - 1, before.last().push(s.last()))
        }
    }
}

/// `parts` written one after the other with `sep` between neighbours.
pub open spec fn joined(parts: Seq<Seq<char>>, sep: Seq<char>) -> Seq<char>
    decreases parts.len(),
{
    if parts.len() == 0 {
        Seq::empty()
    } else if parts.len() == 1 {
        parts[0]
    } else {
        joined(parts.drop_last(), sep) + sep + parts.last()
    }
}

/// The bullet points that a sequence of raw pieces stands for: each piece
/// trimmed, the empty ones left out.
pub open spec fn points_of(pieces: Seq<Seq<char>>) -> Seq<Seq<char>> {
    pieces.map_values(|p: Seq<char>| trimmed(p)).filter(|p: Seq<char>| p.len() > 0)
}

/// The bullet points written in a bullet field: the field is split on `;`,
/// each piece is trimmed, and pieces that are empty after trimming are
/// dropped.
pub open spec fn bullet_points(field: Seq<char>) -> Seq<Seq<char>> {
    points_of(split(field, ';'))
}

/// The text shown in a bullet field for a list of bullet points.
pub open spec fn bullet_text(points: Seq<Seq<char>>) -> Seq<char> {
    joined(points, "; "@)
}

/// A split always yields at least one piece.
pub proof fn lemma_split_nonempty(s: Seq<char>, sep: char)
    ensures
        split(s, sep).len() >= 1,
    decreases s.len(),
{
    if s.len() > 0 {
        lemma_split_nonempty(s.drop_last(), sep);
    }
}

/// How the pieces grow when one character is appended to the text.
proof fn lemma_split_push(s: Seq<char>, c: char, sep: char)
    ensures
        split(s, sep).len() >= 1,
        c == sep ==> split(s.push(c), sep) == split(s, sep).push(Seq::empty()),
        c != sep ==> split(s.push(c), sep) == split(s, sep).update(
            split(s, sep).len() - 1,
            split(s, sep).last().push(c),
        ),
{
    lemma_split_nonempty(s, sep);
    assert(s.push(c).drop_last() =~= s);
}

/// How the bullet points grow when one piece is appended.
proof fn lemma_points_push(pieces: Seq<Seq<char>>, piece: Seq<char>)
    ensures
        points_of(pieces.push(piece)) == if trimmed(piece).len() > 0 {
            points_of(pieces).push(trimmed(piece))
        } else {
            points_of(pieces)
        },
{
    let trim = |p: Seq<char>| trimmed(p);
    let keep = |p: Seq<char>| p.len() > 0;
    assert(pieces.push(piece).map_values(trim) =~= pieces.map_values(trim).push(trimmed(piece)));
    pieces.map_values(trim).lemma_filter_push(trimmed(piece), keep);
}

/// Leading whitespace ends at `k`: trimming the start drops exactly `k`
/// characters.
proof fn lemma_trim_start_at(s: Seq<char>, k: int)
    requires
        0 <= k <= s.len(),
        forall|i: int| 0 <= i < k ==> whitespace(#[trigger] s[i]),
        k < s.len() ==> !whitespace(s[k]),
    ensures
        trim_start(s) == s.subrange(k, s.len() as int),
    decreases k,
{
    if k > 0 {
        lemma_trim_start_at(s.drop_first(), k - 1);
    }
}

/// Trailing whitespace starts at `k`: trimming the end keeps exactly the
/// first `k` characters.
proof fn lemma_trim_end_at(s: Seq<char>, k: int)
    requires
        0 <= k <= s.len(),
        forall|i: int| k <= i < s.len() ==> whitespace(#[trigger] s[i]),
        k > 0 ==> !whitespace(s[k - 1]),
    ensures
        trim_end(s) == s.subrange(0, k),
    decreases s.len() - k,
{
    if k < s.len() {
        lemma_trim_end_at(s.drop_last(), k);
    }
}

/// Whether `c` is whitespace.
pub fn is_whitespace(c: char) -> (b: bool)
    ensures
        b == whitespace(c),
{
    let code: u32 = c as u32;
    (0x09 <= code && code <= 0x0D) || code == 0x20 || code == 0x85 || code == 0xA0 || code
        == 0x1680 || (0x2000 <= code && code <= 0x200A) || code == 0x2028 || code == 0x2029
        || code == 0x202F || code == 0x205F || code == 0x3000
}

/// The number of characters in `text`.
pub fn char_count(text: &str) -> (n: usize)
    ensures
        n == text@.len(),
{
    text.unicode_len()
}

/// The characters of `text`, in order.
pub fn chars_of(text: &str) -> (chars: Vec<char>)
    ensures
        chars@ == text@,
{
    let mut chars: Vec<char> = Vec::new();
    for c in it: text.chars()
        invariant
            chars@ == it.seq().take(it.index() as int),
    {
        chars.push(c);
    }
    chars
}

/// A string made of `chars[from..to]`.
pub fn string_of(chars: &Vec<char>, from: usize, to: usize) -> (text: String)
    requires
        from <= to <= chars.len(),
    ensures
        text@ == chars@.subrange(from as int, to as int),
{
    let mut text = String::new();
    let mut i: usize = from;
    while i < to
        invariant
            from <= i <= to <= chars.len(),
            text@ == chars@.subrange(from as int, i as int),
        decreases to - i,
    {
        text.push(chars[i]);
        i += 1;
    }
    text
}

/// `text` with `c` inserted before the character at offset `at`.
pub fn insert_char(text: &str, at: usize, c: char) -> (r: String)
    requires
        at <= text@.len(),
    ensures
        r@ == text@.insert(at as int, c),
{
    let n = text.unicode_len();
    let mut r = String::from_str(text.substring_char(0, at));
    r.push(c);
    r.append(text.substring_char(at, n));
    r
}

/// `text` without the character at offset `at`.
pub fn remove_char(text: &str, at: usize) -> (r: String)
    requires
        at < text@.len(),
    ensures
        r@ == text@.remove(at as int),
{
    let n = text.unicode_len();
    let mut r = String::from_str(text.substring_char(0, at));
    r.append(text.substring_char(at + 1, n));
    r
}

/// Where the trimmed part of `chars[from..to]` starts and ends.
fn trim_bounds(chars: &Vec<char>, from: usize, to: usize) -> (r: (usize, usize))
    requires
        from <= to <= chars.len(),
    ensures
        from <= r.0 <= r.1 <= to,
        chars@.subrange(r.0 as int, r.1 as int) == trimmed(chars@.subrange(from as int, to as int)),
{
    let mut lo: usize = from;
    while lo < to && is_whitespace(chars[lo])
        invariant
            from <= lo <= to <= chars.len(),
            forall|i: int| from <= i < lo ==> whitespace(#[trigger] chars@[i]),
        decreases to - lo,
    {
        lo += 1;
    }
    let mut hi: usize = to;
    while hi > lo && is_whitespace(chars[hi - 1])
        invariant
            lo <= hi <= to <= chars.len(),
            forall|i: int| hi <= i < to ==> whitespace(#[trigger] chars@[i]),
        decreases hi - lo,
    {
        hi -= 1;
    }
    proof {
        let whole = chars@.subrange(from as int, to as int);
        let tail = chars@.subrange(lo as int, to as int);
        lemma_trim_start_at(whole, lo - from);
        assert(whole.subrange(lo - from, whole.len() as int) =~= tail);
        lemma_trim_end_at(tail, hi - lo);
    }
    (lo, hi)
}

/// Appends the bullet point held in `chars[from..to]`, if it holds one.
fn push_point(points: &mut Vec<String>, chars: &Vec<char>, from: usize, to: usize)
    requires
        from <= to <= chars.len(),
    ensures
        texts(final(points)@) == if trimmed(chars@.subrange(from as int, to as int)).len() > 0 {
            texts(old(points)@).push(trimmed(chars@.subrange(from as int, to as int)))
        } else {
            texts(old(points)@)
        },
{
    let (lo, hi) = trim_bounds(chars, from, to);
    if lo < hi {
        let point = string_of(chars, lo, hi);
        points.push(point);
    }
}

/// Parses a bullet field into its bullet points.
pub fn split_points(field: &str) -> (points: Vec<String>)
    ensures
        texts(points@) == bullet_points(field@),
{
    let chars = chars_of(field);
    let n = chars.len();
    let mut points: Vec<String> = Vec::new();
    let mut start: usize = 0;
    let mut i: usize = 0;
    assert(points_of(Seq::<Seq<char>>::empty()) =~= Seq::<Seq<char>>::empty()) by {
        reveal(Seq::filter);
    }
    while i < n
        invariant
            n == chars.len(),
            start <= i <= n,
            split(chars@.take(i as int), ';').len() >= 1,
            split(chars@.take(i as int), ';').last() == chars@.subrange(start as int, i as int),
            texts(points@) == points_of(split(chars@.take(i as int), ';').drop_last()),
        decreases n - i,
    {
        let ghost seen = chars@.take(i as int);
        let ghost before = split(seen, ';');
        proof {
            lemma_split_push(seen, chars@[i as int], ';');
            assert(seen.push(chars@[i as int]) =~= chars@.take(i + 1));
        }
        if chars[i] == ';' {
            push_point(&mut points, &chars, start, i);
            proof {
                lemma_points_push(before.drop_last(), before.last());
                assert(before.drop_last().push(before.last()) =~= before);
                assert(before.push(Seq::empty()).drop_last() =~= before);
            }
            start = i + 1;
        } else {
            proof {
                let after = before.update(before.len() - 1, before.last().push(chars@[i as int]));
                assert(after.drop_last() =~= before.drop_last());
            }
        }
        i += 1;
    }
    let ghost all = split(chars@, ';');
    assert(chars@.take(n as int) =~= chars@);
    push_point(&mut points, &chars, start, n);
    proof {
        lemma_points_push(all.drop_last(), all.last());
        assert(all.drop_last().push(all.last()) =~= all);
    }
    points
}

/// Writes bullet points as the text of a bullet field.
pub fn join_points(points: &Vec<String>) -> (field: String)
    ensures
        field@ == bullet_text(texts(points@)),
{
    let mut field = String::new();
    let mut i: usize = 0;
    while i < points.len()
        invariant
            i <= points.len(),
            field@ == bullet_text(texts(points@).take(i as int)),
        decreases points.len() - i,
    {
        let ghost done = texts(points@).take(i as int);
        if i > 0 {
            field.append("; ");
        }
        field.append(points[i].as_str());
        i += 1;
        proof {
            let next = texts(points@).take(i as int);
            assert(next.drop_last() =~= done);
        }
    }
    assert(texts(points@).take(points.len() as int) =~= texts(points@));
    field
}

/// The character that shows the digit `d`.
pub open spec fn digit_char(d: nat) -> char {
    if d == 0 {
        '0'
    } else if d == 1 {
        '1'
    } else if d == 2 {
        '2'
    } else if d == 3 {
        '3'
    } else if d == 4 {
        '4'
    } else if d == 5 {
        '5'
    } else if d == 6 {
        '6'
    } else if d == 7 {
        '7'
    } else if d == 8 {
        '8'
    } else {
        '9'
    }
}

/// `n` written in decimal, without leading zeros.
pub open spec fn decimal(n: nat) -> Seq<char>
    decreases n,
{
    if n < 10 {
        seq![digit_char(n)]
    } else {
        decimal(n / 10).push(digit_char(n % 10))
    }
}

/// The character that shows the digit `d`.
fn digit_of(d: u8) -> (c: char)
    requires
        d < 10,
    ensures
        c == digit_char(d as nat),
{
    match d {
        0 => '0',
        1 => '1',
        2 => '2',
        3 => '3',
        4 => '4',
        5 => '5',
        6 => '6',
        7 => '7',
        8 => '8',
        _ => '9',
    }
}

/// `n` written in decimal.
pub fn format_number(n: u128) -> (text: String)
    ensures
        text@ == decimal(n as nat),
    decreases n,
{
    if n < 10 {
        let mut text = String::new();
        text.push(digit_of(n as u8));
        text
    } else {
        let mut text = format_number(n / 10);
        text.push(digit_of((n % 10) as u8));
        text
    }
}

/// A bullet point as the store holds it: not empty, without whitespace at
/// either end, and without the separator `;`.
pub open spec fn is_clean_point(point: Seq<char>) -> bool {
    &&& point.len() > 0
    &&& !whitespace(point.first())
    &&& !whitespace(point.last())
    &&& !point.contains(';')
}

/// A prefix of a text without `sep` is without `sep`.
proof fn lemma_prefix_without(s: Seq<char>, sep: char)
    requires
        s.len() > 0,
        !s.contains(sep),
    ensures
        !s.drop_last().contains(sep),
        s.last() != sep,
{
    let t = s.drop_last();
    if t.contains(sep) {
        let i = choose|i: int| 0 <= i < t.len() && t[i] == sep;
        assert(s[i] == sep);
    }
}

/// A text without the separator is one piece.
pub proof fn lemma_split_whole(s: Seq<char>, sep: char)
    requires
        !s.contains(sep),
    ensures
        split(s, sep) == seq![s],
    decreases s.len(),
{
    if s.len() == 0 {
        assert(s =~= Seq::<char>::empty());
    } else {
        let t = s.drop_last();
        lemma_prefix_without(s, sep);
        lemma_split_whole(t, sep);
        assert(t.push(s.last()) =~= s);
    }
}

/// Text without the separator, appended to `s`, extends the last piece of
/// `s` and leaves the other pieces as they are.
pub proof fn lemma_split_append(s: Seq<char>, t: Seq<char>, sep: char)
    requires
        !t.contains(sep),
    ensures
        split(s, sep).len() >= 1,
        split(s + t, sep) == split(s, sep).update(
            split(s, sep).len() - 1,
            split(s, sep).last() + t,
        ),
    decreases t.len(),
{
    lemma_split_nonempty(s, sep);
    let pieces = split(s, sep);
    if t.len() > 0 {
        let t0 = t.drop_last();
        lemma_prefix_without(t, sep);
        lemma_split_append(s, t0, sep);
        assert((s + t).drop_last() =~= s + t0);
        assert((pieces.last() + t0).push(t.last()) =~= pieces.last() + t);
    }
}

/// Splitting undoes joining, and no piece holds the separator: `split`
/// cuts a text exactly at its separators.
pub proof fn lemma_join_split(s: Seq<char>, sep: char)
    ensures
        joined(split(s, sep), seq![sep]) == s,
        forall|i: int| 0 <= i < split(s, sep).len() ==> !(#[trigger] split(s, sep)[i]).contains(sep),
    decreases s.len(),
{
    let pieces = split(s, sep);
    if s.len() > 0 {
        let before = split(s.drop_last(), sep);
        lemma_join_split(s.drop_last(), sep);
        lemma_split_nonempty(s.drop_last(), sep);
        if s.last() == sep {
            assert(pieces.drop_last() =~= before);
        } else {
            let grown = before.last().push(s.last());
            assert(!grown.contains(sep)) by {
                if grown.contains(sep) {
                    let i = choose|i: int| 0 <= i < grown.len() && grown[i] == sep;
                    assert(i < before.last().len() ==> before.last()[i] == sep);
                }
            }
            if before.len() > 1 {
                assert(pieces.drop_last() =~= before.drop_last());
                assert(s.drop_last().push(s.last()) =~= s);
            }
        }
    }
}

/// The pieces of the bullet text of clean points: the first point as it
/// is, every later one behind the space that follows the separator.
spec fn spaced(points: Seq<Seq<char>>) -> Seq<Seq<char>> {
    Seq::new(
        points.len(),
        |i: int|
            if i == 0 {
                points[i]
            } else {
                seq![' '] + points[i]
            },
    )
}

/// The bullet text of clean points splits into the points, each later one
/// behind a space.
proof fn lemma_split_bullet_text(points: Seq<Seq<char>>)
    requires
        points.len() > 0,
        forall|i: int| 0 <= i < points.len() ==> is_clean_point(#[trigger] points[i]),
    ensures
        split(bullet_text(points), ';') == spaced(points),
    decreases points.len(),
{
    reveal_strlit("; ");
    if points.len() == 1 {
        lemma_split_whole(points[0], ';');
    } else {
        let init = points.drop_last();
        let last = points.last();
        lemma_split_bullet_text(init);
        let text = bullet_text(init);
        let tail = seq![' '] + last;
        assert(!tail.contains(';')) by {
            if tail.contains(';') {
                let i = choose|i: int| 0 <= i < tail.len() && tail[i] == ';';
                assert(last[i - 1] == ';');
            }
        }
        assert(bullet_text(points) =~= text.push(';') + tail);
        lemma_split_push(text, ';', ';');
        lemma_split_append(text.push(';'), tail, ';');
    }
}

/// Trimming a clean point, with or without a space in front, gives the
/// point.
proof fn lemma_trim_clean(point: Seq<char>)
    requires
        is_clean_point(point),
    ensures
        trimmed(point) == point,
        trimmed(seq![' '] + point) == point,
{
    let spaced = seq![' '] + point;
    assert(spaced.drop_first() =~= point);
    assert(trim_start(spaced) == trim_start(point));
}

/// The bullet points of clean pieces, each later one behind a space, are
/// the pieces.
proof fn lemma_points_of_spaced(points: Seq<Seq<char>>)
    requires
        forall|i: int| 0 <= i < points.len() ==> is_clean_point(#[trigger] points[i]),
    ensures
        points_of(spaced(points)) == points,
    decreases points.len(),
{
    if points.len() == 0 {
        assert(points_of(Seq::<Seq<char>>::empty()) =~= Seq::<Seq<char>>::empty()) by {
            reveal(Seq::filter);
        }
    } else {
        let init = points.drop_last();
        lemma_points_of_spaced(init);
        lemma_trim_clean(points.last());
        assert(spaced(points) =~= spaced(init).push(spaced(points).last()));
        lemma_points_push(spaced(init), spaced(points).last());
    }
}

/// Writing clean bullet points into a bullet field and reading the field
/// back gives the same points: an entry that is opened and committed
/// unchanged keeps its bullet points.
pub proof fn lemma_bullet_round_trip(points: Seq<Seq<char>>)
    requires
        forall|i: int| 0 <= i < points.len() ==> is_clean_point(#[trigger] points[i]),
    ensures
        bullet_points(bullet_text(points)) == points,
{
    if points.len() == 0 {
        lemma_points_push(Seq::empty(), Seq::empty());
        assert(points_of(Seq::<Seq<char>>::empty()) =~= Seq::<Seq<char>>::empty()) by {
            reveal(Seq::filter);
        }
    } else {
        lemma_split_bullet_text(points);
        lemma_points_of_spaced(points);
    }
}

/// The bullet points of pieces without the separator are clean.
proof fn lemma_points_of_clean(pieces: Seq<Seq<char>>)
    requires
        forall|k: int| 0 <= k < pieces.len() ==> !(#[trigger] pieces[k]).contains(';'),
    ensures
        forall|i: int|
            0 <= i < points_of(pieces).len() ==> is_clean_point(#[trigger] points_of(pieces)[i]),
    decreases pieces.len(),
{
    if pieces.len() == 0 {
        assert(points_of(pieces) =~= Seq::<Seq<char>>::empty()) by {
            reveal(Seq::filter);
        }
    } else {
        let init = pieces.drop_last();
        lemma_points_of_clean(init);
        lemma_trimmed_is_clean(pieces.last(), ';');
        lemma_points_push(init, pieces.last());
        assert(init.push(pieces.last()) =~= pieces);
    }
}

/// Every bullet point read from a bullet field is clean: what a commit
/// stores can be shown and read back without change.
pub proof fn lemma_bullet_points_clean(field: Seq<char>)
    ensures
        forall|i: int|
            0 <= i < bullet_points(field).len() ==> is_clean_point(
                #[trigger] bullet_points(field)[i],
            ),
{
    lemma_join_split(field, ';');
    lemma_points_of_clean(split(field, ';'));
}

/// Trimming keeps a stretch of the text that neither starts nor ends with
/// whitespace.
proof fn lemma_trimmed_is_clean(s: Seq<char>, sep: char)
    requires
        !s.contains(sep),
    ensures
        !trimmed(s).contains(sep),
        trimmed(s).len() > 0 ==> !whitespace(trimmed(s).first()) && !whitespace(
            trimmed(s).last(),
        ),
{
    lemma_trim_start_keeps(s, sep);
    lemma_trim_end_keeps(trim_start(s), sep);
}

/// What trimming the start leaves has no whitespace in front and holds no
/// character that the text did not hold.
proof fn lemma_trim_start_keeps(s: Seq<char>, sep: char)
    requires
        !s.contains(sep),
    ensures
        !trim_start(s).contains(sep),
        trim_start(s).len() > 0 ==> !whitespace(trim_start(s).first()),
    decreases s.len(),
{
    if s.len() > 0 && whitespace(s.first()) {
        let rest = s.drop_first();
        if rest.contains(sep) {
            let i = choose|i: int| 0 <= i < rest.len() && rest[i] == sep;
            assert(s[i + 1] == sep);
        }
        lemma_trim_start_keeps(rest, sep);
    }
}

/// What trimming the end leaves has no whitespace at its end, keeps the
/// first character of the text if it is not whitespace, and holds no
/// character that the text did not hold.
proof fn lemma_trim_end_keeps(s: Seq<char>, sep: char)
    requires
        !s.contains(sep),
    ensures
        !trim_end(s).contains(sep),
        trim_end(s).len() > 0 ==> !whitespace(trim_end(s).last()) && trim_end(s).first()
            == s.first(),
        s.len() > 0 && !whitespace(s.first()) ==> trim_end(s).len() > 0,
    decreases s.len(),
{
    if s.len() > 0 && whitespace(s.last()) {
        lemma_prefix_without(s, sep);
        lemma_trim_end_keeps(s.drop_last(), sep);
    }
}

} // verus!
