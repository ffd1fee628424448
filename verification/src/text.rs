//! Operations on text, stated over the sequence of its characters.
use vstd::prelude::*;
use vstd::string::*;
use vstd::utf8::*;

verus! {

/// The texts of a list of strings.
pub open spec fn texts(list: Seq<String>) -> Seq<Seq<char>> {
    Seq::new(list.len(), |i: int| list[i]@)
}

/// The text of an optional string.
pub open spec fn opt_text(value: Option<String>) -> Option<Seq<char>> {
    match value {
        Some(s) => Some(s@),
        None => None,
    }
}

/// Whether `part` stands in `s` at position `at`.
pub open spec fn occurs_at(s: Seq<char>, part: Seq<char>, at: int) -> bool {
    0 <= at && at + part.len() <= s.len() && s.subrange(at, at + part.len()) == part
}

/// The first position, not before `from`, at which `part` stands in `s`.
pub open spec fn find_from(s: Seq<char>, part: Seq<char>, from: int) -> Option<int>
    decreases s.len() + 1 - from,
{
    if from < 0 || from + part.len() > s.len() {
        None
    } else if occurs_at(s, part, from) {
        Some(from)
    } else {
        find_from(s, part, from + 1)
    }
}

/// The first position at which `part` stands in `s`.
pub open spec fn find_text(s: Seq<char>, part: Seq<char>) -> Option<int> {
    find_from(s, part, 0)
}

/// Whether `part` stands anywhere in `s`.
pub open spec fn contains_text(s: Seq<char>, part: Seq<char>) -> bool {
    find_text(s, part) is Some
}

/// Whether `s` begins with `prefix`.
pub open spec fn begins_with(s: Seq<char>, prefix: Seq<char>) -> bool {
    occurs_at(s, prefix, 0)
}

/// `find_from` gives a position where the part stands, and none before it does.
pub proof fn find_from_is_first(s: Seq<char>, part: Seq<char>, from: int)
    requires
        0 <= from,
    ensures
        match find_from(s, part, from) {
            Some(at) => from <= at && occurs_at(s, part, at) && forall|j: int|
                from <= j < at ==> !#[trigger] occurs_at(s, part, j),
            None => forall|j: int| from <= j ==> !#[trigger] occurs_at(s, part, j),
        },
    decreases s.len() + 1 - from,
{
    if from + part.len() > s.len() {
    } else if occurs_at(s, part, from) {
    } else {
        find_from_is_first(s, part, from + 1);
    }
}

/// The characters with the Unicode property White_Space.
pub open spec fn is_space(c: char) -> bool {
    ||| '\u{9}' <= c <= '\u{d}'
    ||| c == ' '
    ||| c == '\u{85}'
    ||| c == '\u{a0}'
    ||| c == '\u{1680}'
    ||| '\u{2000}' <= c <= '\u{200a}'
    ||| c == '\u{2028}'
    ||| c == '\u{2029}'
    ||| c == '\u{202f}'
    ||| c == '\u{205f}'
    ||| c == '\u{3000}'
}

/// `s` without the white space it begins with.
pub open spec fn trimmed_start(s: Seq<char>) -> Seq<char>
    decreases s.len(),
{
    if s.len() > 0 && is_space(s[0]) {
        trimmed_start(s.drop_first())
    } else {
        s
    }
}

/// `s` without the white space it ends with.
pub open spec fn trimmed_end(s: Seq<char>) -> Seq<char>
    decreases s.len(),
{
    if s.len() > 0 && is_space(s.last()) {
        trimmed_end(s.drop_last())
    } else {
        s
    }
}

/// `s` without white space at either end.
pub open spec fn trimmed(s: Seq<char>) -> Seq<char> {
    trimmed_end(trimmed_start(s))
}

/// `s` without any `c` at its end.
pub open spec fn without_trailing(s: Seq<char>, c: char) -> Seq<char>
    decreases s.len(),
{
    if s.len() > 0 && s.last() == c {
        without_trailing(s.drop_last(), c)
    } else {
        s
    }
}

/// The pieces of `s` between the occurrences of a non-empty separator, found
/// from the left without overlap.
pub open spec fn split_text(s: Seq<char>, sep: Seq<char>) -> Seq<Seq<char>>
    recommends
        sep.len() > 0,
    decreases s.len(),
    when sep.len() > 0
    via split_text_decreases
{
    match find_text(s, sep) {
        Some(at) => seq![s.subrange(0, at)] + split_text(
            s.subrange(at + sep.len(), s.len() as int),
            sep,
        ),
        None => seq![s],
    }
}

#[via_fn]
proof fn split_text_decreases(s: Seq<char>, sep: Seq<char>) {
    find_from_is_first(s, sep, 0);
}

/// The pieces joined, with `sep` between neighbours.
pub open spec fn joined(parts: Seq<Seq<char>>, sep: Seq<char>) -> Seq<char>
    decreases parts.len(),
{
    if parts.len() == 0 {
        Seq::empty()
    } else if parts.len() == 1 {
        parts[0]
    } else {
        joined(parts.drop_last(), sep) + sep + parts.last()
    }
}

/// Decimal digits of a natural number, without leading zeros.
pub open spec fn decimal(n: nat) -> Seq<char>
    decreases n,
{
    if n < 10 {
        seq![digit(n)]
    } else {
        decimal(n / 10).push(digit(n % 10))
    }
}

/// The character of one decimal digit.
pub open spec fn digit(n: nat) -> char {
    ('0' as u32 + n) as char
}

/// Whether two texts are the same.
pub fn str_eq(a: &str, b: &str) -> (r: bool)
    ensures
        r == (a@ == b@),
{
    let x = a.as_bytes();
    let y = b.as_bytes();
    proof {
        encode_utf8_decode_utf8(a@);
        encode_utf8_decode_utf8(b@);
    }
    if x.len() != y.len() {
        return false;
    }
    let mut i: usize = 0;
    while i < x.len()
        invariant
            x@.len() == y@.len(),
            i <= x@.len(),
            forall|j: int| 0 <= j < i ==> x@[j] == y@[j],
            x@ == encode_utf8(a@),
            y@ == encode_utf8(b@),
        decreases x@.len() - i,
    {
        if x[i] != y[i] {
            return false;
        }
        i = i + 1;
    }
    assert(x@ =~= y@);
    true
}

/// The characters of a text.
pub fn chars_of(s: &str) -> (r: Vec<char>)
    ensures
        r@ == s@,
{
    let mut out: Vec<char> = Vec::new();
    for c in it: s.chars()
        invariant
            out@ == it.seq().subrange(0, it.index() as int),
            it.seq() == s@,
    {
        out.push(c);
        assert(it.seq().subrange(0, it.index() + 1) =~= it.seq().subrange(0, it.index() as int).push(c));
    }
    assert(s@.subrange(0, s@.len() as int) =~= s@);
    out
}

/// `String::push`: appends one character.
#[verifier::external_body]
pub(crate) fn push_char(s: &mut String, c: char)
    ensures
        final(s)@ == old(s)@.push(c),
{
    s.push(c)
}

/// The text made of `chars[from..to]`.
pub fn text_of(chars: &Vec<char>, from: usize, to: usize) -> (r: String)
    requires
        from <= to <= chars@.len(),
    ensures
        r@ == chars@.subrange(from as int, to as int),
{
    let mut out = String::new();
    let mut i: usize = from;
    while i < to
        invariant
            from <= i <= to <= chars@.len(),
            out@ == chars@.subrange(from as int, i as int),
        decreases to - i,
    {
        push_char(&mut out, chars[i]);
        assert(chars@.subrange(from as int, i + 1) =~= chars@.subrange(from as int, i as int).push(
            chars@[i as int],
        ));
        i = i + 1;
    }
    assert(chars@.subrange(from as int, from as int) =~= Seq::<char>::empty());
    out
}


/// Whether `part` stands in `s` at position `at`.
fn matches_at(s: &Vec<char>, part: &Vec<char>, at: usize) -> (r: bool)
    requires
        at + part@.len() <= s@.len(),
    ensures
        r == occurs_at(s@, part@, at as int),
{
    let n: usize = s.len();
    let mut i: usize = 0;
    while i < part.len()
        invariant
            n == s@.len(),
            i <= part@.len(),
            at + part@.len() <= s@.len(),
            forall|j: int| 0 <= j < i ==> s@[at + j] == part@[j],
        decreases part@.len() - i,
    {
        if s[at + i] != part[i] {
            proof {
                let w = s@.subrange(at as int, at + part@.len());
                assert(w[i as int] == s@[at + i]);
            }
            return false;
        }
        i = i + 1;
    }
    assert(s@.subrange(at as int, at + part@.len()) =~= part@);
    true
}

/// The first position, not before `from`, at which `part` stands in `s`.
pub fn find_chars(s: &Vec<char>, part: &Vec<char>, from: usize) -> (r: Option<usize>)
    requires
        from <= s@.len(),
    ensures
        match r {
            Some(at) => find_from(s@, part@, from as int) == Some(at as int) && from <= at && at
                + part@.len() <= s@.len(),
            None => find_from(s@, part@, from as int) is None,
        },
{
    let mut i: usize = from;
    while i <= s.len() && part.len() <= s.len() - i
        invariant
            from <= i <= s@.len() + 1,
            find_from(s@, part@, from as int) == find_from(s@, part@, i as int),
        decreases s@.len() + 1 - i,
    {
        if matches_at(s, part, i) {
            return Some(i);
        }
        if i == s.len() {
            assert(find_from(s@, part@, i + 1) is None);
            return None;
        }
        i = i + 1;
    }
    None
}

/// Whether `part` stands anywhere in `s`.
pub fn contains(s: &str, part: &str) -> (r: bool)
    ensures
        r == contains_text(s@, part@),
{
    let found = find_chars(&chars_of(s), &chars_of(part), 0);
    found.is_some()
}

/// Whether `s` begins with `prefix`.
pub fn starts_with(s: &str, prefix: &str) -> (r: bool)
    ensures
        r == begins_with(s@, prefix@),
{
    let cs = chars_of(s);
    let ps = chars_of(prefix);
    ps.len() <= cs.len() && matches_at(&cs, &ps, 0)
}

/// What follows `prefix` in `s`, if `s` begins with it.
pub open spec fn after_prefix(s: Seq<char>, prefix: Seq<char>) -> Option<Seq<char>> {
    if begins_with(s, prefix) {
        Some(s.subrange(prefix.len() as int, s.len() as int))
    } else {
        None
    }
}

/// What follows `prefix` in `s`, if `s` begins with it.
pub fn strip_prefix(s: &str, prefix: &str) -> (r: Option<String>)
    ensures
        opt_text(r) == after_prefix(s@, prefix@),
{
    let cs = chars_of(s);
    let ps = chars_of(prefix);
    if ps.len() <= cs.len() && matches_at(&cs, &ps, 0) {
        Some(text_of(&cs, ps.len(), cs.len()))
    } else {
        None
    }
}

/// What stands before and after the first `sep` in `s`.
pub open spec fn parted(s: Seq<char>, sep: Seq<char>) -> Option<(Seq<char>, Seq<char>)> {
    match find_text(s, sep) {
        Some(at) => Some((s.subrange(0, at), s.subrange(at + sep.len(), s.len() as int))),
        None => None,
    }
}

/// What stands before and after the first `sep` in `s`.
pub fn split_once(s: &str, sep: &str) -> (r: Option<(String, String)>)
    ensures
        match r {
            Some(p) => parted(s@, sep@) == Some((p.0@, p.1@)),
            None => parted(s@, sep@) is None,
        },
{
    let cs = chars_of(s);
    let ps = chars_of(sep);
    let n: usize = cs.len();
    match find_chars(&cs, &ps, 0) {
        Some(at) => Some((text_of(&cs, 0, at), text_of(&cs, at + ps.len(), n))),
        None => None,
    }
}

/// Whether a character has the Unicode property White_Space.
pub fn is_whitespace(c: char) -> (r: bool)
    ensures
        r == is_space(c),
{
    ('\u{9}' <= c && c <= '\u{d}') || c == ' ' || c == '\u{85}' || c == '\u{a0}' || c == '\u{1680}'
        || ('\u{2000}' <= c && c <= '\u{200a}') || c == '\u{2028}' || c == '\u{2029}' || c
        == '\u{202f}' || c == '\u{205f}' || c == '\u{3000}'
}

/// Where the text without its leading white space begins.
fn start_of_trimmed(cs: &Vec<char>) -> (r: usize)
    ensures
        r <= cs@.len(),
        cs@.subrange(r as int, cs@.len() as int) == trimmed_start(cs@),
{
    let mut i: usize = 0;
    proof {
        assert(cs@.subrange(0, cs@.len() as int) =~= cs@);
    }
    while i < cs.len() && is_whitespace(cs[i])
        invariant
            i <= cs@.len(),
            trimmed_start(cs@.subrange(i as int, cs@.len() as int)) == trimmed_start(cs@),
        decreases cs@.len() - i,
    {
        proof {
            let rest = cs@.subrange(i as int, cs@.len() as int);
            assert(rest[0] == cs@[i as int]);
            assert(rest.drop_first() =~= cs@.subrange(i + 1, cs@.len() as int));
        }
        i = i + 1;
    }
    proof {
        let rest = cs@.subrange(i as int, cs@.len() as int);
        if i < cs@.len() {
            assert(rest[0] == cs@[i as int]);
        }
    }
    i
}

/// Where the text from `from` on ends once its trailing white space is left out.
fn end_of_trimmed(cs: &Vec<char>, from: usize) -> (r: usize)
    requires
        from <= cs@.len(),
    ensures
        from <= r <= cs@.len(),
        cs@.subrange(from as int, r as int) == trimmed_end(
            cs@.subrange(from as int, cs@.len() as int),
        ),
{
    let mut e: usize = cs.len();
    while e > from && is_whitespace(cs[e - 1])
        invariant
            from <= e <= cs@.len(),
            trimmed_end(cs@.subrange(from as int, e as int)) == trimmed_end(
                cs@.subrange(from as int, cs@.len() as int),
            ),
        decreases e,
    {
        proof {
            let rest = cs@.subrange(from as int, e as int);
            assert(rest.last() == cs@[e - 1]);
            assert(rest.drop_last() =~= cs@.subrange(from as int, e - 1));
        }
        e = e - 1;
    }
    proof {
        let rest = cs@.subrange(from as int, e as int);
        if e > from {
            assert(rest.last() == cs@[e - 1]);
        }
    }
    e
}

/// `s` without the white space it begins with.
pub fn trim_start(s: &str) -> (r: String)
    ensures
        r@ == trimmed_start(s@),
{
    let cs = chars_of(s);
    let b: usize = start_of_trimmed(&cs);
    text_of(&cs, b, cs.len())
}

/// `s` without white space at either end.
pub fn trim(s: &str) -> (r: String)
    ensures
        r@ == trimmed(s@),
{
    let cs = chars_of(s);
    let b: usize = start_of_trimmed(&cs);
    let e: usize = end_of_trimmed(&cs, b);
    text_of(&cs, b, e)
}

/// Whether nothing but white space stands in `s`.
pub fn is_blank(s: &str) -> (r: bool)
    ensures
        r == (trimmed(s@).len() == 0),
{
    let t = trim(s);
    t.as_str().is_empty()
}

/// `s` without any `c` at its end.
pub fn trim_end_matches(s: &str, c: char) -> (r: String)
    ensures
        r@ == without_trailing(s@, c),
{
    let cs = chars_of(s);
    let mut e: usize = cs.len();
    assert(cs@.subrange(0, cs@.len() as int) =~= cs@);
    while e > 0 && cs[e - 1] == c
        invariant
            e <= cs@.len(),
            without_trailing(cs@.subrange(0, e as int), c) == without_trailing(cs@, c),
        decreases e,
    {
        proof {
            let rest = cs@.subrange(0, e as int);
            assert(rest.last() == cs@[e - 1]);
            assert(rest.drop_last() =~= cs@.subrange(0, e - 1));
        }
        e = e - 1;
    }
    proof {
        let rest = cs@.subrange(0, e as int);
        if e > 0 {
            assert(rest.last() == cs@[e - 1]);
        }
    }
    text_of(&cs, 0, e)
}

/// `s` without any `c` at its beginning.
pub open spec fn without_leading(s: Seq<char>, c: char) -> Seq<char>
    decreases s.len(),
{
    if s.len() > 0 && s[0] == c {
        without_leading(s.drop_first(), c)
    } else {
        s
    }
}

/// `s` without any `c` at its beginning.
pub fn trim_start_matches(s: &str, c: char) -> (r: String)
    ensures
        r@ == without_leading(s@, c),
{
    let cs = chars_of(s);
    let n: usize = cs.len();
    let mut i: usize = 0;
    assert(cs@.subrange(0, n as int) =~= cs@);
    while i < n && cs[i] == c
        invariant
            n == cs@.len(),
            i <= n,
            without_leading(cs@.subrange(i as int, n as int), c) == without_leading(cs@, c),
        decreases n - i,
    {
        proof {
            let rest = cs@.subrange(i as int, n as int);
            assert(rest[0] == cs@[i as int]);
            assert(rest.drop_first() =~= cs@.subrange(i + 1, n as int));
        }
        i = i + 1;
    }
    proof {
        let rest = cs@.subrange(i as int, n as int);
        if i < n {
            assert(rest[0] == cs@[i as int]);
        }
    }
    text_of(&cs, i, n)
}

/// The pieces of `s` between the occurrences of `sep`.
pub fn split(s: &str, sep: &str) -> (r: Vec<String>)
    requires
        sep@.len() > 0,
    ensures
        texts(r@) == split_text(s@, sep@),
        r@.len() > 0,
{
    let cs = chars_of(s);
    let ps = chars_of(sep);
    let mut out: Vec<String> = Vec::new();
    let n: usize = cs.len();
    let mut from: usize = 0;
    proof {
        assert(cs@.subrange(0, cs@.len() as int) =~= cs@);
        assert(texts(out@) + split_text(s@, sep@) =~= split_text(s@, sep@));
    }
    loop
        invariant_except_break
            texts(out@) + split_text(cs@.subrange(from as int, cs@.len() as int), sep@)
                == split_text(s@, sep@),
        invariant
            ps@ == sep@,
            sep@.len() > 0,
            cs@ == s@,
            n == cs@.len(),
            from <= cs@.len(),
        ensures
            texts(out@) == split_text(s@, sep@),
            out@.len() > 0,
        decreases cs@.len() - from,
    {
        let ghost rest = cs@.subrange(from as int, cs@.len() as int);
        proof {
            find_in_tail(cs@, ps@, from as int, from as int);
            find_from_is_first(rest, ps@, 0);
        }
        match find_chars(&cs, &ps, from) {
            Some(at) => {
                let piece = text_of(&cs, from, at);
                let ghost before = texts(out@);
                out.push(piece);
                proof {
                    assert(texts(out@) =~= before.push(piece@));
                    assert(rest.subrange(0, at - from) =~= piece@);
                    assert(rest.subrange(at - from + ps@.len(), rest.len() as int)
                        =~= cs@.subrange(at + ps@.len(), cs@.len() as int));
                    let tail = split_text(cs@.subrange(at + ps@.len(), cs@.len() as int), sep@);
                    assert(before.push(piece@) + tail =~= before + (seq![piece@] + tail));
                }
                from = at + ps.len();
            },
            None => {
                let piece = text_of(&cs, from, n);
                let ghost before = texts(out@);
                out.push(piece);
                proof {
                    assert(texts(out@) =~= before + seq![rest]);
                }
                break;
            },
        }
    }
    out
}

/// Searching a tail of the text is searching the text from where the tail begins.
pub proof fn find_in_tail(s: Seq<char>, part: Seq<char>, start: int, from: int)
    requires
        0 <= start <= from <= s.len(),
    ensures
        find_from(s.subrange(start, s.len() as int), part, from - start) == (match find_from(
            s,
            part,
            from,
        ) {
            Some(at) => Some(at - start),
            None => None::<int>,
        }),
    decreases s.len() + 1 - from,
{
    let tail = s.subrange(start, s.len() as int);
    if from + part.len() <= s.len() {
        assert(tail.subrange(from - start, from - start + part.len()) =~= s.subrange(
            from,
            from + part.len(),
        ));
        if !occurs_at(s, part, from) && from < s.len() {
            find_in_tail(s, part, start, from + 1);
        }
    }
}

/// What is found stays the first to be found when more text follows.
pub proof fn find_extends(a: Seq<char>, b: Seq<char>, part: Seq<char>, from: int)
    requires
        0 <= from,
        find_from(a, part, from) is Some,
    ensures
        find_from(a + b, part, from) == find_from(a, part, from),
    decreases a.len() + 1 - from,
{
    assert((a + b).subrange(from, from + part.len()) =~= a.subrange(from, from + part.len()));
    if !occurs_at(a, part, from) {
        find_extends(a, b, part, from + 1);
    }
}

/// What stands nowhere in a text stands nowhere in a part of it.
pub proof fn absent_from_part(s: Seq<char>, part: Seq<char>, from: int, to: int)
    requires
        0 <= from <= to <= s.len(),
        !contains_text(s, part),
    ensures
        !contains_text(s.subrange(from, to), part),
{
    find_from_is_first(s, part, 0);
    let piece = s.subrange(from, to);
    find_from_is_first(piece, part, 0);
    match find_text(piece, part) {
        Some(at) => {
            assert(s.subrange(from + at, from + at + part.len()) =~= piece.subrange(
                at,
                at + part.len(),
            ));
            assert(occurs_at(s, part, from + at));
        },
        None => {},
    }
}

/// The pieces joined, with `sep` between neighbours.
pub fn join(parts: &Vec<String>, sep: &str) -> (r: String)
    ensures
        r@ == joined(texts(parts@), sep@),
{
    let mut out = String::new();
    let mut i: usize = 0;
    let ghost all = texts(parts@);
    proof {
        assert(all.subrange(0, 0) =~= Seq::<Seq<char>>::empty());
    }
    while i < parts.len()
        invariant
            i <= parts@.len(),
            all == texts(parts@),
            out@ == joined(all.subrange(0, i as int), sep@),
        decreases parts@.len() - i,
    {
        if i > 0 {
            out.append(sep);
        }
        out.append(parts[i].as_str());
        proof {
            let more = all.subrange(0, i + 1);
            assert(more.drop_last() =~= all.subrange(0, i as int));
            assert(more.last() == parts@[i as int]@);
            if i == 0 {
                assert(Seq::<char>::empty() + parts@[0]@ =~= parts@[0]@);
            }
        }
        i = i + 1;
    }
    assert(all.subrange(0, all.len() as int) =~= all);
    out
}

/// Joining one piece more at the front.
pub proof fn joined_after(first: Seq<char>, parts: Seq<Seq<char>>, sep: Seq<char>)
    requires
        parts.len() > 0,
    ensures
        joined(seq![first] + parts, sep) == first + sep + joined(parts, sep),
    decreases parts.len(),
{
    let all = seq![first] + parts;
    assert(all.last() == parts.last());
    assert(all.drop_last() =~= seq![first] + parts.drop_last());
    if parts.len() == 1 {
        assert(all.drop_last() =~= seq![first]);
        assert(joined(all.drop_last(), sep) == first);
        assert(joined(parts, sep) == parts.last());
    } else {
        joined_after(first, parts.drop_last(), sep);
        assert(first + sep + joined(parts.drop_last(), sep) + sep + parts.last() =~= first + sep + (
        joined(parts.drop_last(), sep) + sep + parts.last()));
    }
}

/// A text that was split is whole again when its pieces are joined.
pub proof fn split_and_joined(s: Seq<char>, sep: Seq<char>)
    requires
        sep.len() > 0,
    ensures
        split_text(s, sep).len() > 0,
        joined(split_text(s, sep), sep) == s,
    decreases s.len(),
{
    find_from_is_first(s, sep, 0);
    if let Some(at) = find_text(s, sep) {
        let rest = s.subrange(at + sep.len(), s.len() as int);
        split_and_joined(rest, sep);
        joined_after(s.subrange(0, at), split_text(rest, sep), sep);
        assert(s =~= s.subrange(0, at) + s.subrange(at, at + sep.len()) + rest);
    }
}

/// Decimal digits of a number, without leading zeros.
pub fn decimal_text(n: u64) -> (r: String)
    ensures
        r@ == decimal(n as nat),
    decreases n,
{
    if n < 10 {
        let mut out = String::new();
        push_char(&mut out, digit_char(n));
        assert(out@ =~= seq![digit(n as nat)]);
        out
    } else {
        let mut out = decimal_text(n / 10);
        push_char(&mut out, digit_char(n % 10));
        out
    }
}

/// The character of one decimal digit.
fn digit_char(n: u64) -> (r: char)
    requires
        n < 10,
    ensures
        r == digit(n as nat),
{
    let code: u8 = 48 + n as u8;
    code as char
}

/// Whether a character is one of the ten decimal digits.
pub open spec fn is_digit(c: char) -> bool {
    '0' <= c <= '9'
}

/// The number that a sequence of decimal digits writes.
pub open spec fn digits_value(s: Seq<char>) -> nat
    decreases s.len(),
{
    if s.len() == 0 {
        0
    } else {
        digits_value(s.drop_last()) * 10 + (s.last() as u32 - '0' as u32) as nat
    }
}

/// Whether a text holds decimal digits only.
pub open spec fn all_digits(s: Seq<char>) -> bool {
    forall|i: int| 0 <= i < s.len() ==> is_digit(#[trigger] s[i])
}

/// A text without one leading plus sign.
pub open spec fn without_plus(s: Seq<char>) -> Seq<char> {
    if s.len() > 0 && s[0] == '+' {
        s.drop_first()
    } else {
        s
    }
}

/// The unsigned number that a text writes: decimal digits, at least one, after an
/// optional plus sign, with a value of at most `max`.
pub open spec fn parsed_unsigned(s: Seq<char>, max: nat) -> Option<nat> {
    let body = without_plus(s);
    if body.len() > 0 && all_digits(body) && digits_value(body) <= max {
        Some(digits_value(body))
    } else {
        None
    }
}

/// A number that was written in decimal digits is read back.
pub proof fn decimal_reads_back(n: nat)
    ensures
        decimal(n).len() > 0,
        all_digits(decimal(n)),
        digits_value(decimal(n)) == n,
        forall|max: nat| n <= max ==> #[trigger] parsed_unsigned(decimal(n), max) == Some(n),
    decreases n,
{
    let s = decimal(n);
    if n < 10 {
        assert(s =~= seq![digit(n)]);
        assert(s.drop_last() =~= Seq::empty());
        assert(digits_value(s.drop_last()) == 0);
        assert(digit(n) as u32 == '0' as u32 + n);
    } else {
        decimal_reads_back(n / 10);
        assert(s == decimal(n / 10).push(digit(n % 10)));
        assert(s.drop_last() =~= decimal(n / 10));
        assert(digit(n % 10) as u32 == '0' as u32 + n % 10);
    }
    assert(is_digit(s[0]));
}

/// The value of a run of digits is at least that of any run it begins with.
proof fn digits_value_grows(s: Seq<char>, k: int)
    requires
        0 <= k <= s.len(),
        all_digits(s),
    ensures
        digits_value(s.subrange(0, k)) <= digits_value(s),
    decreases s.len() - k,
{
    if k == s.len() {
        assert(s.subrange(0, k) =~= s);
    } else {
        digits_value_grows(s, k + 1);
        let more = s.subrange(0, k + 1);
        assert(more.drop_last() =~= s.subrange(0, k));
    }
}

/// Reads an unsigned number of at most `max` (see `parsed_unsigned`).
pub fn parse_unsigned(s: &str, max: u64) -> (r: Option<u64>)
    ensures
        match r {
            Some(n) => parsed_unsigned(s@, max as nat) == Some(n as nat),
            None => parsed_unsigned(s@, max as nat) is None,
        },
{
    let cs = chars_of(s);
    let from: usize = if cs.len() > 0 && cs[0] == '+' {
        1
    } else {
        0
    };
    let ghost body = cs@.subrange(from as int, cs@.len() as int);
    proof {
        if from == 1 {
            assert(body =~= s@.drop_first());
        } else {
            assert(body =~= s@);
        }
        assert(body.subrange(0, 0) =~= Seq::<char>::empty());
    }
    if cs.len() == from {
        return None;
    }
    let mut value: u64 = 0;
    let mut i: usize = from;
    while i < cs.len()
        invariant
            from <= i <= cs@.len(),
            body == cs@.subrange(from as int, cs@.len() as int),
            value <= max,
            value == digits_value(body.subrange(0, i - from)),
            forall|j: int| 0 <= j < i - from ==> is_digit(#[trigger] body[j]),
            body == without_plus(s@),
        decreases cs@.len() - i,
    {
        let c = cs[i];
        assert(c == body[i - from]);
        if !('0' <= c && c <= '9') {
            assert(!all_digits(body));
            return None;
        }
        let d: u64 = (c as u32 - '0' as u32) as u64;
        proof {
            let more = body.subrange(0, i - from + 1);
            assert(more.drop_last() =~= body.subrange(0, i - from));
            assert(more.last() == c);
            if all_digits(body) {
                digits_value_grows(body, i - from + 1);
            }
        }
        if d > max || value > max / 10 || value * 10 > max - d {
            proof {
                assert(value * 10 + d > max) by (nonlinear_arith)
                    requires
                        d > max || value > max / 10 || value * 10 > max - d,
                        value >= 0,
                        d >= 0,
                ;
            }
            return None;
        }
        value = value * 10 + d;
        i = i + 1;
    }
    assert(body.subrange(0, body.len() as int) =~= body);
    Some(value)
}

/// Whether a character is an ASCII character.
pub open spec fn is_ascii(c: char) -> bool {
    (c as u32) < 128
}

/// Whether all characters of a text are ASCII characters.
pub open spec fn all_ascii(s: Seq<char>) -> bool {
    forall|i: int| 0 <= i < s.len() ==> is_ascii(#[trigger] s[i])
}

/// An ASCII letter in lower case; any other character stays.
pub open spec fn ascii_lower(c: char) -> char {
    if 'A' <= c && c <= 'Z' {
        (c as u32 + 32) as char
    } else {
        c
    }
}

/// What `str::to_lowercase` gives for a text.
pub uninterp spec fn lowercase(s: Seq<char>) -> Seq<char>;

/// A text in lower case.
pub open spec fn lowered(s: Seq<char>) -> Seq<char> {
    if all_ascii(s) {
        s.map_values(|c: char| ascii_lower(c))
    } else {
        lowercase(s)
    }
}

/// `str::to_lowercase`: the lowercase equivalent of a text under Unicode's rules. It
/// depends on the text alone. Of a text in ASCII the letters become their lower-case
/// forms, and the other characters stay.
#[verifier::external_body]
pub(crate) fn to_lowercase(s: &str) -> (r: String)
    ensures
        all_ascii(s@) ==> r@ == s@.map_values(|c: char| ascii_lower(c)),
        !all_ascii(s@) ==> r@ == lowercase(s@),
{
    s.to_lowercase()
}

/// Texts in ASCII that differ in the case of letters alone are the same in lower case,
/// and so is their lower-case form.
pub proof fn case_does_not_matter(a: Seq<char>, b: Seq<char>)
    requires
        all_ascii(a),
        all_ascii(b),
        a.len() == b.len(),
        forall|i: int| 0 <= i < a.len() ==> ascii_lower(#[trigger] a[i]) == ascii_lower(b[i]),
    ensures
        lowered(a) == lowered(b),
        lowered(lowered(a)) == lowered(a),
{
    assert(lowered(a) =~= lowered(b));
    let low = lowered(a);
    assert forall|i: int| 0 <= i < low.len() implies is_ascii(#[trigger] low[i]) && ascii_lower(
        low[i],
    ) == low[i] by {
        assert(is_ascii(a[i]));
    }
    assert(lowered(low) =~= low);
}

/// The text up to its first line break, without a carriage return that ends it.
pub open spec fn line_content(piece: Seq<char>) -> Seq<char> {
    if piece.len() > 0 && piece.last() == '\r' {
        piece.drop_last()
    } else {
        piece
    }
}

/// The lines of a text: what stands before each line feed and, when it is not
/// empty, what stands after the last one. A carriage return before a line feed
/// belongs to the line break.
pub open spec fn lines_of(s: Seq<char>) -> Seq<Seq<char>>
    decreases s.len(),
    via lines_of_decreases
{
    if s.len() == 0 {
        Seq::empty()
    } else {
        match find_text(s, seq!['\n']) {
            Some(at) => seq![line_content(s.subrange(0, at))] + lines_of(
                s.subrange(at + 1, s.len() as int),
            ),
            None => seq![s],
        }
    }
}

#[via_fn]
proof fn lines_of_decreases(s: Seq<char>) {
    find_from_is_first(s, seq!['\n'], 0);
}

/// The lines of a text (see `lines_of`).
pub fn lines(s: &str) -> (r: Vec<String>)
    ensures
        texts(r@) == lines_of(s@),
{
    let cs = chars_of(s);
    let n: usize = cs.len();
    let mut feed: Vec<char> = Vec::new();
    feed.push('\n');
    assert(feed@ =~= seq!['\n']);
    let mut out: Vec<String> = Vec::new();
    let mut from: usize = 0;
    proof {
        assert(cs@.subrange(0, cs@.len() as int) =~= cs@);
        assert(texts(out@) + lines_of(s@) =~= lines_of(s@));
    }
    while from < n
        invariant
            feed@ == seq!['\n'],
            cs@ == s@,
            n == cs@.len(),
            from <= n,
            texts(out@) + lines_of(cs@.subrange(from as int, cs@.len() as int)) == lines_of(s@),
        decreases n - from,
    {
        let ghost rest = cs@.subrange(from as int, cs@.len() as int);
        let ghost before = texts(out@);
        proof {
            find_in_tail(cs@, feed@, from as int, from as int);
            find_from_is_first(rest, feed@, 0);
        }
        match find_chars(&cs, &feed, from) {
            Some(at) => {
                let end: usize = if at > from && cs[at - 1] == '\r' {
                    at - 1
                } else {
                    at
                };
                let piece = text_of(&cs, from, end);
                out.push(piece);
                proof {
                    let raw = rest.subrange(0, at - from);
                    if at > from {
                        assert(raw.last() == cs@[at - 1]);
                    }
                    assert(piece@ =~= line_content(raw));
                    assert(texts(out@) =~= before.push(piece@));
                    assert(rest.subrange(at - from + 1, rest.len() as int) =~= cs@.subrange(
                        at + 1,
                        cs@.len() as int,
                    ));
                    let tail = lines_of(cs@.subrange(at + 1, cs@.len() as int));
                    assert(before.push(piece@) + tail =~= before + (seq![piece@] + tail));
                }
                from = at + 1;
            },
            None => {
                let piece = text_of(&cs, from, n);
                out.push(piece);
                proof {
                    assert(texts(out@) =~= before + seq![rest]);
                    assert(cs@.subrange(n as int, n as int) =~= Seq::<char>::empty());
                    assert(texts(out@) + lines_of(Seq::<char>::empty()) =~= texts(out@));
                }
                from = n;
            },
        }
    }
    proof {
        assert(cs@.subrange(n as int, n as int) =~= Seq::<char>::empty());
        assert(texts(out@) + Seq::<Seq<char>>::empty() =~= texts(out@));
    }
    out
}

/// Why bytes are not UTF-8.
pub struct Utf8Fault {
    /// How many bytes, from the first on, are UTF-8.
    pub valid_up_to: usize,
    /// Whether the bytes end within a character that more bytes could complete.
    pub incomplete: bool,
    pub message: String,
}

/// Whether bytes are the beginning of bytes that are UTF-8.
pub open spec fn completable(bytes: Seq<u8>) -> bool {
    exists|rest: Seq<u8>| #[trigger] valid_utf8(bytes + rest)
}

/// The text of the error that `std::str::from_utf8` gives for bytes that are not
/// UTF-8.
pub uninterp spec fn utf8_fault(bytes: Seq<u8>) -> Seq<char>;

/// `std::str::from_utf8`: the text that the bytes encode or, where they are not
/// UTF-8, the error. Its `valid_up_to` is the greatest index up to which the bytes
/// are UTF-8, and its text depends on the bytes alone. Without an `error_len` it is
/// the end of the bytes that comes unexpectedly, within a character that more bytes
/// complete and one to three bytes behind the valid part. With one, a byte is
/// unexpected, so that nothing put behind the bytes makes them UTF-8.
#[verifier::external_body]
pub(crate) fn from_utf8(bytes: &[u8]) -> (r: Result<String, Utf8Fault>)
    ensures
        match r {
            Ok(s) => valid_utf8(bytes@) && s@ == decode_utf8(bytes@),
            Err(f) => {
                &&& !valid_utf8(bytes@)
                &&& f.valid_up_to <= bytes@.len()
                &&& valid_utf8(bytes@.subrange(0, f.valid_up_to as int))
                &&& forall|k: int|
                    f.valid_up_to < k <= bytes@.len() ==> !valid_utf8(
                        #[trigger] bytes@.subrange(0, k),
                    )
                &&& f.message@ == utf8_fault(bytes@)
                &&& f.incomplete == completable(bytes@)
                &&& f.incomplete ==> 1 <= bytes@.len() - f.valid_up_to <= 3
            },
        },
{
    match std::str::from_utf8(bytes) {
        Ok(s) => Ok(s.to_string()),
        Err(e) => Err(
            Utf8Fault {
                valid_up_to: e.valid_up_to(),
                incomplete: e.error_len().is_none(),
                message: e.to_string(),
            },
        ),
    }
}

/// What `String::from_utf8_lossy` gives for bytes.
pub uninterp spec fn lossy_text(bytes: Seq<u8>) -> Seq<char>;

/// `String::from_utf8_lossy`: the text that the bytes encode, with a replacement
/// character for what is not UTF-8. It depends on the bytes alone.
#[verifier::external_body]
pub(crate) fn from_utf8_lossy(bytes: &[u8]) -> (r: String)
    ensures
        r@ == lossy_text(bytes@),
        valid_utf8(bytes@) ==> r@ == decode_utf8(bytes@),
{
    String::from_utf8_lossy(bytes).into_owned()
}

/// Appends bytes.
pub fn append_bytes(to: &mut Vec<u8>, bytes: &[u8])
    ensures
        final(to)@ == old(to)@ + bytes@,
{
    let mut i: usize = 0;
    assert(old(to)@ + bytes@.subrange(0, 0) =~= old(to)@);
    while i < bytes.len()
        invariant
            i <= bytes@.len(),
            to@ == old(to)@ + bytes@.subrange(0, i as int),
        decreases bytes@.len() - i,
    {
        to.push(bytes[i]);
        assert(old(to)@ + bytes@.subrange(0, i + 1) =~= (old(to)@ + bytes@.subrange(
            0,
            i as int,
        )).push(bytes@[i as int]));
        i = i + 1;
    }
    assert(bytes@.subrange(0, bytes@.len() as int) =~= bytes@);
}

/// The bytes `bytes[from..to]`.
pub fn bytes_of(bytes: &[u8], from: usize, to: usize) -> (r: Vec<u8>)
    requires
        from <= to <= bytes@.len(),
    ensures
        r@ == bytes@.subrange(from as int, to as int),
{
    let mut out: Vec<u8> = Vec::new();
    let mut i: usize = from;
    assert(out@ =~= bytes@.subrange(from as int, from as int));
    while i < to
        invariant
            from <= i <= to <= bytes@.len(),
            out@ == bytes@.subrange(from as int, i as int),
        decreases to - i,
    {
        out.push(bytes[i]);
        assert(bytes@.subrange(from as int, i + 1) =~= bytes@.subrange(from as int, i as int).push(
            bytes@[i as int],
        ));
        i = i + 1;
    }
    out
}

/// What a list of pairs of texts says.
pub open spec fn pair_views(pairs: Seq<(String, String)>) -> Seq<(Seq<char>, Seq<char>)> {
    Seq::new(pairs.len(), |i: int| (pairs[i].0@, pairs[i].1@))
}

/// The second of the last pair that begins with `name`.
pub open spec fn last_pair(pairs: Seq<(Seq<char>, Seq<char>)>, name: Seq<char>) -> Option<Seq<char>>
    decreases pairs.len(),
{
    if pairs.len() == 0 {
        None
    } else if pairs.last().0 == name {
        Some(pairs.last().1)
    } else {
        last_pair(pairs.drop_last(), name)
    }
}

/// The second of the last pair that begins with `name`.
pub fn find_last_pair<'a>(pairs: &'a Vec<(String, String)>, name: &str) -> (r: Option<&'a str>)
    ensures
        match r {
            Some(v) => last_pair(pair_views(pairs@), name@) == Some(v@),
            None => last_pair(pair_views(pairs@), name@) is None,
        },
{
    let ghost all = pair_views(pairs@);
    let mut i: usize = pairs.len();
    assert(all.subrange(0, all.len() as int) =~= all);
    while i > 0
        invariant
            i <= pairs@.len(),
            all == pair_views(pairs@),
            last_pair(all, name@) == last_pair(all.subrange(0, i as int), name@),
        decreases i,
    {
        proof {
            let part = all.subrange(0, i as int);
            assert(part.last() == all[i - 1]);
            assert(part.drop_last() =~= all.subrange(0, i - 1));
        }
        if str_eq(pairs[i - 1].0.as_str(), name) {
            return Some(pairs[i - 1].1.as_str());
        }
        i = i - 1;
    }
    None
}

/// Adds a pair of texts.
pub fn push_pair(pairs: &mut Vec<(String, String)>, name: &str, value: &str)
    ensures
        pair_views(final(pairs)@) == pair_views(old(pairs)@).push((name@, value@)),
{
    let ghost before = pair_views(pairs@);
    pairs.push((name.to_owned(), value.to_owned()));
    assert(pair_views(pairs@) =~= before.push((name@, value@)));
}

/// Two texts one after the other.
pub fn concat2(a: &str, b: &str) -> (r: String)
    ensures
        r@ == a@ + b@,
{
    let mut out = a.to_owned();
    out.append(b);
    out
}

/// Three texts one after the other.
pub fn concat3(a: &str, b: &str, c: &str) -> (r: String)
    ensures
        r@ == a@ + b@ + c@,
{
    let mut out = a.to_owned();
    out.append(b);
    out.append(c);
    out
}

/// Four texts one after the other.
pub fn concat4(a: &str, b: &str, c: &str, d: &str) -> (r: String)
    ensures
        r@ == a@ + b@ + c@ + d@,
{
    let mut out = a.to_owned();
    out.append(b);
    out.append(c);
    out.append(d);
    out
}

/// Five texts one after the other.
pub fn concat5(a: &str, b: &str, c: &str, d: &str, e: &str) -> (r: String)
    ensures
        r@ == a@ + b@ + c@ + d@ + e@,
{
    let mut out = a.to_owned();
    out.append(b);
    out.append(c);
    out.append(d);
    out.append(e);
    out
}

/// No piece of a text that was split holds the separator, and where the separator does
/// not stand in the text there is one piece, the text.
pub proof fn pieces_hold_no_separator(s: Seq<char>, sep: Seq<char>)
    requires
        sep.len() > 0,
    ensures
        forall|i: int|
            0 <= i < split_text(s, sep).len() ==> !contains_text(
                #[trigger] split_text(s, sep)[i],
                sep,
            ),
        !contains_text(s, sep) ==> split_text(s, sep) == seq![s],
        contains_text(s, sep) ==> split_text(s, sep).len() >= 2,
    decreases s.len(),
{
    let all = split_text(s, sep);
    find_from_is_first(s, sep, 0);
    match find_text(s, sep) {
        Some(at) => {
            let rest = s.subrange(at + sep.len(), s.len() as int);
            let head = s.subrange(0, at);
            assert(occurs_at(s, sep, at));
            pieces_hold_no_separator(rest, sep);
            split_and_joined(rest, sep);
            find_from_is_first(head, sep, 0);
            if contains_text(head, sep) {
                let j = find_text(head, sep)->0;
                assert(head.subrange(j, j + sep.len()) =~= s.subrange(j, j + sep.len()));
                assert(occurs_at(s, sep, j));
                assert(false);
            }
            assert(all =~= seq![head] + split_text(rest, sep));
            assert forall|i: int| 0 <= i < all.len() implies !contains_text(#[trigger] all[i], sep) by {
                if i > 0 {
                    assert(all[i] == split_text(rest, sep)[i - 1]);
                }
            }
        },
        None => {},
    }
}

/// Trimming takes away white space at the ends and nothing else: what is left stands in
/// the text, with white space alone before and behind it, and neither begins nor ends
/// with any.
pub proof fn trimming_takes_white_space_alone(s: Seq<char>) -> (bounds: (int, int))
    ensures
        0 <= bounds.0 <= bounds.1 <= s.len(),
        trimmed(s) == s.subrange(bounds.0, bounds.1),
        forall|i: int| 0 <= i < bounds.0 ==> is_space(#[trigger] s[i]),
        forall|i: int| bounds.1 <= i < s.len() ==> is_space(#[trigger] s[i]),
        trimmed(s).len() > 0 ==> !is_space(trimmed(s)[0]) && !is_space(trimmed(s).last()),
{
    let a = trimmed_from(s);
    let t = trimmed_start(s);
    let b = trimmed_to(t);
    assert(t.subrange(0, b) =~= s.subrange(a, a + b));
    assert forall|i: int| a + b <= i < s.len() implies is_space(#[trigger] s[i]) by {
        assert(t[i - a] == s[i]);
    }
    if trimmed(s).len() > 0 {
        assert(trimmed(s)[0] == t[0]);
    }
    (a, a + b)
}

proof fn trimmed_from(s: Seq<char>) -> (a: int)
    ensures
        0 <= a <= s.len(),
        trimmed_start(s) == s.subrange(a, s.len() as int),
        forall|i: int| 0 <= i < a ==> is_space(#[trigger] s[i]),
        trimmed_start(s).len() > 0 ==> !is_space(trimmed_start(s)[0]),
    decreases s.len(),
{
    if s.len() > 0 && is_space(s[0]) {
        let rest = s.drop_first();
        let a = trimmed_from(rest);
        assert(rest.subrange(a, rest.len() as int) =~= s.subrange(a + 1, s.len() as int));
        assert forall|i: int| 0 <= i < a + 1 implies is_space(#[trigger] s[i]) by {
            if i > 0 {
                assert(rest[i - 1] == s[i]);
            }
        }
        a + 1
    } else {
        assert(s.subrange(0, s.len() as int) =~= s);
        0
    }
}

proof fn trimmed_to(s: Seq<char>) -> (b: int)
    ensures
        0 <= b <= s.len(),
        trimmed_end(s) == s.subrange(0, b),
        forall|i: int| b <= i < s.len() ==> is_space(#[trigger] s[i]),
        trimmed_end(s).len() > 0 ==> !is_space(trimmed_end(s).last()),
    decreases s.len(),
{
    if s.len() > 0 && is_space(s.last()) {
        let rest = s.drop_last();
        let b = trimmed_to(rest);
        assert(rest.subrange(0, b) =~= s.subrange(0, b));
        assert forall|i: int| b <= i < s.len() implies is_space(#[trigger] s[i]) by {
            if i < s.len() - 1 {
                assert(rest[i] == s[i]);
            }
        }
        b
    } else {
        assert(s.subrange(0, s.len() as int) =~= s);
        s.len() as int
    }
}

/// Joining one piece more puts the separator and then the piece at the end.
pub proof fn joining_goes_on_at_the_end(parts: Seq<Seq<char>>, part: Seq<char>, sep: Seq<char>)
    ensures
        parts.len() > 0 ==> joined(parts.push(part), sep) == joined(parts, sep) + sep + part,
        parts.len() == 0 ==> joined(parts.push(part), sep) == part,
        joined(Seq::empty(), sep).len() == 0,
{
    assert(parts.push(part).drop_last() =~= parts);
    if parts.len() == 0 {
        assert(parts.push(part)[0] == part);
    }
}

/// What follows a prefix is the rest: prefix and rest are the text again.
pub proof fn prefix_and_rest(s: Seq<char>, prefix: Seq<char>, rest: Seq<char>)
    ensures
        after_prefix(prefix + rest, prefix) == Some(rest),
        after_prefix(s, prefix) is Some ==> prefix + after_prefix(s, prefix)->0 == s,
        begins_with(s, prefix) <==> after_prefix(s, prefix) is Some,
        begins_with(prefix + rest, prefix),
{
    let both = prefix + rest;
    assert(both.subrange(0, prefix.len() as int) =~= prefix);
    assert(both.subrange(prefix.len() as int, both.len() as int) =~= rest);
    if begins_with(s, prefix) {
        assert(prefix + s.subrange(prefix.len() as int, s.len() as int) =~= s);
    }
}

/// A text is parted at the first separator: what stands before it holds none, and the
/// three together are the text.
pub proof fn parting_is_at_the_first(s: Seq<char>, sep: Seq<char>)
    requires
        sep.len() > 0,
    ensures
        parted(s, sep) is Some <==> contains_text(s, sep),
        parted(s, sep) matches Some(p) ==> p.0 + sep + p.1 == s && !contains_text(p.0, sep),
{
    find_from_is_first(s, sep, 0);
    if let Some(at) = find_text(s, sep) {
        let head = s.subrange(0, at);
        assert(occurs_at(s, sep, at));
        assert(head + sep + s.subrange(at + sep.len(), s.len() as int) =~= s);
        find_from_is_first(head, sep, 0);
        if contains_text(head, sep) {
            let j = find_text(head, sep)->0;
            assert(head.subrange(j, j + sep.len()) =~= s.subrange(j, j + sep.len()));
            assert(occurs_at(s, sep, j));
            assert(false);
        }
    }
}

/// Of the pairs with a name the last counts.
pub proof fn last_pair_counts(pairs: Seq<(Seq<char>, Seq<char>)>, at: int, name: Seq<char>)
    ensures
        0 <= at < pairs.len() && pairs[at].0 == name && (forall|j: int|
            at < j < pairs.len() ==> (#[trigger] pairs[j]).0 != name) ==> last_pair(pairs, name)
            == Some(pairs[at].1),
        (forall|j: int| 0 <= j < pairs.len() ==> (#[trigger] pairs[j]).0 != name) ==> last_pair(
            pairs,
            name,
        ) is None,
    decreases pairs.len(),
{
    if pairs.len() > 0 {
        let rest = pairs.drop_last();
        last_pair_counts(rest, at, name);
        assert(pairs[pairs.len() - 1] == pairs.last());
        assert forall|j: int| 0 <= j < rest.len() implies #[trigger] rest[j] == pairs[j] by {}
        if forall|j: int| 0 <= j < pairs.len() ==> (#[trigger] pairs[j]).0 != name {
            assert forall|j: int| 0 <= j < rest.len() implies (#[trigger] rest[j]).0 != name by {
                assert(rest[j] == pairs[j]);
            }
        }
    }
}

/// Taking a character away from the end leaves a text that does not end with it, and
/// only that character was taken.
pub proof fn trailing_characters_go(s: Seq<char>, c: char)
    ensures
        without_trailing(s, c).len() <= s.len(),
        s.subrange(0, without_trailing(s, c).len() as int) == without_trailing(s, c),
        without_trailing(s, c).len() > 0 ==> without_trailing(s, c).last() != c,
        forall|i: int| without_trailing(s, c).len() <= i < s.len() ==> #[trigger] s[i] == c,
    decreases s.len(),
{
    if s.len() > 0 && s.last() == c {
        let rest = s.drop_last();
        trailing_characters_go(rest, c);
        let n = without_trailing(s, c).len() as int;
        assert(rest.subrange(0, n) =~= s.subrange(0, n));
        assert forall|i: int| n <= i < s.len() implies #[trigger] s[i] == c by {
            if i < rest.len() {
                assert(rest[i] == s[i]);
            }
        }
    } else {
        assert(s.subrange(0, s.len() as int) =~= s);
    }
}

/// Lines end at line feeds: what stands before the first is a line, without a carriage
/// return at its end, and what follows it is read next. What stands after the last line
/// feed is a line as it is, unless it is empty.
pub proof fn lines_end_at_line_feeds(line: Seq<char>, rest: Seq<char>)
    requires
        !line.contains('\n'),
    ensures
        line.len() == 0 || line.last() != '\r' ==> lines_of(line + seq!['\n'] + rest) == seq![line]
            + lines_of(rest),
        lines_of(line + seq!['\r'] + seq!['\n'] + rest) == seq![line] + lines_of(rest),
        line.len() > 0 ==> lines_of(line) == seq![line],
        lines_of(Seq::empty()).len() == 0,
{
    first_line(line, rest);
    let with = line + seq!['\r'];
    assert(!with.contains('\n'));
    first_line(with, rest);
    assert(line_content(with) =~= line);
    if line.len() > 0 {
        find_from_is_first(line, seq!['\n'], 0);
        if find_text(line, seq!['\n']) is Some {
            let at = find_text(line, seq!['\n'])->0;
            assert(line.subrange(at, at + 1)[0] == line[at]);
            assert(line.contains('\n'));
        }
    }
}

proof fn first_line(line: Seq<char>, rest: Seq<char>)
    requires
        !line.contains('\n'),
    ensures
        lines_of(line + seq!['\n'] + rest) == seq![line_content(line)] + lines_of(rest),
{
    let all = line + seq!['\n'] + rest;
    let n = line.len() as int;
    find_from_is_first(all, seq!['\n'], 0);
    assert(all.subrange(n, n + 1) =~= seq!['\n']);
    assert(occurs_at(all, seq!['\n'], n));
    assert forall|j: int| 0 <= j < n implies !#[trigger] occurs_at(all, seq!['\n'], j) by {
        if occurs_at(all, seq!['\n'], j) {
            assert(all.subrange(j, j + 1)[0] == all[j]);
            assert(line[j] == '\n');
        }
    }
    assert(find_text(all, seq!['\n']) == Some(n));
    assert(all.subrange(0, n) =~= line);
    assert(all.subrange(n + 1, all.len() as int) =~= rest);
}

/// A number is written in decimal digits, with or without a plus sign before them; a text
/// that is empty, or that holds anything else, writes none, nor does one that writes too
/// large a number.
pub proof fn numbers_are_digits_after_a_plus(s: Seq<char>, max: nat, i: int)
    ensures
        parsed_unsigned(Seq::empty(), max) is None,
        parsed_unsigned(seq!['+'], max) is None,
        s.len() > 0 && s[0] != '+' ==> parsed_unsigned(seq!['+'] + s, max) == parsed_unsigned(
            s,
            max,
        ),
        0 < i < s.len() && !('0' <= s[i] <= '9') ==> parsed_unsigned(s, max) is None,
        s.len() > 0 && s[0] != '+' && !('0' <= s[0] <= '9') ==> parsed_unsigned(s, max) is None,
        parsed_unsigned(s, max) matches Some(n) ==> n <= max,
{
    assert((seq!['+'] + s).drop_first() =~= s);
    assert(seq!['+'].drop_first() =~= Seq::empty());
    if 0 < i < s.len() && s[0] == '+' {
        assert(s.drop_first()[i - 1] == s[i]);
    }
}

/// Digits stand for ten times what stands before them, and for themselves.
pub proof fn digits_have_their_values(s: Seq<char>, n: nat)
    requires
        n < 10,
    ensures
        digits_value(s.push(digit(n))) == 10 * digits_value(s) + n,
        digit(0) == '0',
        digit(9) == '9',
{
    assert(s.push(digit(n)).drop_last() =~= s);
    assert(digit(n) as u32 == '0' as u32 + n);
}

} // verus!
