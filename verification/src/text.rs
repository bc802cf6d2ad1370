//! Text as a sequence of characters: the few string operations the
//! configuration needs, each with its meaning spelled out.

use vstd::prelude::*;
use vstd::string::*;

verus! {

/// The text of an optional string.
pub open spec fn optional_text(s: Option<String>) -> Option<Seq<char>> {
    match s {
        Some(text) => Some(text@),
        None => None,
    }
}

/// The Unicode `White_Space` property.
pub open spec fn is_white_space(c: char) -> bool {
    ||| '\u{9}' <= c <= '\u{d}'
    ||| c == ' '
    ||| c == '\u{85}'
    ||| c == '\u{a0}'
    ||| c == '\u{1680}'
    ||| '\u{2000}' <= c <= '\u{200a}'
    ||| c == '\u{2028}'
    ||| c == '\u{2029}'
    ||| c == '\u{202f}'
    ||| c == '\u{205f}'
    ||| c == '\u{3000}'
}

/// A text with nothing in it but white space.
pub open spec fn blank(s: Seq<char>) -> bool {
    forall|i: int| 0 <= i < s.len() ==> is_white_space(#[trigger] s[i])
}

/// What is left of `s` once no copy of `prefix` stands in front of it any more.
pub open spec fn without_leading(s: Seq<char>, prefix: Seq<char>) -> Seq<char>
    decreases s.len(),
{
    if prefix.len() > 0 && prefix.is_prefix_of(s) {
        without_leading(s.skip(prefix.len() as int), prefix)
    } else {
        s
    }
}

/// `s` with every occurrence of `from`, taken from left to right without
/// overlap, turned into `to`.
pub open spec fn replaced(s: Seq<char>, from: Seq<char>, to: Seq<char>) -> Seq<char>
    decreases s.len(),
{
    if from.len() == 0 || s.len() == 0 {
        s
    } else if from.is_prefix_of(s) {
        to + replaced(s.skip(from.len() as int), from, to)
    } else {
        seq![s[0]] + replaced(s.skip(1), from, to)
    }
}

/// Whether `part` stands somewhere in `s`.
pub open spec fn occurs(s: Seq<char>, part: Seq<char>) -> bool {
    exists|i: int| 0 <= i <= s.len() && part.is_prefix_of(#[trigger] s.skip(i))
}

/// [`String::push`] appends one character.
pub assume_specification[ String::push ](s: &mut String, c: char)
    ensures
        final(s)@ == old(s)@.push(c),
;

/// A text as Rust's `Debug` shows it: in double quotes, with escapes inside.
pub uninterp spec fn debug_quoted(s: Seq<char>) -> Seq<char>;

/// `format!("{:?}", s)`, that is `<str as core::fmt::Debug>::fmt`. Its escapes
/// follow Unicode tables, so the result is only named: the same text is always
/// shown the same way.
#[verifier::external_body]
pub(crate) fn debug_text(s: &str) -> (shown: String)
    ensures
        shown@ == debug_quoted(s@),
{
    format!("{:?}", s)
}

/// The characters of a text, one by one.
pub(crate) fn chars_of(s: &str) -> (chars: Vec<char>)
    ensures
        chars@ == s@,
{
    let mut chars: Vec<char> = Vec::new();
    for c in it: s.chars()
        invariant
            chars@ == it.seq().take(it.index()),
            it.seq() == s@,
    {
        chars.push(c);
    }
    chars
}

/// The text made of `chars` from position `from` on.
pub(crate) fn text_from(chars: &Vec<char>, from: usize) -> (s: String)
    requires
        from <= chars@.len(),
    ensures
        s@ == chars@.skip(from as int),
{
    let mut s = String::new();
    let mut i: usize = from;
    while i < chars.len()
        invariant
            from <= i <= chars@.len(),
            s@ == chars@.subrange(from as int, i as int),
        decreases chars@.len() - i,
    {
        s.push(chars[i]);
        i += 1;
    }
    s
}

/// Whether two texts are the same.
pub(crate) fn same_text(a: &str, b: &str) -> (same: bool)
    ensures
        same == (a@ == b@),
{
    let left = chars_of(a);
    let right = chars_of(b);
    if left.len() != right.len() {
        return false;
    }
    assert(left@.skip(0) =~= left@);
    assert(right@.len() == left@.len() ==> (right@.is_prefix_of(left@) ==> right@ =~= left@));
    matches_at(&left, 0, &right)
}

/// Whether `part` stands in `chars` at position `at`.
pub(crate) fn matches_at(chars: &Vec<char>, at: usize, part: &Vec<char>) -> (found: bool)
    requires
        at <= chars@.len(),
    ensures
        found == part@.is_prefix_of(chars@.skip(at as int)),
{
    let room: usize = chars.len() - at;
    if part.len() > room {
        return false;
    }
    let mut i: usize = 0;
    while i < part.len()
        invariant
            at + room == chars.len(),
            i <= part@.len() <= room,
            forall|j: int| 0 <= j < i ==> part@[j] == #[trigger] chars@.skip(at as int)[j],
        decreases part@.len() - i,
    {
        if part[i] != chars[at + i] {
            assert(chars@.skip(at as int)[i as int] == chars@[at + i]);
            return false;
        }
        i += 1;
    }
    assert(part@ =~= chars@.skip(at as int).subrange(0, part@.len() as int));
    true
}

/// Whether a character is white space.
pub(crate) fn white_space(c: char) -> (is: bool)
    ensures
        is == is_white_space(c),
{
    ('\u{9}' <= c && c <= '\u{d}') || c == ' ' || c == '\u{85}' || c == '\u{a0}' || c == '\u{1680}'
        || ('\u{2000}' <= c && c <= '\u{200a}') || c == '\u{2028}' || c == '\u{2029}' || c
        == '\u{202f}' || c == '\u{205f}' || c == '\u{3000}'
}

/// Whether a text is blank.
pub(crate) fn is_blank(s: &str) -> (is: bool)
    ensures
        is == blank(s@),
{
    let chars = chars_of(s);
    let mut i: usize = 0;
    while i < chars.len()
        invariant
            i <= chars@.len(),
            chars@ == s@,
            forall|j: int| 0 <= j < i ==> is_white_space(#[trigger] chars@[j]),
        decreases chars@.len() - i,
    {
        if !white_space(chars[i]) {
            return false;
        }
        i += 1;
    }
    true
}

/// `s` without the copies of `prefix` in front of it.
pub(crate) fn trim_leading(s: &str, prefix: &str) -> (rest: String)
    ensures
        rest@ == without_leading(s@, prefix@),
{
    let chars = chars_of(s);
    let part = chars_of(prefix);
    let mut at: usize = 0;
    assert(chars@.skip(0) =~= chars@);
    while part.len() > 0 && matches_at(&chars, at, &part)
        invariant
            at <= chars.len(),
            chars@ == s@,
            part@ == prefix@,
            without_leading(s@, prefix@) == without_leading(chars@.skip(at as int), prefix@),
        decreases chars@.len() - at,
    {
        assert(chars@.skip(at as int).skip(part@.len() as int) =~= chars@.skip(at + part@.len()));
        assert(at + part.len() <= chars.len());
        at += part.len();
    }
    text_from(&chars, at)
}

/// `s` with every `from` turned into `to`.
pub(crate) fn replace_all(s: &str, from: &str, to: &str) -> (out: String)
    requires
        from@.len() > 0,
    ensures
        out@ == replaced(s@, from@, to@),
{
    let chars = chars_of(s);
    let part = chars_of(from);
    let mut out = String::new();
    let mut at: usize = 0;
    assert(chars@.skip(0) =~= chars@);
    assert(out@ + replaced(s@, from@, to@) =~= replaced(s@, from@, to@));
    while at < chars.len()
        invariant
            at <= chars.len(),
            chars@ == s@,
            part@ == from@,
            from@.len() > 0,
            replaced(s@, from@, to@) == out@ + replaced(chars@.skip(at as int), from@, to@),
        decreases chars@.len() - at,
    {
        let ghost rest = chars@.skip(at as int);
        if matches_at(&chars, at, &part) {
            out.append(to);
            proof {
                assert(rest.skip(part@.len() as int) =~= chars@.skip(at + part@.len()));
                assert(replaced(s@, from@, to@) =~= out@ + replaced(
                    rest.skip(part@.len() as int),
                    from@,
                    to@,
                ));
            }
            at += part.len();
        } else {
            out.push(chars[at]);
            proof {
                assert(rest.skip(1) =~= chars@.skip(at + 1));
                assert(rest[0] == chars@[at as int]);
                assert(replaced(s@, from@, to@) =~= out@ + replaced(rest.skip(1), from@, to@));
            }
            at += 1;
        }
    }
    assert(chars@.skip(at as int) =~= Seq::empty());
    assert(out@ + Seq::<char>::empty() =~= out@);
    out
}

/// A text in which `from` does not occur is left as it is.
pub proof fn replacing_nothing_changes_nothing(s: Seq<char>, from: Seq<char>, to: Seq<char>)
    requires
        !occurs(s, from),
    ensures
        replaced(s, from, to) == s,
    decreases s.len(),
{
    if from.len() != 0 && s.len() != 0 {
        assert(s.skip(0) =~= s);
        assert(!from.is_prefix_of(s));
        assert(!occurs(s.skip(1), from)) by {
            if occurs(s.skip(1), from) {
                let i = choose|i: int|
                    0 <= i <= s.skip(1).len() && from.is_prefix_of(#[trigger] s.skip(1).skip(i));
                assert(s.skip(1).skip(i) =~= s.skip(i + 1));
            }
        }
        replacing_nothing_changes_nothing(s.skip(1), from, to);
        assert(seq![s[0]] + s.skip(1) =~= s);
    }
}

/// Whether `whole` is `part` with characters added, none taken away and none
/// moved.
pub open spec fn extends(whole: Seq<char>, part: Seq<char>) -> bool
    decreases whole.len(),
{
    if part.len() == 0 {
        true
    } else if whole.len() == 0 {
        false
    } else if whole[0] == part[0] {
        extends(whole.skip(1), part.skip(1))
    } else {
        extends(whole.skip(1), part)
    }
}

/// Adding in front keeps what was there.
pub proof fn extends_behind(front: Seq<char>, whole: Seq<char>, part: Seq<char>)
    requires
        extends(whole, part),
    ensures
        extends(front + whole, part),
    decreases front.len(),
{
    if front.len() == 0 {
        assert(front + whole =~= whole);
    } else if part.len() > 0 {
        let all = front + whole;
        assert(all.skip(1) =~= front.skip(1) + whole);
        if all[0] == part[0] {
            extends_without_first(whole, part);
            extends_behind(front.skip(1), whole, part.skip(1));
        } else {
            extends_behind(front.skip(1), whole, part);
        }
    }
}

/// What extends a text extends its rest.
proof fn extends_without_first(whole: Seq<char>, part: Seq<char>)
    requires
        extends(whole, part),
        part.len() > 0,
    ensures
        extends(whole, part.skip(1)),
    decreases whole.len(),
{
    let rest = part.skip(1);
    if rest.len() > 0 {
        if whole[0] == part[0] {
            // The rest stands behind the first character of `whole` already.
            if whole[0] == rest[0] {
                extends_without_first(whole.skip(1), rest);
            }
        } else {
            extends_without_first(whole.skip(1), part);
            if whole[0] == rest[0] {
                extends_without_first(whole.skip(1), rest);
            }
        }
    }
}

/// Two texts one behind the other are extended part by part.
pub proof fn extends_part_by_part(
    first: Seq<char>,
    first_part: Seq<char>,
    second: Seq<char>,
    second_part: Seq<char>,
)
    requires
        extends(first, first_part),
        extends(second, second_part),
    ensures
        extends(first + second, first_part + second_part),
    decreases first.len(),
{
    let whole = first + second;
    let part = first_part + second_part;
    if first_part.len() == 0 {
        assert(part =~= second_part);
        extends_behind(first, second, second_part);
    } else {
        assert(whole.skip(1) =~= first.skip(1) + second);
        if first[0] == first_part[0] {
            assert(part.skip(1) =~= first_part.skip(1) + second_part);
            extends_part_by_part(first.skip(1), first_part.skip(1), second, second_part);
        } else {
            extends_part_by_part(first.skip(1), first_part, second, second_part);
        }
    }
}

/// A text extends itself.
pub proof fn extends_itself(s: Seq<char>)
    ensures
        extends(s, s),
    decreases s.len(),
{
    if s.len() > 0 {
        extends_itself(s.skip(1));
    }
}

/// What extends an extension of a text extends the text.
pub proof fn extends_in_turn(outer: Seq<char>, middle: Seq<char>, inner: Seq<char>)
    requires
        extends(outer, middle),
        extends(middle, inner),
    ensures
        extends(outer, inner),
    decreases outer.len(),
{
    if inner.len() > 0 {
        if outer[0] == middle[0] {
            if middle[0] == inner[0] {
                extends_in_turn(outer.skip(1), middle.skip(1), inner.skip(1));
            } else {
                extends_in_turn(outer.skip(1), middle.skip(1), inner);
            }
        } else {
            extends_in_turn(outer.skip(1), middle, inner);
            if outer[0] == inner[0] {
                extends_without_first(outer.skip(1), inner);
            }
        }
    }
}

/// Replacing by something longer that keeps what it replaces keeps the whole.
pub proof fn replacing_by_more_keeps_the_text(s: Seq<char>, from: Seq<char>, to: Seq<char>)
    requires
        extends(to, from),
    ensures
        extends(replaced(s, from, to), s),
    decreases s.len(),
{
    if from.len() == 0 || s.len() == 0 {
        extends_itself(s);
    } else if from.is_prefix_of(s) {
        let rest = s.skip(from.len() as int);
        replacing_by_more_keeps_the_text(rest, from, to);
        extends_part_by_part(to, from, replaced(rest, from, to), rest);
        assert(from + rest =~= s);
    } else {
        replacing_by_more_keeps_the_text(s.skip(1), from, to);
        let out = replaced(s, from, to);
        assert(out.skip(1) =~= replaced(s.skip(1), from, to));
    }
}

/// A text is blank exactly where both parts of it are, the empty one is, and
/// one character is where it is white space.
pub proof fn blank_part_by_part(a: Seq<char>, b: Seq<char>, c: char)
    ensures
        blank(a + b) <==> blank(a) && blank(b),
        blank(Seq::empty()),
        blank(seq![c]) <==> is_white_space(c),
{
    let whole = a + b;
    if blank(whole) {
        assert forall|i: int| 0 <= i < a.len() implies is_white_space(#[trigger] a[i]) by {
            assert(whole[i] == a[i]);
        }
        assert forall|i: int| 0 <= i < b.len() implies is_white_space(#[trigger] b[i]) by {
            assert(whole[a.len() + i] == b[i]);
        }
    }
    assert(seq![c][0] == c);
}

/// No character that can be seen is white space: in ASCII it is the space and
/// the control characters from tab to carriage return alone, beyond that the
/// next-line control and the spaces and separators of other widths, and beyond
/// the ideographic space there is none.
pub proof fn white_space_cannot_be_seen(c: char)
    ensures
        c < '\u{80}' ==> (is_white_space(c) <==> c == ' ' || c == '\t' || c == '\n' || c
            == '\u{b}' || c == '\u{c}' || c == '\r'),
        c > '\u{3000}' ==> !is_white_space(c),
        '\u{80}' <= c <= '\u{3000}' ==> (is_white_space(c) <==> c as int == 133 || c as int == 160
            || c as int == 5760 || 8192 <= c as int <= 8202 || c as int == 8232 || c as int == 8233
            || c as int == 8239 || c as int == 8287 || c as int == 12288),
{
}

/// A prefix is taken off until none is left: what stays does not begin with it,
/// one more in front makes no difference, and a text that does not begin with
/// it stays as it is.
pub proof fn leading_copies_are_taken_off(s: Seq<char>, prefix: Seq<char>)
    requires
        prefix.len() > 0,
    ensures
        !prefix.is_prefix_of(without_leading(s, prefix)),
        without_leading(prefix + s, prefix) == without_leading(s, prefix),
        !prefix.is_prefix_of(s) ==> without_leading(s, prefix) == s,
    decreases s.len(),
{
    let more = prefix + s;
    assert(prefix =~= more.subrange(0, prefix.len() as int));
    assert(more.skip(prefix.len() as int) =~= s);
    if prefix.is_prefix_of(s) {
        leading_copies_are_taken_off(s.skip(prefix.len() as int), prefix);
    }
}

/// The first occurrence of `from` gives way to `to`, what stands before it
/// stays, and behind it the replacing goes on.
pub proof fn the_first_occurrence_is_replaced(
    before: Seq<char>,
    from: Seq<char>,
    after: Seq<char>,
    to: Seq<char>,
)
    requires
        from.len() > 0,
        forall|i: int|
            0 <= i < before.len() ==> !from.is_prefix_of(
                #[trigger] (before + from + after).skip(i),
            ),
    ensures
        replaced(before + from + after, from, to) == before + to + replaced(after, from, to),
    decreases before.len(),
{
    let s = before + from + after;
    if before.len() == 0 {
        assert(from =~= s.subrange(0, from.len() as int));
        assert(s.skip(from.len() as int) =~= after);
        assert(before + to + replaced(after, from, to) =~= to + replaced(after, from, to));
    } else {
        let less = before.skip(1);
        let rest = less + from + after;
        assert(s.skip(0) =~= s);
        assert(!from.is_prefix_of(s));
        assert(s.skip(1) =~= rest);
        assert forall|i: int| 0 <= i < less.len() implies !from.is_prefix_of(
            #[trigger] rest.skip(i),
        ) by {
            assert(s.skip(i + 1) =~= rest.skip(i));
        }
        the_first_occurrence_is_replaced(less, from, after, to);
        assert(seq![s[0]] + (less + to + replaced(after, from, to)) =~= before + to + replaced(
            after,
            from,
            to,
        ));
    }
}

/// A text occurs in every text that it stands in the middle of.
pub proof fn a_text_occurs_between_others(before: Seq<char>, part: Seq<char>, after: Seq<char>)
    ensures
        occurs(before + part + after, part),
{
    let s = before + part + after;
    let at = before.len() as int;
    assert(part =~= s.skip(at).subrange(0, part.len() as int));
    assert(part.is_prefix_of(s.skip(at)));
}

} // verus!
