//! Text as a sequence of lines, and comments in it.

use vstd::prelude::*;
use vstd::string::*;

use crate::text::chars_of;
#[allow(unused_imports)]
use crate::text::replaced;

verus! {

/// The lines of a text: what stands between line breaks, so one more than there
/// are line breaks.
pub open spec fn lines(s: Seq<char>) -> Seq<Seq<char>>
    decreases s.len(),
{
    if s.len() == 0 {
        seq![seq![]]
    } else {
        let before = lines(s.drop_last());
        if s.last() == '\n' {
            before.push(seq![])
        } else {
            before.drop_last().push(before.last().push(s.last()))
        }
    }
}

/// The lines of a text that have a line break behind them: all but the last.
pub open spec fn terminated(s: Seq<char>) -> Seq<Seq<char>> {
    lines(s).drop_last()
}

/// A line with a hash sign in it and nothing but spaces in front of that.
pub open spec fn comment(line: Seq<char>) -> bool {
    exists|k: int|
        {
            &&& 0 <= k < line.len()
            &&& #[trigger] line[k] == '#'
            &&& forall|j: int| 0 <= j < k ==> (#[trigger] line[j]) == ' '
        }
}

/// A line that says nothing: an empty one or a comment.
pub open spec fn idle(line: Seq<char>) -> bool {
    line.len() == 0 || comment(line)
}

/// Whole lines, each one of them idle.
pub open spec fn all_idle(s: Seq<char>) -> bool {
    &&& s.len() == 0 || s.last() == '\n'
    &&& forall|i: int| 0 <= i < lines(s).len() ==> idle(#[trigger] lines(s)[i])
}

/// `text` with `mark` in front of each of its lines.
pub open spec fn marked(mark: Seq<char>, text: Seq<char>) -> Seq<char>
    decreases text.len(),
{
    if text.len() == 0 {
        mark
    } else if text.last() == '\n' {
        marked(mark, text.drop_last()).push('\n') + mark
    } else {
        marked(mark, text.drop_last()).push(text.last())
    }
}

/// A note: `text` with `mark` in front of each line, a line break behind it,
/// and an empty line before it where there is a `gap`.
pub open spec fn note(gap: bool, mark: Seq<char>, text: Seq<char>) -> Seq<char> {
    (if gap {
        seq!['\n']
    } else {
        seq![]
    }) + marked(mark, text).push('\n')
}

/// Adds a note.
pub(crate) fn push_note(out: &mut String, gap: bool, mark: &str, text: &str)
    ensures
        final(out)@ == old(out)@ + note(gap, mark@, text@),
{
    let ghost before = out@;
    if gap {
        out.push('\n');
    }
    let ghost start = out@;
    out.append(mark);
    let chars = chars_of(text);
    let mut i: usize = 0;
    assert(chars@.take(0) =~= Seq::empty());
    while i < chars.len()
        invariant
            i <= chars@.len(),
            out@ == start + marked(mark@, chars@.take(i as int)),
        decreases chars@.len() - i,
    {
        let ghost so_far = marked(mark@, chars@.take(i as int));
        assert(chars@.take(i + 1).drop_last() =~= chars@.take(i as int));
        assert(chars@.take(i + 1).last() == chars@[i as int]);
        out.push(chars[i]);
        if chars[i] == '\n' {
            out.append(mark);
            assert(out@ =~= start + (so_far.push('\n') + mark@));
        } else {
            assert(out@ =~= start + so_far.push(chars@[i as int]));
        }
        i += 1;
    }
    assert(chars@.take(i as int) =~= chars@);
    out.push('\n');
    assert(out@ =~= before + note(gap, mark@, text@));
}

/// There is always a line.
pub proof fn a_text_has_a_line(s: Seq<char>)
    ensures
        lines(s).len() > 0,
    decreases s.len(),
{
    if s.len() > 0 {
        a_text_has_a_line(s.drop_last());
    }
}

/// A line break parts the lines before it from those behind it.
pub proof fn a_line_break_parts_lines(a: Seq<char>, b: Seq<char>)
    ensures
        lines(a.push('\n') + b) == lines(a) + lines(b),
        terminated(a.push('\n') + b) == lines(a) + terminated(b),
        lines(a.push('\n') + b).last() == lines(b).last(),
    decreases b.len(),
{
    let whole = a.push('\n') + b;
    a_text_has_a_line(b);
    if b.len() == 0 {
        assert(whole =~= a.push('\n'));
        assert(whole.drop_last() =~= a);
        assert(lines(whole) =~= lines(a) + lines(b));
    } else {
        let shorter = b.drop_last();
        assert(whole.drop_last() =~= a.push('\n') + shorter);
        assert(whole.last() == b.last());
        a_line_break_parts_lines(a, shorter);
        a_text_has_a_line(shorter);
        let before = lines(a) + lines(shorter);
        assert(before.last() == lines(shorter).last());
        assert(before.drop_last() =~= lines(a) + lines(shorter).drop_last());
        assert(lines(whole) =~= lines(a) + lines(b));
    }
    assert(terminated(whole) =~= lines(a) + terminated(b));
}

/// A text without a line break is one line.
pub proof fn without_a_break_there_is_one_line(s: Seq<char>)
    requires
        !s.contains('\n'),
    ensures
        lines(s) == seq![s],
        terminated(s) == Seq::<Seq<char>>::empty(),
    decreases s.len(),
{
    if s.len() > 0 {
        assert(s.contains(s.last()));
        assert(!s.drop_last().contains('\n')) by {
            if s.drop_last().contains('\n') {
                let k = choose|k: int| 0 <= k < s.drop_last().len() && s.drop_last()[k] == '\n';
                assert(s[k] == '\n');
            }
        }
        without_a_break_there_is_one_line(s.drop_last());
        assert(s.drop_last().push(s.last()) =~= s);
    } else {
        assert(s =~= Seq::empty());
    }
    assert(lines(s) =~= seq![s]);
    assert(terminated(s) =~= Seq::empty());
}

/// What begins with a comment is a comment.
proof fn a_comment_goes_on(mark: Seq<char>, line: Seq<char>)
    requires
        comment(mark),
        mark.is_prefix_of(line),
    ensures
        comment(line),
{
    let k = choose|k: int|
        {
            &&& 0 <= k < mark.len()
            &&& #[trigger] mark[k] == '#'
            &&& forall|j: int| 0 <= j < k ==> (#[trigger] mark[j]) == ' '
        };
    assert(line[k] == mark[k]);
    assert forall|j: int| 0 <= j < k implies (#[trigger] line[j]) == ' ' by {
        assert(mark[j] == ' ');
        assert(line[j] == mark[j]);
    }
}

/// Every line of a marked text begins with the mark.
proof fn marks_stand_in_front(mark: Seq<char>, text: Seq<char>)
    requires
        !mark.contains('\n'),
    ensures
        forall|i: int|
            0 <= i < lines(marked(mark, text)).len() ==> mark.is_prefix_of(
                #[trigger] lines(marked(mark, text))[i],
            ),
    decreases text.len(),
{
    let out = marked(mark, text);
    if text.len() == 0 {
        without_a_break_there_is_one_line(mark);
    } else {
        let shorter = marked(mark, text.drop_last());
        marks_stand_in_front(mark, text.drop_last());
        a_text_has_a_line(shorter);
        if text.last() == '\n' {
            a_line_break_parts_lines(shorter, mark);
            without_a_break_there_is_one_line(mark);
            assert forall|i: int| 0 <= i < lines(out).len() implies mark.is_prefix_of(
                #[trigger] lines(out)[i],
            ) by {
                if i < lines(shorter).len() {
                    assert(lines(out)[i] == lines(shorter)[i]);
                } else {
                    assert(lines(out)[i] == mark);
                }
            }
        } else {
            assert(out.drop_last() =~= shorter);
            let last = lines(shorter).last();
            assert(mark.is_prefix_of(lines(shorter)[lines(shorter).len() - 1]));
            assert(mark =~= last.push(text.last()).subrange(0, mark.len() as int));
            assert forall|i: int| 0 <= i < lines(out).len() implies mark.is_prefix_of(
                #[trigger] lines(out)[i],
            ) by {
                if i < lines(shorter).len() - 1 {
                    assert(lines(out)[i] == lines(shorter)[i]);
                }
            }
        }
    }
}

/// One line is marked once.
pub proof fn one_line_is_marked_once(mark: Seq<char>, line: Seq<char>)
    requires
        !line.contains('\n'),
    ensures
        marked(mark, line) == mark + line,
    decreases line.len(),
{
    if line.len() > 0 {
        assert(line.contains(line.last()));
        assert(!line.drop_last().contains('\n')) by {
            if line.drop_last().contains('\n') {
                let k = choose|k: int|
                    0 <= k < line.drop_last().len() && line.drop_last()[k] == '\n';
                assert(line[k] == '\n');
            }
        }
        one_line_is_marked_once(mark, line.drop_last());
    }
    assert(marked(mark, line) =~= mark + line);
}

/// A note under a comment mark says nothing, and is made of whole lines.
pub proof fn notes_are_idle(gap: bool, mark: Seq<char>, text: Seq<char>)
    requires
        comment(mark),
        !mark.contains('\n'),
    ensures
        all_idle(note(gap, mark, text)),
        note(gap, mark, text).len() > 0,
        gap ==> note(gap, mark, text)[0] == '\n',
{
    let body = marked(mark, text);
    marks_stand_in_front(mark, text);
    let whole = body.push('\n');
    a_line_break_parts_lines(body, Seq::empty());
    assert(body.push('\n') + Seq::<char>::empty() =~= whole);
    assert forall|i: int| 0 <= i < lines(whole).len() implies idle(#[trigger] lines(whole)[i]) by {
        if i < lines(body).len() {
            assert(lines(whole)[i] == lines(body)[i]);
            a_comment_goes_on(mark, lines(body)[i]);
        }
    }
    assert(all_idle(whole));
    if gap {
        line_breaks_are_idle();
        idle_behind_idle(seq!['\n'], whole);
    } else {
        assert(Seq::<char>::empty() + whole =~= whole);
    }
}

/// A line break alone says nothing.
pub proof fn line_breaks_are_idle()
    ensures
        all_idle(seq!['\n']),
{
    let none = Seq::<char>::empty();
    a_line_break_parts_lines(none, none);
    assert(none.push('\n') + none =~= seq!['\n']);
    assert(lines(seq!['\n']) =~= seq![none, none]);
}

/// Whole idle lines behind whole idle lines are whole idle lines.
pub proof fn idle_behind_idle(a: Seq<char>, b: Seq<char>)
    requires
        all_idle(a),
        all_idle(b),
    ensures
        all_idle(a + b),
{
    if a.len() == 0 {
        assert(a + b =~= b);
    } else {
        let before = a.drop_last();
        assert(a =~= before.push('\n') + Seq::<char>::empty());
        a_line_break_parts_lines(before, Seq::empty());
        assert(a + b =~= before.push('\n') + b);
        a_line_break_parts_lines(before, b);
        let all = lines(a + b);
        assert forall|i: int| 0 <= i < all.len() implies idle(#[trigger] all[i]) by {
            if i < lines(before).len() {
                assert(all[i] == lines(a)[i]);
            } else {
                assert(all[i] == lines(b)[i - lines(before).len()]);
            }
        }
        if b.len() > 0 {
            assert((a + b).last() == b.last());
        } else {
            assert(a + b =~= a);
        }
    }
}

/// Every line of `new` is one of `kept` or one of `extra`.
pub open spec fn from_either(new: Seq<Seq<char>>, kept: Seq<Seq<char>>, extra: Seq<Seq<char>>) -> bool {
    forall|i: int|
        0 <= i < new.len() ==> kept.contains(#[trigger] new[i]) || extra.contains(new[i])
}

proof fn from_either_in_turn(
    a: Seq<Seq<char>>,
    kept_a: Seq<Seq<char>>,
    b: Seq<Seq<char>>,
    kept_b: Seq<Seq<char>>,
    extra: Seq<Seq<char>>,
)
    requires
        from_either(a, kept_a, extra),
        from_either(b, kept_b, extra),
    ensures
        from_either(a + b, kept_a + kept_b, extra),
{
    let new = a + b;
    let kept = kept_a + kept_b;
    assert forall|i: int| 0 <= i < new.len() implies kept.contains(#[trigger] new[i])
        || extra.contains(new[i]) by {
        if i < a.len() {
            assert(new[i] == a[i]);
            if kept_a.contains(a[i]) {
                let k = choose|k: int| 0 <= k < kept_a.len() && kept_a[k] == a[i];
                assert(kept[k] == new[i]);
            }
        } else {
            let j = i - a.len();
            assert(new[i] == b[j]);
            if kept_b.contains(b[j]) {
                let k = choose|k: int| 0 <= k < kept_b.len() && kept_b[k] == b[j];
                assert(kept[kept_a.len() + k] == new[i]);
            }
        }
    }
}

proof fn from_itself(a: Seq<Seq<char>>, extra: Seq<Seq<char>>)
    ensures
        from_either(a, a, extra),
        from_either(extra, Seq::empty(), extra),
{
    assert forall|i: int| 0 <= i < a.len() implies a.contains(#[trigger] a[i]) by {}
    assert forall|i: int| 0 <= i < extra.len() implies extra.contains(#[trigger] extra[i]) by {}
}

/// Lines put in behind every `line` (and its line break) add themselves and
/// leave all others. `open` is what stands in front on the first line.
pub proof fn lines_put_in_behind(
    open: Seq<char>,
    s: Seq<char>,
    line: Seq<char>,
    added: Seq<char>,
)
    requires
        !open.contains('\n'),
    ensures
        ({
            let put = added.push('\n');
            let new = open + replaced(s, line.push('\n'), line.push('\n') + put);
            &&& from_either(terminated(new), terminated(open + s), lines(added))
            &&& lines(new).last() == lines(open + s).last()
        }),
    decreases s.len(),
{
    let from = line.push('\n');
    let to = from + added.push('\n');
    let extra = lines(added);
    let none = Seq::<char>::empty();
    assert(!none.contains('\n'));
    let new = open + replaced(s, from, to);
    if s.len() == 0 {
        from_itself(terminated(open + s), extra);
    } else if from.is_prefix_of(s) {
        let rest = s.skip(from.len() as int);
        let out = replaced(rest, from, to);
        lines_put_in_behind(none, rest, line, added);
        assert(none + rest =~= rest);
        assert(none + out =~= out);
        let first = open + line;
        assert(s =~= from + rest);
        assert(open + s =~= first.push('\n') + rest);
        assert(new =~= first.push('\n') + (added.push('\n') + out));
        a_line_break_parts_lines(first, rest);
        a_line_break_parts_lines(first, added.push('\n') + out);
        a_line_break_parts_lines(added, out);
        from_itself(lines(first), extra);
        from_either_in_turn(extra, Seq::empty(), terminated(out), terminated(rest), extra);
        assert(Seq::<Seq<char>>::empty() + terminated(rest) =~= terminated(rest));
        from_either_in_turn(
            lines(first),
            lines(first),
            extra + terminated(out),
            terminated(rest),
            extra,
        );
    } else {
        let rest = s.skip(1);
        let out = replaced(rest, from, to);
        if s[0] == '\n' {
            lines_put_in_behind(none, rest, line, added);
            assert(none + rest =~= rest);
            assert(none + out =~= out);
            assert(open + s =~= open.push('\n') + rest);
            assert(new =~= open.push('\n') + out);
            a_line_break_parts_lines(open, rest);
            a_line_break_parts_lines(open, out);
            from_itself(lines(open), extra);
            from_either_in_turn(lines(open), lines(open), terminated(out), terminated(rest), extra);
        } else {
            let more = open.push(s[0]);
            still_no_break(open, s[0]);
            lines_put_in_behind(more, rest, line, added);
            assert(open + s =~= more + rest);
            assert(new =~= more + out);
        }
    }
}

proof fn still_no_break(open: Seq<char>, c: char)
    requires
        !open.contains('\n'),
        c != '\n',
    ensures
        !open.push(c).contains('\n'),
{
    if open.push(c).contains('\n') {
        let k = choose|k: int| 0 <= k < open.push(c).len() && open.push(c)[k] == '\n';
        assert(k < open.len());
        assert(open[k] == '\n');
    }
}

/// Whether `line` stands alone wherever a line of `s` with a line break behind
/// it ends with it.
pub open spec fn stands_alone(line: Seq<char>, s: Seq<char>) -> bool {
    forall|i: int|
        0 <= i < terminated(s).len() && line.is_suffix_of(#[trigger] terminated(s)[i])
            ==> terminated(s)[i] == line
}

/// Lines put in before every `line` (and its line break) add themselves and
/// leave all others, where `line` stands alone. `open` is what stands in front
/// on the first line.
pub proof fn lines_put_in_before(
    open: Seq<char>,
    s: Seq<char>,
    line: Seq<char>,
    added: Seq<char>,
)
    requires
        !open.contains('\n'),
        !line.contains('\n'),
        stands_alone(line, open + s),
    ensures
        ({
            let put = added.push('\n');
            let new = open + replaced(s, line.push('\n'), put + line.push('\n'));
            &&& from_either(terminated(new), terminated(open + s), lines(added))
            &&& lines(new).last() == lines(open + s).last()
        }),
    decreases s.len(),
{
    let from = line.push('\n');
    let to = added.push('\n') + from;
    let extra = lines(added);
    let none = Seq::<char>::empty();
    assert(!none.contains('\n'));
    let new = open + replaced(s, from, to);
    if s.len() == 0 {
        from_itself(terminated(open + s), extra);
    } else if from.is_prefix_of(s) {
        let rest = s.skip(from.len() as int);
        let out = replaced(rest, from, to);
        let first = open + line;
        assert(s =~= from + rest);
        assert(open + s =~= first.push('\n') + rest);
        a_line_break_parts_lines(first, rest);
        // The line that ends here is `line` itself, so nothing stands in front.
        assert(!first.contains('\n')) by {
            if first.contains('\n') {
                let k = choose|k: int| 0 <= k < first.len() && first[k] == '\n';
                if k < open.len() {
                    assert(open[k] == '\n');
                } else {
                    assert(line[k - open.len()] == '\n');
                }
            }
        }
        without_a_break_there_is_one_line(first);
        assert(terminated(open + s)[0] == first);
        assert(line =~= first.subrange(first.len() - line.len(), first.len() as int));
        assert(line.is_suffix_of(terminated(open + s)[0]));
        assert(open.len() == 0);
        assert(first =~= line);
        assert(stands_alone(line, none + rest)) by {
            assert(none + rest =~= rest);
            assert forall|i: int|
                0 <= i < terminated(rest).len() && line.is_suffix_of(
                    #[trigger] terminated(rest)[i],
                ) implies terminated(rest)[i] == line by {
                assert(terminated(open + s)[lines(first).len() + i] == terminated(rest)[i]);
            }
        }
        lines_put_in_before(none, rest, line, added);
        assert(none + rest =~= rest);
        assert(none + out =~= out);
        assert(new =~= added.push('\n') + (line.push('\n') + out));
        a_line_break_parts_lines(added, line.push('\n') + out);
        a_line_break_parts_lines(line, out);
        from_itself(lines(line), extra);
        from_either_in_turn(lines(line), lines(line), terminated(out), terminated(rest), extra);
        from_either_in_turn(
            extra,
            Seq::empty(),
            lines(line) + terminated(out),
            lines(line) + terminated(rest),
            extra,
        );
        assert(Seq::<Seq<char>>::empty() + (lines(line) + terminated(rest)) =~= lines(line)
            + terminated(rest));
    } else {
        let rest = s.skip(1);
        let out = replaced(rest, from, to);
        if s[0] == '\n' {
            assert(open + s =~= open.push('\n') + rest);
            assert(new =~= open.push('\n') + out);
            a_line_break_parts_lines(open, rest);
            assert(stands_alone(line, none + rest)) by {
                assert(none + rest =~= rest);
                assert forall|i: int|
                    0 <= i < terminated(rest).len() && line.is_suffix_of(
                        #[trigger] terminated(rest)[i],
                    ) implies terminated(rest)[i] == line by {
                    assert(terminated(open + s)[lines(open).len() + i] == terminated(rest)[i]);
                }
            }
            lines_put_in_before(none, rest, line, added);
            assert(none + rest =~= rest);
            assert(none + out =~= out);
            a_line_break_parts_lines(open, out);
            from_itself(lines(open), extra);
            from_either_in_turn(lines(open), lines(open), terminated(out), terminated(rest), extra);
        } else {
            let more = open.push(s[0]);
            still_no_break(open, s[0]);
            assert(open + s =~= more + rest);
            lines_put_in_before(more, rest, line, added);
            assert(new =~= more + out);
        }
    }
}

/// A text is marked line by line: on either side of a line break it is marked as
/// it would be alone.
pub proof fn lines_are_marked_one_by_one(mark: Seq<char>, a: Seq<char>, b: Seq<char>)
    ensures
        marked(mark, a.push('\n') + b) == marked(mark, a).push('\n') + marked(mark, b),
    decreases b.len(),
{
    let whole = a.push('\n') + b;
    if b.len() == 0 {
        assert(whole =~= a.push('\n'));
        assert(whole.drop_last() =~= a);
    } else {
        let shorter = b.drop_last();
        lines_are_marked_one_by_one(mark, a, shorter);
        assert(whole.drop_last() =~= a.push('\n') + shorter);
        assert(whole.last() == b.last());
    }
    assert(marked(mark, whole) =~= marked(mark, a).push('\n') + marked(mark, b));
}

/// A gap is one empty line in front of a note, and a note of one line is the
/// mark, the line and a line break.
pub proof fn notes_are_marked_lines(mark: Seq<char>, text: Seq<char>)
    ensures
        note(true, mark, text) == seq!['\n'] + note(false, mark, text),
        !text.contains('\n') ==> note(false, mark, text) == (mark + text).push('\n'),
{
    assert(note(true, mark, text) =~= seq!['\n'] + note(false, mark, text));
    if !text.contains('\n') {
        one_line_is_marked_once(mark, text);
        assert(note(false, mark, text) =~= (mark + text).push('\n'));
    }
}

} // verus!
