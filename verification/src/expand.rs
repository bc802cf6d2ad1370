//! Environment variables in configured text.

use vstd::prelude::*;
use vstd::string::*;

#[allow(unused_imports)]
use crate::text::{a_text_occurs_between_others, occurs};

verus! {

/// A variable that could not be expanded.
#[derive(Debug, Clone)]
pub struct LookupFailure {
    /// The variable.
    pub var_name: String,
    /// Why.
    pub cause: String,
}

impl LookupFailure {
    /// The failure, in words.
    pub open spec fn text(self) -> Seq<char> {
        "Failed to expand environment variable: error looking key '"@ + self.var_name@ + "' up: "@
            + self.cause@
    }

    /// The failure, in words.
    pub fn message(&self) -> (s: String)
        ensures
            s@ == self.text(),
    {
        let mut s = "Failed to expand environment variable: error looking key '".to_owned();
        s.append(self.var_name.as_str());
        s.append("' up: ");
        s.append(self.cause.as_str());
        s
    }
}

/// A text without a dollar sign.
pub open spec fn plain(s: Seq<char>) -> bool {
    !s.contains('$')
}

/// Whether a text refers to a variable, as `$name` or `${name`.
pub open spec fn refers_to(s: Seq<char>, name: Seq<char>) -> bool {
    exists|i: int, j: int|
        {
            &&& 0 < i <= j <= s.len()
            &&& name == #[trigger] s.subrange(i, j)
            &&& s[i - 1] == '$' || (i > 1 && s[i - 2] == '$' && s[i - 1] == '{')
        }
}

/// A piece of a text, as far as expansion goes.
pub enum Piece {
    /// Text without a dollar sign.
    Text(Seq<char>),
    /// `$$`, which stands for one dollar sign.
    Doubled,
    /// A `$` that nothing can refer with, and that stands for itself.
    Lone,
    /// `$name`.
    Bare(Seq<char>),
    /// `${name}`.
    Braced(Seq<char>),
    /// `${name:-text}`, where `text` is taken if the variable is not set.
    Defaulted(Seq<char>, Seq<char>),
    /// A `${` without a closing brace behind it, which stands for itself.
    Unclosed,
}

/// A character that a bare name is made of here: a letter or digit of ASCII, or
/// an underscore.
pub open spec fn name_char(c: char) -> bool {
    ('a' <= c <= 'z') || ('A' <= c <= 'Z') || ('0' <= c <= '9') || c == '_'
}

/// A character that a bare name cannot go on with.
pub open spec fn ends_name(c: char) -> bool {
    c <= '\u{7f}' && !name_char(c)
}

/// Whether `:-` occurs in a text.
pub open spec fn has_default_mark(s: Seq<char>) -> bool {
    exists|i: int| 0 <= i < s.len() - 1 && #[trigger] s[i] == ':' && s[i + 1] == '-'
}

impl Piece {
    /// How the piece is written.
    pub open spec fn source(self) -> Seq<char> {
        match self {
            Piece::Text(text) => text,
            Piece::Doubled => seq!['$', '$'],
            Piece::Lone => seq!['$'],
            Piece::Bare(name) => seq!['$'] + name,
            Piece::Braced(name) => seq!['$', '{'] + name + seq!['}'],
            Piece::Defaulted(name, text) => seq!['$', '{'] + name + seq![':', '-'] + text
                + seq!['}'],
            Piece::Unclosed => seq!['$', '{'],
        }
    }

    /// What the piece expands to, where `value` is what its variable comes to.
    pub open spec fn meaning(self, value: Seq<char>) -> Seq<char> {
        match self {
            Piece::Text(text) => text,
            Piece::Doubled => seq!['$'],
            Piece::Lone => seq!['$'],
            Piece::Bare(_) => value,
            Piece::Braced(_) => value,
            Piece::Defaulted(_, _) => value,
            Piece::Unclosed => seq!['$', '{'],
        }
    }

    /// The variable that has to be set for the piece to expand.
    pub open spec fn needs(self) -> Option<Seq<char>> {
        match self {
            Piece::Bare(name) => Some(name),
            Piece::Braced(name) => Some(name),
            _ => None,
        }
    }

    /// Whether the piece refers to a variable at all.
    pub open spec fn refers(self) -> bool {
        self is Bare || self is Braced || self is Defaulted
    }

    /// Whether the piece is one in front of `next`, where `rest` is all that is
    /// written behind it.
    pub open spec fn stands_before(self, next: Option<Piece>, rest: Seq<char>) -> bool {
        match self {
            Piece::Text(text) => text.len() > 0 && plain(text),
            Piece::Doubled => true,
            Piece::Lone => match next {
                None => true,
                Some(Piece::Text(text)) => text.len() > 0 && ends_name(text[0]) && text[0] != '{',
                Some(_) => false,
            },
            Piece::Bare(name) => {
                &&& name.len() > 0
                &&& forall|i: int| 0 <= i < name.len() ==> name_char(#[trigger] name[i])
                &&& next matches Some(Piece::Text(text)) ==> text.len() > 0 && ends_name(text[0])
            },
            Piece::Braced(name) => {
                &&& !name.contains('}')
                &&& has_default_mark(name) ==> name[0] == ':' && name[1] == '-'
            },
            Piece::Defaulted(name, text) => {
                &&& name.len() > 0
                &&& !name.contains('}')
                &&& !has_default_mark(name)
                &&& !text.contains('}')
            },
            Piece::Unclosed => !rest.contains('}'),
        }
    }
}

/// The pieces as they are written.
pub open spec fn written(pieces: Seq<Piece>) -> Seq<char>
    decreases pieces.len(),
{
    if pieces.len() == 0 {
        seq![]
    } else {
        written(pieces.drop_last()) + pieces.last().source()
    }
}

/// What the pieces expand to, where the variable of the `i`th one has the `i`th
/// value.
pub open spec fn filled(pieces: Seq<Piece>, values: Seq<Seq<char>>) -> Seq<char>
    decreases pieces.len(),
{
    if pieces.len() == 0 {
        seq![]
    } else {
        filled(pieces.drop_last(), values.drop_last()) + pieces.last().meaning(values.last())
    }
}

/// Whether a text is made of these pieces.
pub open spec fn spells(pieces: Seq<Piece>, s: Seq<char>) -> bool {
    &&& s == written(pieces)
    &&& forall|i: int|
        0 <= i < pieces.len() ==> (#[trigger] pieces[i]).stands_before(
            if i + 1 < pieces.len() {
                Some(pieces[i + 1])
            } else {
                None
            },
            written(pieces.skip(i + 1)),
        )
}

/// What expanding the variables in `s` can come to, in any environment: a
/// plain text stays as it is, what stands before the first dollar sign stays
/// in front, and only a variable that `s` refers to can be missing. In a text
/// made of pieces, variables give way to values and the rest stays in place; a
/// variable with a default is never the one that is missing.
pub open spec fn possible_expansion(s: Seq<char>, outcome: Result<String, LookupFailure>) -> bool {
    match outcome {
        Ok(expanded) => {
            &&& plain(s) ==> expanded@ == s
            &&& forall|k: int|
                0 <= k <= s.len() && plain(#[trigger] s.take(k)) ==> s.take(k).is_prefix_of(
                    expanded@,
                )
            &&& forall|pieces: Seq<Piece>| #[trigger]
                spells(pieces, s) ==> exists|values: Seq<Seq<char>>|
                    values.len() == pieces.len() && expanded@ == #[trigger] filled(pieces, values)
        },
        Err(failure) => {
            &&& !plain(s)
            &&& refers_to(s, failure.var_name@)
            &&& forall|pieces: Seq<Piece>| #[trigger]
                spells(pieces, s) ==> exists|i: int|
                    0 <= i < pieces.len() && (#[trigger] pieces[i]).needs() == Some(
                        failure.var_name@,
                    )
        },
    }
}

/// [`shellexpand::env`], which replaces `$name` and `${name}` by the values of
/// environment variables, takes `$$` for one dollar sign, and fails on a
/// variable that is not set and has no default (`${name:-text}`). What comes
/// back depends on the environment; the contract holds in any, and leaves open
/// what a variable comes to.
#[verifier::external_body]
fn shell_env(s: &str) -> (outcome: Result<String, LookupFailure>)
    ensures
        possible_expansion(s@, outcome),
{
    match shellexpand::env(s) {
        Ok(expanded) => Ok(expanded.into_owned()),
        Err(e) => Err(LookupFailure { var_name: e.var_name, cause: e.cause.to_string() }),
    }
}

/// `outcome` is what looking the variables of `s` up in the environment gave.
pub closed spec fn looked_up(s: Seq<char>, outcome: Result<String, LookupFailure>) -> bool {
    exists|text: &str|
        text@ == s && #[trigger] call_ensures(crate::expand::shell_env, (text,), outcome)
}

/// `outcome` is how `s` expands: what came back from looking its variables up,
/// which is one of the things that it can come to.
pub open spec fn expansion(s: Seq<char>, outcome: Result<String, LookupFailure>) -> bool {
    looked_up(s, outcome) && possible_expansion(s, outcome)
}

/// Expands the environment variables in a text.
pub fn expand_string(s: &str) -> (r: Result<String, LookupFailure>)
    ensures
        expansion(s@, r),
{
    shell_env(s)
}

/// An optional text from how it expands, where there is one.
pub fn optional_expansion(outcome: Option<Result<String, LookupFailure>>) -> (r: Result<
    Option<String>,
    LookupFailure,
>)
    ensures
        r == match outcome {
            None => Ok::<_, LookupFailure>(None),
            Some(Ok(expanded)) => Ok(Some(expanded)),
            Some(Err(failure)) => Err(failure),
        },
{
    match outcome {
        None => Ok(None),
        Some(Ok(expanded)) => Ok(Some(expanded)),
        Some(Err(failure)) => Err(failure),
    }
}

/// `r` is how an optional text expands: not at all where there is none.
pub open spec fn optional_expands_to(
    s: Option<String>,
    r: Result<Option<String>, LookupFailure>,
) -> bool {
    &&& s is None ==> r == Ok::<Option<String>, LookupFailure>(None)
    &&& s matches Some(text) ==> match r {
        Ok(expanded) => expanded is Some && expansion(text@, Ok(expanded->0)),
        Err(failure) => expansion(text@, Err(failure)),
    }
}

/// Expands the environment variables in an optional text.
pub fn expand_optional_string(s: &Option<String>) -> (r: Result<Option<String>, LookupFailure>)
    ensures
        optional_expands_to(*s, r),
{
    match s {
        None => optional_expansion(None),
        Some(text) => optional_expansion(Some(expand_string(text.as_str()))),
    }
}

/// `r` is what the outcomes come to: all the texts, or the first failure.
pub open spec fn come_to(
    outcomes: Seq<Result<String, LookupFailure>>,
    r: Result<Vec<String>, LookupFailure>,
) -> bool {
    match r {
        Ok(expanded) => {
            &&& expanded@.len() == outcomes.len()
            &&& forall|j: int|
                0 <= j < outcomes.len() ==> #[trigger] outcomes[j] == Ok::<_, LookupFailure>(
                    expanded@[j],
                )
        },
        Err(failure) => exists|i: int|
            {
                &&& 0 <= i < outcomes.len()
                &&& #[trigger] outcomes[i] == Err::<String, _>(failure)
                &&& forall|j: int| 0 <= j < i ==> (#[trigger] outcomes[j]) is Ok
            },
    }
}

/// The texts from how each one expands; the first failure, if there is one,
/// stands for all.
pub fn collect_expansions(outcomes: Vec<Result<String, LookupFailure>>) -> (r: Result<
    Vec<String>,
    LookupFailure,
>)
    ensures
        come_to(outcomes@, r),
{
    let ghost all = outcomes@;
    let mut expanded: Vec<String> = Vec::new();
    for outcome in it: outcomes
        invariant
            it.seq() == all,
            expanded@.len() == it.index(),
            forall|j: int|
                0 <= j < it.index() ==> #[trigger] all[j] == Ok::<_, LookupFailure>(expanded@[j]),
    {
        assert(outcome == all[it.index()]);
        match outcome {
            Ok(text) => {
                expanded.push(text);
            },
            Err(failure) => {
                return Err(failure);
            },
        }
    }
    Ok(expanded)
}

/// Whether expanding a text worked.
pub open spec fn expands(s: Seq<char>) -> bool {
    exists|text: String| #[trigger] expansion(s, Ok(text))
}

/// `r` is how a list expands: entry by entry, or not for its first entry that
/// does not.
pub open spec fn list_expands_to(
    items: Seq<String>,
    r: Result<Vec<String>, LookupFailure>,
) -> bool {
    match r {
        Ok(expanded) => {
            &&& expanded@.len() == items.len()
            &&& forall|j: int|
                0 <= j < items.len() ==> expansion((#[trigger] items[j])@, Ok(expanded@[j]))
        },
        Err(failure) => exists|j: int|
            {
                &&& 0 <= j < items.len()
                &&& expansion((#[trigger] items[j])@, Err(failure))
                &&& forall|k: int| 0 <= k < j ==> expands((#[trigger] items[k])@)
            },
    }
}

/// Expands the environment variables in each entry on its own; a variable is
/// never split into several entries. The first entry that fails is reported.
pub fn expand_string_vec(items: &Vec<String>) -> (r: Result<Vec<String>, LookupFailure>)
    ensures
        list_expands_to(items@, r),
{
    let mut outcomes: Vec<Result<String, LookupFailure>> = Vec::new();
    let mut i: usize = 0;
    while i < items.len()
        invariant
            i <= items@.len(),
            outcomes@.len() == i,
            forall|j: int| 0 <= j < i ==> expansion((#[trigger] items@[j])@, outcomes@[j]),
        decreases items@.len() - i,
    {
        outcomes.push(expand_string(items[i].as_str()));
        i += 1;
    }
    let ghost all = outcomes@;
    let r = collect_expansions(outcomes);
    proof {
        if r is Err {
            let bad = choose|i: int|
                {
                    &&& 0 <= i < all.len()
                    &&& #[trigger] all[i] == Err::<String, _>(r->Err_0)
                    &&& forall|j: int| 0 <= j < i ==> (#[trigger] all[j]) is Ok
                };
            assert(expansion(items@[bad]@, all[bad]));
            assert forall|k: int| 0 <= k < bad implies expands((#[trigger] items@[k])@) by {
                assert(all[k] is Ok);
                assert(expansion(items@[k]@, Ok(all[k]->Ok_0)));
            }
        } else {
            assert forall|j: int| 0 <= j < items@.len() implies expansion(
                (#[trigger] items@[j])@,
                Ok(r->Ok_0@[j]),
            ) by {
                assert(all[j] == Ok::<_, LookupFailure>(r->Ok_0@[j]));
            }
        }
    }
    r
}

/// A text without variables always expands, and to itself.
pub proof fn plain_texts_stay(s: Seq<char>, outcome: Result<String, LookupFailure>)
    requires
        plain(s),
        expansion(s, outcome),
    ensures
        outcome is Ok,
        outcome->Ok_0@ == s,
{
}

/// A text in which every variable has a default always expands, to itself with
/// something in place of each variable.
pub proof fn defaults_keep_a_text_from_failing(
    pieces: Seq<Piece>,
    s: Seq<char>,
    outcome: Result<String, LookupFailure>,
) -> (values: Seq<Seq<char>>)
    requires
        spells(pieces, s),
        forall|i: int| 0 <= i < pieces.len() ==> (#[trigger] pieces[i]).needs() is None,
        expansion(s, outcome),
    ensures
        outcome is Ok,
        values.len() == pieces.len(),
        outcome->Ok_0@ == filled(pieces, values),
{
    choose|used: Seq<Seq<char>>|
        used.len() == pieces.len() && outcome->Ok_0@ == #[trigger] filled(pieces, used)
}

/// A text whose dollar signs refer to nothing always expands: every doubled
/// dollar sign to one, and the rest to itself.
pub proof fn texts_without_variables_always_expand(
    pieces: Seq<Piece>,
    s: Seq<char>,
    outcome: Result<String, LookupFailure>,
    values: Seq<Seq<char>>,
)
    requires
        spells(pieces, s),
        forall|i: int| 0 <= i < pieces.len() ==> !(#[trigger] pieces[i]).refers(),
        expansion(s, outcome),
        values.len() == pieces.len(),
    ensures
        outcome is Ok,
        outcome->Ok_0@ == filled(pieces, values),
{
    assert forall|i: int| 0 <= i < pieces.len() implies (#[trigger] pieces[i]).needs() is None by {
        assert(!pieces[i].refers());
    }
    let used = defaults_keep_a_text_from_failing(pieces, s, outcome);
    without_variables_values_are_idle(pieces, used, values);
}

/// Where nothing refers to a variable, values play no part.
proof fn without_variables_values_are_idle(
    pieces: Seq<Piece>,
    a: Seq<Seq<char>>,
    b: Seq<Seq<char>>,
)
    requires
        forall|i: int| 0 <= i < pieces.len() ==> !(#[trigger] pieces[i]).refers(),
        a.len() == pieces.len(),
        b.len() == pieces.len(),
    ensures
        filled(pieces, a) == filled(pieces, b),
    decreases pieces.len(),
{
    if pieces.len() > 0 {
        assert(!pieces.last().refers());
        assert forall|i: int| 0 <= i < pieces.drop_last().len() implies !(
        #[trigger] pieces.drop_last()[i]).refers() by {
            assert(!pieces[i].refers());
        }
        without_variables_values_are_idle(pieces.drop_last(), a.drop_last(), b.drop_last());
    }
}

/// What stands before the first dollar sign stays in front of whatever a text
/// expands to, and what comes back is what looking its variables up gave.
pub proof fn what_is_plain_stays_in_front(
    front: Seq<char>,
    rest: Seq<char>,
    outcome: Result<String, LookupFailure>,
)
    requires
        plain(front),
        expansion(front + rest, outcome),
    ensures
        looked_up(front + rest, outcome),
        outcome matches Ok(expanded) ==> front.is_prefix_of(expanded@),
        outcome is Err ==> rest.contains('$'),
{
    let s = front + rest;
    let k = front.len() as int;
    assert(s.take(k) =~= front);
    if outcome is Err {
        assert(s.contains('$'));
        let at = choose|at: int| 0 <= at < s.len() && s[at] == '$';
        if at < k {
            assert(front[at] == '$');
        } else {
            assert(rest[at - k] == '$');
        }
    }
}

/// A failure names the variable, and ends with its cause.
pub proof fn failures_name_their_variable(failure: LookupFailure)
    ensures
        occurs(failure.text(), failure.var_name@),
        failure.cause@.is_suffix_of(failure.text()),
{
    let text = failure.text();
    let before = "Failed to expand environment variable: error looking key '"@;
    a_text_occurs_between_others(before, failure.var_name@, "' up: "@ + failure.cause@);
    assert(text =~= before + failure.var_name@ + ("' up: "@ + failure.cause@));
    assert(failure.cause@ =~= text.subrange(
        text.len() - failure.cause@.len(),
        text.len() as int,
    ));
}

/// A text that is not there stays away, and one without variables stays as it
/// is.
pub proof fn plain_optional_texts_stay(s: Option<String>, r: Result<Option<String>, LookupFailure>)
    requires
        optional_expands_to(s, r),
    ensures
        s is None ==> r == Ok::<Option<String>, LookupFailure>(None),
        s matches Some(text) ==> plain(text@) ==> {
            &&& r is Ok
            &&& r->Ok_0 is Some
            &&& (r->Ok_0->0)@ == text@
        },
        r is Err ==> s is Some && s->0@.contains('$'),
{
    if let Some(text) = s {
        match r {
            Ok(expanded) => {
                if plain(text@) {
                    plain_texts_stay(text@, Ok(expanded->0));
                }
            },
            Err(failure) => {
                if plain(text@) {
                    plain_texts_stay(text@, Err(failure));
                }
            },
        }
    }
}

/// Outcomes that all worked come to their texts, each in its place; otherwise
/// the first one that failed is what they come to.
pub proof fn outcomes_come_to_their_texts(
    outcomes: Seq<Result<String, LookupFailure>>,
    r: Result<Vec<String>, LookupFailure>,
    first: int,
)
    requires
        come_to(outcomes, r),
        0 <= first <= outcomes.len(),
        forall|j: int| 0 <= j < first ==> (#[trigger] outcomes[j]) is Ok,
        first < outcomes.len() ==> outcomes[first] is Err,
    ensures
        first == outcomes.len() ==> {
            &&& r is Ok
            &&& r->Ok_0@ == outcomes.map_values(|outcome: Result<String, LookupFailure>| outcome->Ok_0)
        },
        first < outcomes.len() ==> r is Err && outcomes[first] == Err::<String, _>(r->Err_0),
{
    if first == outcomes.len() {
        assert(r->Ok_0@ =~= outcomes.map_values(
            |outcome: Result<String, LookupFailure>| outcome->Ok_0,
        ));
    } else if r is Ok {
        assert(outcomes[first] == Ok::<_, LookupFailure>(r->Ok_0@[first]));
    }
}

/// A list without variables stays as it is, entry by entry; a list that does not
/// expand has a dollar sign in it.
pub proof fn plain_lists_stay(items: Seq<String>, r: Result<Vec<String>, LookupFailure>)
    requires
        list_expands_to(items, r),
        forall|j: int| 0 <= j < items.len() ==> plain((#[trigger] items[j])@),
    ensures
        r is Ok,
        r->Ok_0@.len() == items.len(),
        forall|j: int| 0 <= j < items.len() ==> (#[trigger] r->Ok_0@[j])@ == items[j]@,
{
    match r {
        Ok(expanded) => {
            assert forall|j: int| 0 <= j < items.len() implies (#[trigger] expanded@[j])@
                == items[j]@ by {
                plain_texts_stay(items[j]@, Ok(expanded@[j]));
            }
        },
        Err(failure) => {
            let bad = choose|j: int|
                {
                    &&& 0 <= j < items.len()
                    &&& expansion((#[trigger] items[j])@, Err(failure))
                    &&& forall|k: int| 0 <= k < j ==> expands((#[trigger] items[k])@)
                };
            plain_texts_stay(items[bad]@, Err(failure));
        },
    }
}

/// A list keeps its length and its places: an entry without variables is found
/// unchanged where it was, whatever its neighbours expand to.
pub proof fn entries_expand_on_their_own(
    items: Seq<String>,
    expanded: Vec<String>,
    i: int,
)
    requires
        list_expands_to(items, Ok(expanded)),
        0 <= i < items.len(),
    ensures
        expanded@.len() == items.len(),
        looked_up(items[i]@, Ok(expanded@[i])),
        plain(items[i]@) ==> expanded@[i]@ == items[i]@,
{
    assert(expansion(items[i]@, Ok(expanded@[i])));
}

} // verus!
