//! One line of text for each object-store request that is traced.

use vstd::prelude::*;
use vstd::string::*;

use crate::decimal::decimal_text;
#[allow(unused_imports)]
use crate::decimal::{all_digits, decimal, decimal_is_the_number, digits_value};
use crate::text::same_text;

verus! {

/// What a request does, as far as its line depends on it.
#[derive(Debug, Clone, Copy, PartialEq, Eq, Structural)]
pub enum ObjectOperation {
    /// Reads an object.
    ObjGet,
    /// Writes an object.
    ObjPut,
    /// Copies an object.
    ObjCopy,
    /// Renames an object.
    ObjRename,
    /// Anything else.
    Other,
}

/// What a request was made with.
#[derive(Debug)]
pub struct ObjectParams {
    /// Where a read starts.
    pub offset: Option<u64>,
    /// How much is read.
    pub length: Option<u64>,
    /// How much is written.
    pub size: Option<u64>,
    /// Where a copy or a rename goes.
    pub target_path: Option<String>,
}

/// A request that was traced.
#[derive(Debug)]
pub struct ObjectAccessEvent {
    /// What it did, if that is known: the operation and its label.
    pub operation: Option<(ObjectOperation, String)>,
    /// What it was made with.
    pub params: Option<ObjectParams>,
    /// How long it took, in microseconds.
    pub duration_us: Option<u64>,
    /// Whether it failed.
    pub error: bool,
    /// The store it went to.
    pub store: String,
    /// The object's path.
    pub path: String,
}

/// `text` is how `human` shows a number of bytes behind `label`; nothing is
/// shown of a number that is not there.
pub open spec fn shows_bytes<F: Fn(u64) -> String>(
    human: F,
    label: Seq<char>,
    bytes: Option<u64>,
    text: Seq<char>,
) -> bool {
    match bytes {
        None => text == Seq::<char>::empty(),
        Some(n) => exists|shown: String|
            #[trigger] human.ensures((n,), shown) && text == label + shown@,
    }
}

/// `text` is what is shown of the parameters of an operation: an offset
/// exactly, byte counts as `human` shows them, and where a copy goes.
pub open spec fn shows_params<F: Fn(u64) -> String>(
    human: F,
    params: Option<ObjectParams>,
    op: Option<ObjectOperation>,
    text: Seq<char>,
) -> bool {
    match (params, op) {
        (Some(params), Some(ObjectOperation::ObjGet)) => exists|len: Seq<char>|
            {
                &&& #[trigger] shows_bytes(human, " len="@, params.length, len)
                &&& text == offset_text(params.offset) + len
            },
        (Some(params), Some(ObjectOperation::ObjPut)) => shows_bytes(
            human,
            " size="@,
            params.size,
            text,
        ),
        (Some(params), Some(ObjectOperation::ObjCopy)) => text == target_text(params.target_path),
        (Some(params), Some(ObjectOperation::ObjRename)) => text == target_text(
            params.target_path,
        ),
        _ => text == Seq::<char>::empty(),
    }
}

/// What is shown of an offset.
pub open spec fn offset_text(offset: Option<u64>) -> Seq<char> {
    match offset {
        Some(offset) => " off="@ + decimal(offset as nat),
        None => seq![],
    }
}

/// What is shown of where a copy goes.
pub open spec fn target_text(target: Option<String>) -> Seq<char> {
    match target {
        Some(path) => " -> "@ + path@,
        None => seq![],
    }
}

/// `text` is how a duration is shown: whole microseconds below a millisecond,
/// then milliseconds to one decimal, and seconds to two. `quotient` divides and
/// rounds to a number of decimals.
pub open spec fn shows_duration<F: Fn(u64, u64, usize) -> String>(
    quotient: F,
    us: u64,
    text: Seq<char>,
) -> bool {
    if us < 1000 {
        text == decimal(us as nat) + "µs"@
    } else if us < 1_000_000 {
        exists|shown: String|
            #[trigger] quotient.ensures((us, 1000, 1), shown) && text == shown@ + "ms"@
    } else {
        exists|shown: String|
            #[trigger] quotient.ensures((us, 1_000_000, 2), shown) && text == shown@ + "s"@
    }
}

fn labelled_bytes<F: Fn(u64) -> String>(human: &F, label: &str, bytes: Option<u64>) -> (text:
    String)
    requires
        forall|n: u64| #[trigger] human.requires((n,)),
    ensures
        shows_bytes(*human, label@, bytes, text@),
{
    match bytes {
        None => String::new(),
        Some(n) => {
            let shown = human(n);
            let mut text = label.to_owned();
            text.append(shown.as_str());
            text
        },
    }
}

fn labelled_target(target: &Option<String>) -> (text: String)
    ensures
        text@ == target_text(*target),
{
    match target {
        Some(path) => {
            let mut text = " -> ".to_owned();
            text.append(path.as_str());
            text
        },
        None => String::new(),
    }
}

/// What is shown of the parameters of a request. `human` shows a byte count.
pub fn format_params<F: Fn(u64) -> String>(
    params: &Option<ObjectParams>,
    op: Option<ObjectOperation>,
    human: &F,
) -> (text: String)
    requires
        forall|n: u64| #[trigger] human.requires((n,)),
    ensures
        shows_params(*human, *params, op, text@),
{
    match (params, op) {
        (Some(params), Some(op)) => match op {
            ObjectOperation::ObjGet => {
                // Offset is a position, kept exact; length is a byte count, humanized.
                let mut text = match params.offset {
                    Some(offset) => {
                        let mut off = " off=".to_owned();
                        off.append(decimal_text(offset).as_str());
                        off
                    },
                    None => String::new(),
                };
                let len = labelled_bytes(human, " len=", params.length);
                assert(shows_bytes(*human, " len="@, params.length, len@));
                text.append(len.as_str());
                text
            },
            ObjectOperation::ObjPut => labelled_bytes(human, " size=", params.size),
            ObjectOperation::ObjCopy => labelled_target(&params.target_path),
            ObjectOperation::ObjRename => labelled_target(&params.target_path),
            ObjectOperation::Other => String::new(),
        },
        _ => String::new(),
    }
}

/// How a duration in microseconds is shown. `quotient(n, d, p)` shows `n / d`
/// to `p` decimals.
pub fn format_duration<F: Fn(u64, u64, usize) -> String>(us: u64, quotient: &F) -> (text: String)
    requires
        forall|n: u64, d: u64, p: usize| d > 0 ==> #[trigger] quotient.requires((n, d, p)),
    ensures
        shows_duration(*quotient, us, text@),
{
    if us < 1000 {
        let mut text = decimal_text(us);
        text.append("µs");
        text
    } else if us < 1_000_000 {
        let mut text = quotient(us, 1000, 1);
        text.append("ms");
        text
    } else {
        let mut text = quotient(us, 1_000_000, 2);
        text.append("s");
        text
    }
}

/// The parts of a line put together. Only a store other than `data` is named:
/// without a separate WAL every request goes to `data`, and the label would
/// repeat on every line.
pub open spec fn line_text(
    label: Seq<char>,
    store: Seq<char>,
    path: Seq<char>,
    params: Seq<char>,
    timing: Seq<char>,
    error: bool,
) -> Seq<char> {
    label + " | "@ + (if store == "data"@ {
        seq![]
    } else {
        store + " "@
    }) + path + params + timing + (if error {
        "  ERR"@
    } else {
        seq![]
    })
}

/// The parts of a line put together.
pub fn join_line(
    label: &str,
    store: &str,
    path: &str,
    params: &str,
    timing: &str,
    error: bool,
) -> (line: String)
    ensures
        line@ == line_text(label@, store@, path@, params@, timing@, error),
{
    let mut line = label.to_owned();
    line.append(" | ");
    if !same_text(store, "data") {
        line.append(store);
        line.append(" ");
    }
    line.append(path);
    line.append(params);
    line.append(timing);
    if error {
        line.append("  ERR");
    }
    assert(line@ =~= line_text(label@, store@, path@, params@, timing@, error));
    line
}

impl ObjectAccessEvent {
    /// The label of the operation; one that is not known has none.
    pub open spec fn label(self) -> Seq<char> {
        match self.operation {
            Some((_, label)) => label@,
            None => "??"@,
        }
    }

    /// The operation, if it is known.
    pub open spec fn kind(self) -> Option<ObjectOperation> {
        match self.operation {
            Some((op, _)) => Some(op),
            None => None,
        }
    }

    /// `text` is what is shown of how long the request took.
    pub open spec fn shows_timing<F: Fn(u64, u64, usize) -> String>(
        self,
        quotient: F,
        text: Seq<char>,
    ) -> bool {
        match self.duration_us {
            None => text == Seq::<char>::empty(),
            Some(us) => exists|shown: Seq<char>|
                #[trigger] shows_duration(quotient, us, shown) && text == "  "@ + shown,
        }
    }
}

/// The line for a request. `human` shows a byte count, and `quotient(n, d, p)`
/// shows `n / d` to `p` decimals.
pub fn event_line<F: Fn(u64) -> String, G: Fn(u64, u64, usize) -> String>(
    event: &ObjectAccessEvent,
    human: &F,
    quotient: &G,
) -> (line: String)
    requires
        forall|n: u64| #[trigger] human.requires((n,)),
        forall|n: u64, d: u64, p: usize| d > 0 ==> #[trigger] quotient.requires((n, d, p)),
    ensures
        exists|params: Seq<char>, timing: Seq<char>|
            {
                &&& #[trigger] shows_params(*human, event.params, event.kind(), params)
                &&& #[trigger] event.shows_timing(*quotient, timing)
                &&& line@ == line_text(
                    event.label(),
                    event.store@,
                    event.path@,
                    params,
                    timing,
                    event.error,
                )
            },
{
    let kind = match &event.operation {
        Some((op, _)) => Some(*op),
        None => None,
    };
    let label = match &event.operation {
        Some((_, label)) => label.as_str(),
        None => "??",
    };
    let params = format_params(&event.params, kind, human);
    let timing = match event.duration_us {
        Some(us) => {
            let shown = format_duration(us, quotient);
            assert(shows_duration(*quotient, us, shown@));
            let mut timing = "  ".to_owned();
            timing.append(shown.as_str());
            timing
        },
        None => String::new(),
    };
    assert(event.shows_timing(*quotient, timing@));
    join_line(
        label,
        event.store.as_str(),
        event.path.as_str(),
        params.as_str(),
        timing.as_str(),
        event.error,
    )
}

/// Nothing is shown of the parameters of an unknown operation, nor where there
/// are none.
pub proof fn unknown_requests_show_no_params<F: Fn(u64) -> String>(
    human: F,
    params: Option<ObjectParams>,
    op: Option<ObjectOperation>,
    text: Seq<char>,
)
    requires
        shows_params(human, params, op, text),
        params is None || op is None,
    ensures
        text == Seq::<char>::empty(),
{
}

/// An offset is shown exactly: ` off=` and digits that stand for it.
pub proof fn offsets_are_shown_exactly(offset: u64) -> (digits: Seq<char>)
    ensures
        offset_text(Some(offset)) == " off="@ + digits,
        all_digits(digits),
        digits_value(digits) == offset,
{
    decimal_is_the_number(offset as nat);
    decimal(offset as nat)
}

/// Two different offsets are never shown alike.
pub proof fn offsets_are_told_apart(a: u64, b: u64)
    requires
        offset_text(Some(a)) == offset_text(Some(b)),
    ensures
        a == b,
{
    decimal_is_the_number(a as nat);
    decimal_is_the_number(b as nat);
    let front = " off="@;
    assert(offset_text(Some(a)).skip(front.len() as int) =~= decimal(a as nat));
    assert(offset_text(Some(b)).skip(front.len() as int) =~= decimal(b as nat));
}

/// What is shown of a read: the offset exactly, where there is one, and then
/// the length as a byte count, where there is one. How much would be written,
/// and a target, play no part.
pub proof fn a_read_shows_its_range<F: Fn(u64) -> String>(
    human: F,
    params: ObjectParams,
    text: Seq<char>,
) -> (r: (Seq<char>, Seq<char>))
    requires
        shows_params(human, Some(params), Some(ObjectOperation::ObjGet), text),
    ensures
        text == r.0 + r.1,
        params.offset is None ==> r.0.len() == 0,
        params.offset matches Some(offset) ==> {
            &&& " off="@.is_prefix_of(r.0)
            &&& all_digits(r.0.skip(" off="@.len() as int))
            &&& digits_value(r.0.skip(" off="@.len() as int)) == offset
        },
        params.length is None ==> r.1.len() == 0,
        params.length matches Some(length) ==> exists|shown: String|
            #[trigger] human.ensures((length,), shown) && r.1 == " len="@ + shown@,
{
    let len = choose|len: Seq<char>|
        {
            &&& #[trigger] shows_bytes(human, " len="@, params.length, len)
            &&& text == offset_text(params.offset) + len
        };
    let off = offset_text(params.offset);
    if let Some(offset) = params.offset {
        let digits = offsets_are_shown_exactly(offset);
        assert(off.skip(" off="@.len() as int) =~= digits);
        assert(" off="@ =~= off.subrange(0, " off="@.len() as int));
    }
    (off, len)
}

/// Reads that are shown alike start at the same place, where no length is shown
/// with them.
pub proof fn reads_are_told_apart_by_their_offsets<F: Fn(u64) -> String>(
    human: F,
    a: ObjectParams,
    b: ObjectParams,
    text: Seq<char>,
)
    requires
        a.length is None,
        b.length is None,
        a.offset is Some,
        b.offset is Some,
        shows_params(human, Some(a), Some(ObjectOperation::ObjGet), text),
        shows_params(human, Some(b), Some(ObjectOperation::ObjGet), text),
    ensures
        a.offset == b.offset,
{
    let (off_a, len_a) = a_read_shows_its_range(human, a, text);
    let (off_b, len_b) = a_read_shows_its_range(human, b, text);
    assert(off_a =~= text);
    assert(off_b =~= text);
}

/// What is shown of a write: how much is written, as a byte count, where that
/// is known, and nothing else.
pub proof fn a_write_shows_its_size<F: Fn(u64) -> String>(
    human: F,
    params: ObjectParams,
    text: Seq<char>,
)
    requires
        shows_params(human, Some(params), Some(ObjectOperation::ObjPut), text),
    ensures
        params.size is None ==> text.len() == 0,
        params.size matches Some(size) ==> exists|shown: String|
            #[trigger] human.ensures((size,), shown) && text == " size="@ + shown@,
{
}

/// What is shown of a copy or a rename: an arrow and the whole path that it
/// goes to, where there is one. Of any other operation nothing is shown.
pub proof fn copies_show_where_they_go<F: Fn(u64) -> String>(
    human: F,
    params: ObjectParams,
    op: ObjectOperation,
    text: Seq<char>,
)
    requires
        shows_params(human, Some(params), Some(op), text),
    ensures
        op == ObjectOperation::ObjCopy || op == ObjectOperation::ObjRename ==> (
        params.target_path matches Some(path) ==> text == " -> "@ + path@),
        op == ObjectOperation::ObjCopy || op == ObjectOperation::ObjRename ==> (
        params.target_path is None ==> text.len() == 0),
        op == ObjectOperation::Other ==> text.len() == 0,
{
}

/// A duration below a millisecond is shown exactly, in microseconds; one below
/// a second as its thousandth, to one decimal; and a longer one as its
/// millionth, to two.
pub proof fn durations_are_shown_in_their_unit<F: Fn(u64, u64, usize) -> String>(
    quotient: F,
    us: u64,
    text: Seq<char>,
)
    requires
        shows_duration(quotient, us, text),
    ensures
        us < 1000 ==> exists|digits: Seq<char>|
            #[trigger] all_digits(digits) && digits_value(digits) == us && text == digits + "µs"@,
        1000 <= us < 1_000_000 ==> exists|shown: String|
            #[trigger] quotient.ensures((us, 1000, 1), shown) && text == shown@ + "ms"@,
        us >= 1_000_000 ==> exists|shown: String|
            #[trigger] quotient.ensures((us, 1_000_000, 2), shown) && text == shown@ + "s"@,
{
    decimal_is_the_number(us as nat);
}

/// The timing of a request is its duration behind two spaces, and nothing where
/// it was not measured.
pub proof fn timings_are_durations<F: Fn(u64, u64, usize) -> String>(
    event: ObjectAccessEvent,
    quotient: F,
    text: Seq<char>,
)
    requires
        event.shows_timing(quotient, text),
    ensures
        event.duration_us is None ==> text.len() == 0,
        event.duration_us matches Some(us) ==> {
            &&& "  "@.is_prefix_of(text)
            &&& shows_duration(quotient, us, text.skip("  "@.len() as int))
        },
{
    if let Some(us) = event.duration_us {
        let shown = choose|shown: Seq<char>|
            #[trigger] shows_duration(quotient, us, shown) && text == "  "@ + shown;
        assert(text.skip("  "@.len() as int) =~= shown);
        assert("  "@ =~= text.subrange(0, "  "@.len() as int));
    }
}

/// How the lines for two requests relate: failing adds a mark at the end, and a
/// store other than `data` is named in front of the path. Without either a line
/// is its parts, all of them.
pub proof fn lines_hold_their_parts(
    label: Seq<char>,
    store: Seq<char>,
    path: Seq<char>,
    params: Seq<char>,
    timing: Seq<char>,
    error: bool,
)
    ensures
        line_text(label, "data"@, path, params, timing, false) == label + " | "@ + path + params
            + timing,
        store != "data"@ ==> line_text(label, store, path, params, timing, error) == line_text(
            label,
            "data"@,
            store + " "@ + path,
            params,
            timing,
            error,
        ),
        line_text(label, store, path, params, timing, true) == line_text(
            label,
            store,
            path,
            params,
            timing,
            false,
        ) + "  ERR"@,
{
    assert(line_text(label, "data"@, path, params, timing, false) =~= label + " | "@ + path + params
        + timing);
    if store != "data"@ {
        assert(line_text(label, store, path, params, timing, error) =~= line_text(
            label,
            "data"@,
            store + " "@ + path,
            params,
            timing,
            error,
        ));
    }
    assert(line_text(label, store, path, params, timing, true) =~= line_text(
        label,
        store,
        path,
        params,
        timing,
        false,
    ) + "  ERR"@);
}

/// A known operation goes by its own label, an unknown one by question marks.
pub proof fn operations_go_by_their_label(event: ObjectAccessEvent)
    ensures
        event.operation matches Some((op, label)) ==> event.label() == label@ && event.kind()
            == Some(op),
        event.operation is None ==> event.label() == "??"@ && event.kind() is None,
{
}

} // verus!
