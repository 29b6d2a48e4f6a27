use vstd::prelude::*;
use vstd::string::*;

use crate::level::{level_name, Level};

verus! {

broadcast use vstd::seq_lib::group_seq_properties;

/// One active span as seen by an event: its name, its numeric id and the text
/// of its recorded fields (empty when it has none).
#[derive(Clone, Debug)]
pub struct SpanFrame {
    pub name: String,
    pub id: u64,
    pub fields: String,
}

/// A snapshot of one event, taken when it is emitted.
#[derive(Clone, Debug)]
pub struct LogEvent {
    /// The time of the event, already rendered.
    pub timestamp: String,
    pub level: Level,
    /// The thread's name as debug text (`Some("main")`, or `None` when unnamed).
    pub thread_name: String,
    /// The thread's id as debug text (`ThreadId(1)`).
    pub thread_id: String,
    /// The active spans, from the root to the innermost.
    pub spans: Vec<SpanFrame>,
    /// The event's own fields, already rendered.
    pub fields: String,
}

pub open spec fn hex_digits() -> Seq<char> {
    seq!['0', '1', '2', '3', '4', '5', '6', '7', '8', '9', 'a', 'b', 'c', 'd', 'e', 'f']
}

/// Lower-case hexadecimal digits of `n`, without leading zeros.
pub open spec fn hex_of(n: nat) -> Seq<char>
    decreases n,
{
    if n < 16 {
        seq![hex_digits()[n as int]]
    } else {
        hex_of(n / 16) + seq![hex_digits()[(n % 16) as int]]
    }
}

/// `s` right-aligned in `width` characters, filled on the left with `fill`.
pub open spec fn pad_left(s: Seq<char>, width: nat, fill: char) -> Seq<char> {
    if s.len() >= width {
        s
    } else {
        Seq::new((width - s.len()) as nat, |_i: int| fill) + s
    }
}

/// `name#id:` with the id in hex, and `{fields}` before the colon when the
/// span has recorded fields.
pub open spec fn span_segment(f: SpanFrame) -> Seq<char> {
    f.name@ + seq!['#'] + hex_of(f.id as nat) + (if f.fields@.len() == 0 {
        Seq::<char>::empty()
    } else {
        seq!['{'] + f.fields@ + seq!['}']
    }) + seq![':']
}

pub open spec fn span_segments(spans: Seq<SpanFrame>) -> Seq<Seq<char>> {
    spans.map_values(|f: SpanFrame| span_segment(f))
}

/// The breadcrumb of active spans: their segments root to leaf, then one
/// space; nothing at all when no span is active.
pub open spec fn span_chain(spans: Seq<SpanFrame>) -> Seq<char> {
    if spans.len() == 0 {
        Seq::empty()
    } else {
        span_segments(spans).flatten() + seq![' ']
    }
}

/// Timestamp, level, thread name and thread id, each followed by a space.
pub open spec fn line_header(e: LogEvent) -> Seq<char> {
    e.timestamp@ + seq![' '] + pad_left(level_name(e.level), 5, ' ') + seq![' '] + pad_left(
        e.thread_name@,
        15,
        '0',
    ) + seq![' '] + pad_left(e.thread_id@, 2, '0') + seq![' ']
}

/// The full line that the formatter writes for an event.
pub open spec fn rendered_line(e: LogEvent) -> Seq<char> {
    line_header(e) + span_chain(e.spans@) + e.fields@ + seq!['\n']
}

/// With no active span, the line holds no span segment and no separator:
/// the event's fields follow the header directly.
pub proof fn lemma_no_spans_no_chain(e: LogEvent)
    requires
        e.spans@.len() == 0,
    ensures
        rendered_line(e) == line_header(e) + e.fields@ + seq!['\n'],
{
    assert(span_chain(e.spans@) =~= Seq::<char>::empty());
    assert(rendered_line(e) =~= line_header(e) + e.fields@ + seq!['\n']);
}

/// With `N >= 1` active spans, the line holds exactly `N` segments, root to
/// leaf, each `name#id:` with `{fields}` before the colon iff that span has
/// fields, and exactly one space between the last segment and the fields.
pub proof fn lemma_spans_rendered_in_order(e: LogEvent)
    requires
        e.spans@.len() >= 1,
    ensures
        rendered_line(e) == line_header(e) + span_segments(e.spans@).flatten() + seq![' ']
            + e.fields@ + seq!['\n'],
        span_segments(e.spans@).len() == e.spans@.len(),
        forall|i: int|
            0 <= i < e.spans@.len() ==> #[trigger] span_segments(e.spans@)[i] == e.spans@[i].name@
                + seq!['#'] + hex_of(e.spans@[i].id as nat) + (if e.spans@[i].fields@.len() == 0 {
                Seq::<char>::empty()
            } else {
                seq!['{'] + e.spans@[i].fields@ + seq!['}']
            }) + seq![':'],
{
    let segs = span_segments(e.spans@);
    assert(rendered_line(e) =~= line_header(e) + segs.flatten() + seq![' '] + e.fields@ + seq![
        '\n',
    ]);
}

/// Appends the hexadecimal digits of `n`.
fn append_hex(out: &mut String, n: u64)
    ensures
        final(out)@ == old(out)@ + hex_of(n as nat),
    decreases n,
{
    if n >= 16 {
        append_hex(out, n / 16);
    }
    let digits = "0123456789abcdef";
    proof {
        reveal_strlit("0123456789abcdef");
        assert(digits@ =~= hex_digits());
    }
    let d = (n % 16) as usize;
    let digit = digits.substring_char(d, d + 1);
    assert(digit@ =~= seq![hex_digits()[d as int]]);
    out.append(digit);
}

/// Appends `s` right-aligned in `width` characters, padded on the left with
/// the single character of `fill`.
fn append_padded(out: &mut String, s: &str, width: usize, fill: &str)
    requires
        fill@.len() == 1,
    ensures
        final(out)@ == old(out)@ + pad_left(s@, width as nat, fill@[0]),
{
    let len = s.unicode_len();
    let ghost start = out@;
    if len < width {
        let pad = width - len;
        let mut i: usize = 0;
        while i < pad
            invariant
                i <= pad,
                fill@.len() == 1,
                out@ == start + Seq::new(i as nat, |_j: int| fill@[0]),
            decreases pad - i,
        {
            out.append(fill);
            assert(out@ =~= start + Seq::new((i + 1) as nat, |_j: int| fill@[0]));
            i = i + 1;
        }
    }
    out.append(s);
    assert(out@ =~= start + pad_left(s@, width as nat, fill@[0]));
}

/// Renders events as single text lines with the chain of active spans.
pub struct EventFormatter {}

impl EventFormatter {
    pub fn new() -> (r: EventFormatter) {
        EventFormatter {  }
    }

    /// Renders one event as one newline-terminated line.
    pub fn format_event(&self, event: &LogEvent) -> (r: String)
        ensures
            r@ == rendered_line(*event),
    {
        let mut out = String::from_str(event.timestamp.as_str());
        let space = " ";
        let zero = "0";
        proof {
            reveal_strlit(" ");
            reveal_strlit("0");
        }
        out.append(space);
        append_padded(&mut out, event.level.as_str(), 5, space);
        out.append(space);
        append_padded(&mut out, event.thread_name.as_str(), 15, zero);
        out.append(space);
        append_padded(&mut out, event.thread_id.as_str(), 2, zero);
        out.append(space);
        let ghost header = out@;
        assert(header =~= line_header(*event));
        let spans = &event.spans;
        let n = spans.len();
        let mut i: usize = 0;
        while i < n
            invariant
                i <= n,
                n == spans@.len(),
                spans == &event.spans,
                out@ == header + span_segments(spans@.take(i as int)).flatten(),
            decreases n - i,
        {
            let span = &spans[i];
            let ghost before = out@;
            out.append(span.name.as_str());
            out.append("#");
            append_hex(&mut out, span.id);
            if span.fields.unicode_len() > 0 {
                out.append("{");
                out.append(span.fields.as_str());
                out.append("}");
            }
            out.append(":");
            proof {
                reveal_strlit("#");
                reveal_strlit("{");
                reveal_strlit("}");
                reveal_strlit(":");
                assert(out@ =~= before + span_segment(spans@[i as int]));
                let prev = span_segments(spans@.take(i as int));
                assert(span_segments(spans@.take(i + 1)) =~= prev.push(
                    span_segment(spans@[i as int]),
                ));
                prev.lemma_flatten_push(span_segment(spans@[i as int]));
            }
            i = i + 1;
        }
        assert(spans@.take(n as int) =~= spans@);
        if n > 0 {
            out.append(space);
        }
        out.append(event.fields.as_str());
        out.append("\n");
        proof {
            reveal_strlit("\n");
            assert(out@ =~= rendered_line(*event));
        }
        out
    }
}

} // verus!
