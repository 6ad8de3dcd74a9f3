//! The highlight decoration: from the events of a grammar engine to coloured
//! fragments that cover the document exactly once.
//!
//! The work is done in two steps. [`layout`] reads the events and lays spans
//! of bytes over the document: every byte lies in exactly one span, and each
//! span carries the category of the innermost highlight that was open when
//! the engine reported it. [`render`] cuts the text along the spans and looks
//! the colours up. [`decorate`] is both, with a plain rendering where the
//! engine gave no events.

use vstd::prelude::*;
use vstd::string::*;
use vstd::utf8::*;
use crate::appearance::Color;

verus! {

/// What a stretch of source text is, as far as the colours go.
#[derive(Clone, Copy, Debug, PartialEq, Eq, Structural)]
pub enum Category {
    /// Text that no highlight covers.
    Plain,
    Attribute,
    Comment,
    Constant,
    Constructor,
    Escape,
    Function,
    Keyword,
    Label,
    Operator,
    Property,
    Punctuation,
    Text,
    Type,
    Variable,
}

/// The number of categories that an engine is asked to recognise.
pub const CATEGORY_COUNT: usize = 14;

impl Category {
    /// The category that an engine means by the index `index` into the list
    /// of recognised names; `Plain` for an index outside the list.
    pub open spec fn spec_of_index(index: usize) -> Category {
        if index == 0 {
            Category::Attribute
        } else if index == 1 {
            Category::Comment
        } else if index == 2 {
            Category::Constant
        } else if index == 3 {
            Category::Constructor
        } else if index == 4 {
            Category::Escape
        } else if index == 5 {
            Category::Function
        } else if index == 6 {
            Category::Keyword
        } else if index == 7 {
            Category::Label
        } else if index == 8 {
            Category::Operator
        } else if index == 9 {
            Category::Property
        } else if index == 10 {
            Category::Punctuation
        } else if index == 11 {
            Category::Text
        } else if index == 12 {
            Category::Type
        } else if index == 13 {
            Category::Variable
        } else {
            Category::Plain
        }
    }

    /// The category that an engine means by the index `index`.
    #[verifier::when_used_as_spec(spec_of_index)]
    pub fn of_index(index: usize) -> (c: Category)
        ensures
            c == Category::spec_of_index(index),
    {
        if index == 0 {
            Category::Attribute
        } else if index == 1 {
            Category::Comment
        } else if index == 2 {
            Category::Constant
        } else if index == 3 {
            Category::Constructor
        } else if index == 4 {
            Category::Escape
        } else if index == 5 {
            Category::Function
        } else if index == 6 {
            Category::Keyword
        } else if index == 7 {
            Category::Label
        } else if index == 8 {
            Category::Operator
        } else if index == 9 {
            Category::Property
        } else if index == 10 {
            Category::Punctuation
        } else if index == 11 {
            Category::Text
        } else if index == 12 {
            Category::Type
        } else if index == 13 {
            Category::Variable
        } else {
            Category::Plain
        }
    }

    /// The colour of a category: the configured text colour for plain text,
    /// and a fixed colour for each of the others.
    pub open spec fn spec_color(self, text_color: Color) -> Color {
        match self {
            Category::Plain => text_color,
            Category::Attribute => Color::spec_rgb(34, 134, 58),
            Category::Comment => Color::spec_rgb(106, 115, 125),
            Category::Constant => Color::spec_rgb(0, 92, 197),
            Category::Constructor => Color::spec_rgb(227, 98, 9),
            Category::Escape => Color::spec_rgb(0, 134, 179),
            Category::Function => Color::spec_rgb(111, 66, 193),
            Category::Keyword => Color::spec_rgb(215, 58, 73),
            Category::Label => Color::spec_rgb(153, 0, 85),
            Category::Operator => Color::spec_rgb(166, 38, 164),
            Category::Property => Color::spec_rgb(0, 128, 128),
            Category::Punctuation => Color::spec_rgb(88, 96, 105),
            Category::Text => Color::spec_rgb(3, 47, 98),
            Category::Type => Color::spec_rgb(177, 98, 134),
            Category::Variable => Color::spec_rgb(36, 41, 46),
        }
    }

    /// The colour of a category.
    #[verifier::when_used_as_spec(spec_color)]
    pub fn color(self, text_color: Color) -> (c: Color)
        ensures
            c == self.spec_color(text_color),
    {
        match self {
            Category::Plain => text_color,
            Category::Attribute => Color::rgb(34, 134, 58),
            Category::Comment => Color::rgb(106, 115, 125),
            Category::Constant => Color::rgb(0, 92, 197),
            Category::Constructor => Color::rgb(227, 98, 9),
            Category::Escape => Color::rgb(0, 134, 179),
            Category::Function => Color::rgb(111, 66, 193),
            Category::Keyword => Color::rgb(215, 58, 73),
            Category::Label => Color::rgb(153, 0, 85),
            Category::Operator => Color::rgb(166, 38, 164),
            Category::Property => Color::rgb(0, 128, 128),
            Category::Punctuation => Color::rgb(88, 96, 105),
            Category::Text => Color::rgb(3, 47, 98),
            Category::Type => Color::rgb(177, 98, 134),
            Category::Variable => Color::rgb(36, 41, 46),
        }
    }
}

/// One step of an engine's walk over the source: a stretch of bytes, or the
/// opening or closing of a highlight round the stretches that follow.
#[derive(Clone, Copy, Debug, PartialEq, Eq, Structural)]
pub enum HighlightEvent {
    /// The bytes `start..end` of the source.
    Source { start: usize, end: usize },
    /// A highlight opens; the number is an index into the recognised names.
    Start(usize),
    /// The highlight that was opened last closes.
    End,
}

/// The bytes `start..end` of the document, and what they are.
#[derive(Clone, Copy, Debug, PartialEq, Eq, Structural)]
pub struct Span {
    pub start: usize,
    pub end: usize,
    pub category: Category,
}

/// A piece of the document with the colour it is drawn in.
#[derive(Clone, Debug, PartialEq, Eq)]
pub struct Fragment {
    pub color: Color,
    pub text: String,
}

/// A [`Fragment`] as a value of specifications.
pub struct FragmentModel {
    pub color: Color,
    pub text: Seq<char>,
}

impl View for Fragment {
    type V = FragmentModel;

    open spec fn view(&self) -> FragmentModel {
        FragmentModel { color: self.color, text: self.text@ }
    }
}

impl DeepView for Fragment {
    type V = FragmentModel;

    open spec fn deep_view(&self) -> FragmentModel {
        self@
    }
}

impl DeepView for HighlightEvent {
    type V = HighlightEvent;

    open spec fn deep_view(&self) -> HighlightEvent {
        *self
    }
}

/// The texts of the fragments, one after the other.
pub open spec fn concat_texts(fragments: Seq<FragmentModel>) -> Seq<char>
    decreases fragments.len(),
{
    if fragments.len() == 0 {
        Seq::empty()
    } else {
        concat_texts(fragments.drop_last()) + fragments.last().text
    }
}

/// The category of text reported while the highlights of `stack` are open,
/// the innermost one last.
pub open spec fn innermost(stack: Seq<usize>) -> Category {
    if stack.len() == 0 {
        Category::Plain
    } else {
        Category::spec_of_index(stack.last())
    }
}

/// The highlights that stay open when the innermost one ends.
pub open spec fn unwound(stack: Seq<usize>) -> Seq<usize> {
    if stack.len() == 0 {
        stack
    } else {
        stack.drop_last()
    }
}

/// Where the layout stands after it was asked to go from `pos` to `target`:
/// at `target` if that lies ahead, inside the document and between two
/// characters, and still at `pos` if not.
pub open spec fn cut(bytes: Seq<u8>, pos: usize, target: usize) -> usize {
    if pos < target <= bytes.len() && is_char_boundary(bytes, target as int) {
        target
    } else {
        pos
    }
}

/// The span `start..end`, or nothing where it would be empty.
pub open spec fn piece(start: usize, end: usize, category: Category) -> Seq<Span> {
    if start < end {
        seq![Span { start, end, category }]
    } else {
        Seq::empty()
    }
}

/// The spans that `events` lay over the rest of the document, when the bytes
/// before `pos` are laid out and the highlights of `stack` are open.
///
/// A source event moves the layout to its end. What lies between `pos` and
/// the event's start is plain; the event's own bytes have the category of the
/// innermost open highlight. An event that ends behind `pos`, outside the
/// document or inside a character moves nothing. What no event reached is
/// plain.
pub open spec fn layout_from(
    bytes: Seq<u8>,
    events: Seq<HighlightEvent>,
    pos: usize,
    stack: Seq<usize>,
) -> Seq<Span>
    decreases events.len(),
{
    if events.len() == 0 {
        piece(pos, bytes.len() as usize, Category::Plain)
    } else {
        let rest = events.drop_first();
        match events[0] {
            HighlightEvent::Start(index) => layout_from(bytes, rest, pos, stack.push(index)),
            HighlightEvent::End => layout_from(bytes, rest, pos, unwound(stack)),
            HighlightEvent::Source { start, end } => {
                let from = cut(bytes, pos, start);
                let to = cut(bytes, from, end);
                piece(pos, from, Category::Plain) + piece(from, to, innermost(stack)) + layout_from(
                    bytes,
                    rest,
                    to,
                    stack,
                )
            },
        }
    }
}

/// The spans that `events` lay over a whole document.
pub open spec fn layout_of(bytes: Seq<u8>, events: Seq<HighlightEvent>) -> Seq<Span> {
    layout_from(bytes, events, 0, Seq::empty())
}

/// Where span `i` has to begin: at the end of the span before it.
pub open spec fn edge(spans: Seq<Span>, i: int) -> int {
    if i <= 0 {
        0
    } else {
        spans[i - 1].end as int
    }
}

/// The spans cover the bytes `0..upto` of the document without a gap or an
/// overlap: each begins where the one before it ends, none is empty, and each
/// ends between two characters.
#[verifier::opaque]
pub open spec fn covers(spans: Seq<Span>, bytes: Seq<u8>, upto: int) -> bool {
    &&& forall|i: int|
        0 <= i < spans.len() ==> {
            &&& (#[trigger] spans[i]).start == edge(spans, i)
            &&& spans[i].start < spans[i].end <= bytes.len()
            &&& is_char_boundary(bytes, spans[i].end as int)
        }
    &&& edge(spans, spans.len() as int) == upto
}

/// The fragment that a span stands for: its bytes as text, in the colour of
/// its category.
pub open spec fn fragment_of(bytes: Seq<u8>, span: Span, text_color: Color) -> FragmentModel {
    FragmentModel {
        color: span.category.spec_color(text_color),
        text: decode_utf8(bytes.subrange(span.start as int, span.end as int)),
    }
}

/// The fragments that the spans stand for, in their order.
pub open spec fn fragments_of(bytes: Seq<u8>, spans: Seq<Span>, text_color: Color) -> Seq<
    FragmentModel,
> {
    Seq::new(spans.len(), |i: int| fragment_of(bytes, spans[i], text_color))
}

/// The decoration of a document: with the events of an engine, the fragments
/// of their layout; without, the whole document as one plain fragment.
pub open spec fn decoration(
    bytes: Seq<u8>,
    events: Option<Seq<HighlightEvent>>,
    text_color: Color,
) -> Seq<FragmentModel> {
    match events {
        Some(events) => fragments_of(bytes, layout_of(bytes, events), text_color),
        None => fragments_of(bytes, layout_of(bytes, Seq::empty()), text_color),
    }
}

/// In a document of valid UTF-8, what follows a character boundary has its
/// boundaries where the document has them.
proof fn lemma_boundary_in_suffix(bytes: Seq<u8>, start: int, index: int)
    requires
        valid_utf8(bytes),
        is_char_boundary(bytes, start),
        0 <= start <= index <= bytes.len(),
    ensures
        valid_utf8(bytes.subrange(start, bytes.len() as int)),
        is_char_boundary(bytes.subrange(start, bytes.len() as int), index - start)
            <==> is_char_boundary(bytes, index),
{
    let suffix = bytes.subrange(start, bytes.len() as int);
    valid_utf8_split(bytes, start);
    if index == bytes.len() {
        is_char_boundary_start_end_of_seq(bytes);
        is_char_boundary_start_end_of_seq(suffix);
    } else {
        is_char_boundary_iff_not_is_continuation_byte(bytes, index);
        is_char_boundary_iff_not_is_continuation_byte(suffix, index - start);
    }
}

/// In a document of valid UTF-8, what precedes a character boundary has its
/// boundaries where the document has them.
proof fn lemma_boundary_in_prefix(bytes: Seq<u8>, end: int, index: int)
    requires
        valid_utf8(bytes),
        is_char_boundary(bytes, end),
        0 <= index <= end <= bytes.len(),
    ensures
        valid_utf8(bytes.subrange(0, end)),
        is_char_boundary(bytes.subrange(0, end), index) <==> is_char_boundary(bytes, index),
{
    let prefix = bytes.subrange(0, end);
    valid_utf8_split(bytes, end);
    if index == end {
        is_char_boundary_start_end_of_seq(prefix);
    } else {
        is_char_boundary_iff_not_is_continuation_byte(bytes, index);
        is_char_boundary_iff_not_is_continuation_byte(prefix, index);
    }
}

/// Text that is cut at two character boundaries decodes piece by piece.
proof fn lemma_decode_adjacent(bytes: Seq<u8>, mid: int, end: int)
    requires
        valid_utf8(bytes),
        0 <= mid <= end <= bytes.len(),
        is_char_boundary(bytes, mid),
        is_char_boundary(bytes, end),
    ensures
        decode_utf8(bytes.subrange(0, end)) == decode_utf8(bytes.subrange(0, mid)) + decode_utf8(
            bytes.subrange(mid, end),
        ),
{
    let prefix = bytes.subrange(0, end);
    lemma_boundary_in_prefix(bytes, end, mid);
    decode_utf8_split(prefix, mid);
    assert(prefix.subrange(0, mid) =~= bytes.subrange(0, mid));
    assert(prefix.subrange(mid, prefix.len() as int) =~= bytes.subrange(mid, end));
}

/// The fragments of spans that cover a stretch of a document, read one
/// after the other, are that stretch.
pub proof fn lemma_round_trip(bytes: Seq<u8>, spans: Seq<Span>, upto: int, text_color: Color)
    requires
        valid_utf8(bytes),
        covers(spans, bytes, upto),
    ensures
        0 <= upto <= bytes.len(),
        is_char_boundary(bytes, upto),
        concat_texts(fragments_of(bytes, spans, text_color)) == decode_utf8(
            bytes.subrange(0, upto),
        ),
    decreases spans.len(),
{
    reveal(covers);
    let fragments = fragments_of(bytes, spans, text_color);
    if spans.len() == 0 {
        assert(bytes.subrange(0, 0) =~= Seq::<u8>::empty());
        is_char_boundary_start_end_of_seq(bytes);
    } else {
        let last = spans.last();
        let before = spans.drop_last();
        assert(last == spans[spans.len() - 1]);
        assert(covers(before, bytes, last.start as int)) by {
            assert forall|i: int| 0 <= i < before.len() implies {
                &&& (#[trigger] before[i]).start == edge(before, i)
                &&& before[i].start < before[i].end <= bytes.len()
                &&& is_char_boundary(bytes, before[i].end as int)
            } by {
                assert(before[i] == spans[i]);
                if i > 0 {
                    assert(before[i - 1] == spans[i - 1]);
                }
            }
            if before.len() > 0 {
                assert(before[before.len() - 1] == spans[spans.len() - 2]);
            }
        }
        lemma_round_trip(bytes, before, last.start as int, text_color);
        lemma_decode_adjacent(bytes, last.start as int, last.end as int);
        assert(fragments.drop_last() =~= fragments_of(bytes, before, text_color));
        assert(fragments.last() == fragment_of(bytes, last, text_color));
    }
}

/// The length of a text in bytes.
pub fn byte_len(text: &str) -> (len: usize)
    ensures
        len == text.spec_bytes().len(),
{
    text.as_bytes().len()
}

/// Where the layout stands after it was asked to go from `pos` to `target`.
fn advance(text: &str, pos: usize, target: usize) -> (next: usize)
    ensures
        next == cut(text.spec_bytes(), pos, target),
{
    if pos < target && target <= byte_len(text) && text.is_char_boundary(target) {
        target
    } else {
        pos
    }
}

/// Adds the span `start..end` to the layout, unless it is empty.
fn push_piece(spans: &mut Vec<Span>, start: usize, end: usize, category: Category)
    ensures
        final(spans)@ == old(spans)@ + piece(start, end, category),
{
    if start < end {
        spans.push(Span { start, end, category });
        assert(spans@ =~= old(spans)@ + piece(start, end, category));
    } else {
        assert(spans@ =~= old(spans)@ + piece(start, end, category));
    }
}

/// The category of text reported while the highlights of `stack` are open.
fn innermost_of(stack: &Vec<usize>) -> (category: Category)
    ensures
        category == innermost(stack@),
{
    if stack.len() == 0 {
        Category::Plain
    } else {
        Category::of_index(stack[stack.len() - 1])
    }
}

/// No spans cover the empty start of a document.
proof fn lemma_covers_nothing(bytes: Seq<u8>)
    ensures
        covers(Seq::empty(), bytes, 0),
{
    reveal(covers);
}

/// Spans that cover `0..pos` still cover when a piece from `pos` on is added.
proof fn lemma_covers_piece(
    spans: Seq<Span>,
    bytes: Seq<u8>,
    pos: usize,
    next: usize,
    category: Category,
)
    requires
        covers(spans, bytes, pos as int),
        pos == next || (pos < next <= bytes.len() && is_char_boundary(bytes, next as int)),
    ensures
        covers(spans + piece(pos, next, category), bytes, next as int),
{
    reveal(covers);
    let grown = spans + piece(pos, next, category);
    if pos < next {
        assert forall|i: int| 0 <= i < grown.len() implies {
            &&& (#[trigger] grown[i]).start == edge(grown, i)
            &&& grown[i].start < grown[i].end <= bytes.len()
            &&& is_char_boundary(bytes, grown[i].end as int)
        } by {
            if i < spans.len() {
                assert(grown[i] == spans[i]);
                if i > 0 {
                    assert(grown[i - 1] == spans[i - 1]);
                }
            } else {
                if i > 0 {
                    assert(grown[i - 1] == spans[i - 1]);
                }
            }
        }
    } else {
        assert(grown =~= spans);
    }
}

/// Spans that cover `0..pos` still cover with the two pieces of a source
/// event behind them.
proof fn lemma_covers_source(
    laid: Seq<Span>,
    bytes: Seq<u8>,
    pos: usize,
    start: usize,
    end: usize,
    category: Category,
)
    requires
        pos <= bytes.len(),
        covers(laid, bytes, pos as int),
    ensures
        cut(bytes, cut(bytes, pos, start), end) <= bytes.len(),
        covers(
            laid + piece(pos, cut(bytes, pos, start), Category::Plain) + piece(
                cut(bytes, pos, start),
                cut(bytes, cut(bytes, pos, start), end),
                category,
            ),
            bytes,
            cut(bytes, cut(bytes, pos, start), end) as int,
        ),
{
    let from = cut(bytes, pos, start);
    let to = cut(bytes, from, end);
    lemma_covers_piece(laid, bytes, pos, from, Category::Plain);
    lemma_covers_piece(laid + piece(pos, from, Category::Plain), bytes, from, to, category);
}

/// Whatever the events are, their layout goes on from spans that cover
/// `0..pos` to spans that cover the whole document.
pub proof fn lemma_layout_covers(
    bytes: Seq<u8>,
    events: Seq<HighlightEvent>,
    pos: usize,
    stack: Seq<usize>,
    laid: Seq<Span>,
)
    requires
        valid_utf8(bytes),
        bytes.len() <= usize::MAX,
        pos <= bytes.len(),
        covers(laid, bytes, pos as int),
    ensures
        covers(laid + layout_from(bytes, events, pos, stack), bytes, bytes.len() as int),
    decreases events.len(),
{
    if events.len() == 0 {
        is_char_boundary_start_end_of_seq(bytes);
        lemma_covers_piece(laid, bytes, pos, bytes.len() as usize, Category::Plain);
    } else {
        let rest = events.drop_first();
        match events[0] {
            HighlightEvent::Start(index) => {
                lemma_layout_covers(bytes, rest, pos, stack.push(index), laid);
            },
            HighlightEvent::End => {
                lemma_layout_covers(bytes, rest, pos, unwound(stack), laid);
            },
            HighlightEvent::Source { start, end } => {
                let from = cut(bytes, pos, start);
                let to = cut(bytes, from, end);
                let gap = piece(pos, from, Category::Plain);
                let own = piece(from, to, innermost(stack));
                let tail = layout_from(bytes, rest, to, stack);
                lemma_covers_source(laid, bytes, pos, start, end, innermost(stack));
                lemma_layout_covers(bytes, rest, to, stack, laid + gap + own);
                assert(layout_from(bytes, events, pos, stack) == gap + own + tail);
                assert(laid + gap + own + tail =~= laid + (gap + own + tail));
            },
        }
    }
}

/// The round trip: whatever an engine reports of a document, and also where
/// it reports nothing, the fragments of the decoration, read one after the
/// other, are the document.
pub proof fn lemma_decoration_round_trip(
    text: Seq<char>,
    events: Option<Seq<HighlightEvent>>,
    text_color: Color,
)
    requires
        encode_utf8(text).len() <= usize::MAX,
    ensures
        concat_texts(decoration(encode_utf8(text), events, text_color)) == text,
{
    let bytes = encode_utf8(text);
    let events = match events {
        Some(events) => events,
        None => Seq::empty(),
    };
    encode_utf8_valid_utf8(text);
    lemma_covers_nothing(bytes);
    lemma_layout_covers(bytes, events, 0, Seq::empty(), Seq::empty());
    assert(Seq::<Span>::empty() + layout_of(bytes, events) =~= layout_of(bytes, events));
    lemma_round_trip(bytes, layout_of(bytes, events), bytes.len() as int, text_color);
    assert(bytes.subrange(0, bytes.len() as int) =~= bytes);
    encode_utf8_decode_utf8(text);
}

/// Lays the events of an engine over the document as spans that cover it
/// exactly once.
pub fn layout(text: &str, events: &Vec<HighlightEvent>) -> (spans: Vec<Span>)
    ensures
        spans@ == layout_of(text.spec_bytes(), events@),
        covers(spans@, text.spec_bytes(), text.spec_bytes().len() as int),
{
    let ghost bytes = text.spec_bytes();
    let len = byte_len(text);
    let mut spans: Vec<Span> = Vec::new();
    let mut stack: Vec<usize> = Vec::new();
    let mut pos: usize = 0;
    let mut k: usize = 0;
    proof {
        encode_utf8_valid_utf8(text@);
        assert(spans@ + layout_from(bytes, events@.skip(0), pos, stack@) =~= layout_of(
            bytes,
            events@,
        )) by {
            assert(events@.skip(0) =~= events@);
        }
    }
    while k < events.len()
        invariant
            bytes == text.spec_bytes(),
            valid_utf8(bytes),
            len == bytes.len(),
            k <= events.len(),
            pos <= len,
            layout_of(bytes, events@) == spans@ + layout_from(
                bytes,
                events@.skip(k as int),
                pos,
                stack@,
            ),
        decreases events.len() - k,
    {
        let ghost ahead = events@.skip(k as int);
        let ghost laid = spans@;
        let ghost was_stacked = stack@;
        let ghost was_at = pos;
        proof {
            assert(ahead[0] == events@[k as int]);
            assert(ahead.drop_first() =~= events@.skip(k + 1));
        }
        match events[k] {
            HighlightEvent::Start(index) => {
                stack.push(index);
            },
            HighlightEvent::End => {
                let _ = stack.pop();
                assert(stack@ =~= unwound(was_stacked));
            },
            HighlightEvent::Source { start, end } => {
                let from = advance(text, pos, start);
                push_piece(&mut spans, pos, from, Category::Plain);
                let to = advance(text, from, end);
                let category = innermost_of(&stack);
                push_piece(&mut spans, from, to, category);
                pos = to;
                assert(spans@ + layout_from(bytes, events@.skip(k + 1), pos, stack@) =~= laid + (
                piece(was_at, from, Category::Plain) + piece(from, to, category) + layout_from(
                    bytes,
                    events@.skip(k + 1),
                    to,
                    stack@,
                )));
            },
        }
        k += 1;
    }
    proof {
        assert(events@.skip(k as int) =~= Seq::<HighlightEvent>::empty());
        lemma_covers_nothing(bytes);
        lemma_layout_covers(bytes, events@, 0, Seq::empty(), Seq::empty());
        assert(Seq::<Span>::empty() + layout_of(bytes, events@) =~= layout_of(bytes, events@));
    }
    push_piece(&mut spans, pos, len, Category::Plain);
    spans
}

/// The bytes `start..end` of a text, as text.
fn slice<'a>(text: &'a str, start: usize, end: usize) -> (part: &'a str)
    requires
        start <= end <= text.spec_bytes().len(),
        is_char_boundary(text.spec_bytes(), start as int),
        is_char_boundary(text.spec_bytes(), end as int),
    ensures
        part@ == decode_utf8(text.spec_bytes().subrange(start as int, end as int)),
{
    let ghost bytes = text.spec_bytes();
    proof {
        encode_utf8_valid_utf8(text@);
    }
    let (_, tail) = text.split_at(start);
    proof {
        lemma_boundary_in_suffix(bytes, start as int, end as int);
    }
    let (part, _) = tail.split_at(end - start);
    proof {
        assert(part.spec_bytes() =~= bytes.subrange(start as int, end as int));
        encode_utf8_decode_utf8(part@);
    }
    part
}

/// Cuts the text along spans that cover it, and gives each piece the colour
/// of its category.
pub fn render(text: &str, spans: &Vec<Span>, text_color: Color) -> (fragments: Vec<Fragment>)
    requires
        covers(spans@, text.spec_bytes(), text.spec_bytes().len() as int),
    ensures
        fragments.deep_view() == fragments_of(text.spec_bytes(), spans@, text_color),
        concat_texts(fragments.deep_view()) == text@,
{
    let ghost bytes = text.spec_bytes();
    let mut fragments: Vec<Fragment> = Vec::new();
    let mut i: usize = 0;
    while i < spans.len()
        invariant
            bytes == text.spec_bytes(),
            covers(spans@, bytes, bytes.len() as int),
            i <= spans.len(),
            fragments.len() == i,
            forall|j: int|
                0 <= j < i ==> (#[trigger] fragments[j])@ == fragment_of(
                    bytes,
                    spans[j],
                    text_color,
                ),
        decreases spans.len() - i,
    {
        let span = spans[i];
        proof {
            reveal(covers);
            encode_utf8_valid_utf8(text@);
            is_char_boundary_start_end_of_seq(bytes);
            if i > 0 {
                assert(is_char_boundary(bytes, spans[i - 1].end as int));
            }
        }
        let part = slice(text, span.start, span.end);
        let color = span.category.color(text_color);
        fragments.push(Fragment { color, text: String::from_str(part) });
        i += 1;
    }
    proof {
        assert(fragments.deep_view() =~= fragments_of(bytes, spans@, text_color));
        encode_utf8_valid_utf8(text@);
        lemma_round_trip(bytes, spans@, bytes.len() as int, text_color);
        assert(bytes.subrange(0, bytes.len() as int) =~= bytes);
        encode_utf8_decode_utf8(text@);
    }
    fragments
}

/// Decorates a document with what an engine reported of it: with events, the
/// fragments of their layout; with none, because the engine failed, the
/// document as plain text. Either way the fragments, read one after the
/// other, are the document.
pub fn decorate(text: &str, events: Option<Vec<HighlightEvent>>, text_color: Color) -> (fragments:
    Vec<Fragment>)
    ensures
        fragments.deep_view() == decoration(text.spec_bytes(), events.deep_view(), text_color),
        concat_texts(fragments.deep_view()) == text@,
{
    let events = match events {
        Some(events) => {
            assert(events.deep_view() =~= events@);
            events
        },
        None => Vec::new(),
    };
    let spans = layout(text, &events);
    render(text, &spans, text_color)
}

} // verus!
