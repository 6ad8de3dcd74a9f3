use rbeditor::appearance::Color;
use rbeditor::highlight::{
    byte_len, decorate, layout, render, Category, Fragment, HighlightEvent, Span, CATEGORY_COUNT,
};

const INK: Color = Color { r: 9, g: 8, b: 7, a: 255 };

fn span(start: usize, end: usize, category: Category) -> Span {
    Span { start, end, category }
}

fn fragment(color: Color, text: &str) -> Fragment {
    Fragment { color, text: String::from(text) }
}

fn joined(fragments: &[Fragment]) -> String {
    let mut all = String::new();
    for fragment in fragments {
        all.push_str(&fragment.text);
    }
    all
}

#[test]
fn category_indices_follow_the_table() {
    let expected = [
        Category::Attribute,
        Category::Comment,
        Category::Constant,
        Category::Constructor,
        Category::Escape,
        Category::Function,
        Category::Keyword,
        Category::Label,
        Category::Operator,
        Category::Property,
        Category::Punctuation,
        Category::Text,
        Category::Type,
        Category::Variable,
    ];
    assert_eq!(expected.len(), CATEGORY_COUNT);
    for (index, category) in expected.iter().enumerate() {
        assert_eq!(Category::of_index(index), *category);
    }
}

#[test]
fn index_outside_the_table_is_plain() {
    assert_eq!(Category::of_index(14), Category::Plain);
    assert_eq!(Category::of_index(usize::MAX), Category::Plain);
}

#[test]
fn plain_text_has_the_configured_colour() {
    assert_eq!(Category::Plain.color(INK), INK);
    assert_eq!(Category::Plain.color(Color::rgb(200, 100, 50)), Color::rgb(200, 100, 50));
}

#[test]
fn categories_have_fixed_colours() {
    assert_eq!(Category::Keyword.color(INK), Color::rgb(215, 58, 73));
    assert_eq!(Category::Comment.color(INK), Color::rgb(106, 115, 125));
    assert_eq!(Category::Text.color(INK), Color::rgb(3, 47, 98));
    assert_eq!(Category::Function.color(INK), Color::rgb(111, 66, 193));
    assert_eq!(Category::Keyword.color(Color::rgb(1, 1, 1)), Color::rgb(215, 58, 73));
}

#[test]
fn categories_have_distinct_colours() {
    let mut colours = Vec::new();
    for index in 0..CATEGORY_COUNT {
        let colour = Category::of_index(index).color(INK);
        assert!(!colours.contains(&colour));
        assert_ne!(colour, INK);
        colours.push(colour);
    }
}

#[test]
fn byte_len_counts_bytes() {
    assert_eq!(byte_len(""), 0);
    assert_eq!(byte_len("abc"), 3);
    assert_eq!(byte_len("é"), 2);
    assert_eq!(byte_len("日本"), 6);
}

#[test]
fn layout_without_events_is_one_plain_span() {
    assert_eq!(layout("hello", &vec![]), vec![span(0, 5, Category::Plain)]);
}

#[test]
fn layout_of_an_empty_document_is_empty() {
    assert_eq!(layout("", &vec![]), vec![]);
    let events = vec![HighlightEvent::Start(6), HighlightEvent::Source { start: 0, end: 0 }, HighlightEvent::End];
    assert_eq!(layout("", &events), vec![]);
}

#[test]
fn layout_follows_the_events() {
    let events = vec![
        HighlightEvent::Start(6),
        HighlightEvent::Source { start: 0, end: 2 },
        HighlightEvent::End,
        HighlightEvent::Source { start: 2, end: 3 },
        HighlightEvent::Start(5),
        HighlightEvent::Source { start: 3, end: 7 },
        HighlightEvent::End,
        HighlightEvent::Source { start: 7, end: 12 },
    ];
    assert_eq!(
        layout("fn main() {}", &events),
        vec![
            span(0, 2, Category::Keyword),
            span(2, 3, Category::Plain),
            span(3, 7, Category::Function),
            span(7, 12, Category::Plain),
        ]
    );
}

#[test]
fn innermost_highlight_wins() {
    let events = vec![
        HighlightEvent::Start(1),
        HighlightEvent::Source { start: 0, end: 1 },
        HighlightEvent::Start(11),
        HighlightEvent::Source { start: 1, end: 2 },
        HighlightEvent::End,
        HighlightEvent::Source { start: 2, end: 3 },
        HighlightEvent::End,
        HighlightEvent::Source { start: 3, end: 4 },
    ];
    assert_eq!(
        layout("abcd", &events),
        vec![
            span(0, 1, Category::Comment),
            span(1, 2, Category::Text),
            span(2, 3, Category::Comment),
            span(3, 4, Category::Plain),
        ]
    );
}

#[test]
fn what_no_event_reaches_is_plain() {
    let events = vec![HighlightEvent::Start(6), HighlightEvent::Source { start: 0, end: 2 }];
    assert_eq!(
        layout("fn x", &events),
        vec![span(0, 2, Category::Keyword), span(2, 4, Category::Plain)]
    );
}

#[test]
fn gap_before_an_event_is_plain() {
    let events = vec![HighlightEvent::Start(12), HighlightEvent::Source { start: 3, end: 5 }];
    assert_eq!(
        layout("ab cd ef", &events),
        vec![span(0, 3, Category::Plain), span(3, 5, Category::Type), span(5, 8, Category::Plain)]
    );
}

#[test]
fn event_behind_the_layout_moves_nothing() {
    let events = vec![
        HighlightEvent::Source { start: 0, end: 4 },
        HighlightEvent::Start(6),
        HighlightEvent::Source { start: 1, end: 3 },
        HighlightEvent::Source { start: 2, end: 4 },
        HighlightEvent::End,
    ];
    assert_eq!(
        layout("abcdef", &events),
        vec![span(0, 4, Category::Plain), span(4, 6, Category::Plain)]
    );
}

#[test]
fn event_that_overlaps_the_layout_is_cut() {
    let events = vec![
        HighlightEvent::Source { start: 0, end: 3 },
        HighlightEvent::Start(6),
        HighlightEvent::Source { start: 1, end: 5 },
    ];
    assert_eq!(
        layout("abcdef", &events),
        vec![span(0, 3, Category::Plain), span(3, 5, Category::Keyword), span(5, 6, Category::Plain)]
    );
}

#[test]
fn event_outside_the_document_moves_nothing() {
    let events = vec![
        HighlightEvent::Start(6),
        HighlightEvent::Source { start: 0, end: 99 },
        HighlightEvent::Source { start: 50, end: 60 },
        HighlightEvent::Source { start: usize::MAX, end: usize::MAX },
    ];
    assert_eq!(layout("abc", &events), vec![span(0, 3, Category::Plain)]);
}

#[test]
fn event_inside_a_character_moves_nothing() {
    // "é" takes the bytes 1..3
    let events = vec![
        HighlightEvent::Start(6),
        HighlightEvent::Source { start: 0, end: 2 },
        HighlightEvent::End,
        HighlightEvent::Start(1),
        HighlightEvent::Source { start: 2, end: 4 },
    ];
    assert_eq!(layout("aéb", &events), vec![span(0, 4, Category::Comment)]);
}

#[test]
fn event_that_starts_inside_a_character_is_cut_at_the_layout() {
    let events = vec![HighlightEvent::Start(6), HighlightEvent::Source { start: 2, end: 3 }];
    assert_eq!(
        layout("aéb", &events),
        vec![span(0, 3, Category::Keyword), span(3, 4, Category::Plain)]
    );
}

#[test]
fn end_without_a_start_is_ignored() {
    let events = vec![
        HighlightEvent::End,
        HighlightEvent::End,
        HighlightEvent::Source { start: 0, end: 1 },
        HighlightEvent::Start(6),
        HighlightEvent::End,
        HighlightEvent::End,
        HighlightEvent::Source { start: 1, end: 2 },
    ];
    assert_eq!(
        layout("ab", &events),
        vec![span(0, 1, Category::Plain), span(1, 2, Category::Plain)]
    );
}

#[test]
fn unknown_highlight_is_plain() {
    let events = vec![HighlightEvent::Start(14), HighlightEvent::Source { start: 0, end: 2 }];
    assert_eq!(layout("ab", &events), vec![span(0, 2, Category::Plain)]);
}

#[test]
fn empty_source_events_leave_no_span_of_their_own() {
    let events = vec![
        HighlightEvent::Start(6),
        HighlightEvent::Source { start: 0, end: 0 },
        HighlightEvent::Source { start: 1, end: 1 },
        HighlightEvent::Source { start: 2, end: 2 },
    ];
    assert_eq!(
        layout("ab", &events),
        vec![span(0, 1, Category::Plain), span(1, 2, Category::Plain)]
    );
}

#[test]
fn render_cuts_the_text_along_the_spans() {
    let spans = vec![
        span(0, 2, Category::Keyword),
        span(2, 3, Category::Plain),
        span(3, 7, Category::Function),
        span(7, 12, Category::Plain),
    ];
    assert_eq!(
        render("fn main() {}", &spans, INK),
        vec![
            fragment(Color::rgb(215, 58, 73), "fn"),
            fragment(INK, " "),
            fragment(Color::rgb(111, 66, 193), "main"),
            fragment(INK, "() {}"),
        ]
    );
}

#[test]
fn render_of_no_spans_is_empty() {
    assert_eq!(render("", &vec![], INK), vec![]);
}

#[test]
fn render_keeps_characters_whole() {
    let spans = vec![span(0, 3, Category::Text), span(3, 9, Category::Comment)];
    assert_eq!(
        render("aé日本", &spans, INK),
        vec![fragment(Color::rgb(3, 47, 98), "aé"), fragment(Color::rgb(106, 115, 125), "日本")]
    );
}

#[test]
fn decorate_without_events_is_plain_text() {
    assert_eq!(decorate("let x = 1;\n", None, INK), vec![fragment(INK, "let x = 1;\n")]);
}

#[test]
fn decorate_of_an_empty_document_is_empty() {
    assert_eq!(decorate("", None, INK), vec![]);
    assert_eq!(decorate("", Some(vec![]), INK), vec![]);
}

#[test]
fn decorate_colours_by_category() {
    let events = vec![
        HighlightEvent::Start(6),
        HighlightEvent::Source { start: 0, end: 3 },
        HighlightEvent::End,
        HighlightEvent::Source { start: 3, end: 8 },
        HighlightEvent::Start(2),
        HighlightEvent::Source { start: 8, end: 9 },
        HighlightEvent::End,
        HighlightEvent::Source { start: 9, end: 10 },
    ];
    assert_eq!(
        decorate("let x = 1;", Some(events), INK),
        vec![
            fragment(Color::rgb(215, 58, 73), "let"),
            fragment(INK, " x = "),
            fragment(Color::rgb(0, 92, 197), "1"),
            fragment(INK, ";"),
        ]
    );
}

#[test]
fn decorate_reconstructs_the_document() {
    let text = "fn é() { \"日本\" } // ok\n";
    let len = text.len();
    let event_lists = vec![
        vec![],
        vec![HighlightEvent::Source { start: 0, end: len }],
        vec![HighlightEvent::Start(6), HighlightEvent::Source { start: 0, end: 2 }, HighlightEvent::End],
        vec![
            HighlightEvent::Source { start: 5, end: 9 },
            HighlightEvent::Start(3),
            HighlightEvent::Source { start: 4, end: 4 },
            HighlightEvent::Source { start: 2, end: 30 },
            HighlightEvent::End,
            HighlightEvent::End,
            HighlightEvent::Source { start: 12, end: 11 },
            HighlightEvent::Start(99),
            HighlightEvent::Source { start: 13, end: len + 1 },
            HighlightEvent::Source { start: 14, end: len },
        ],
    ];
    for events in event_lists {
        let fragments = decorate(text, Some(events), INK);
        assert_eq!(joined(&fragments), text);
        assert!(fragments.iter().all(|fragment| !fragment.text.is_empty()));
    }
    assert_eq!(joined(&decorate(text, None, INK)), text);
}

#[test]
fn decorate_reconstructs_the_document_for_every_cut() {
    let text = "aé日🙂z";
    for start in 0..=text.len() + 1 {
        for end in 0..=text.len() + 1 {
            let events = vec![
                HighlightEvent::Start(1),
                HighlightEvent::Source { start, end },
                HighlightEvent::End,
                HighlightEvent::Source { start: end, end: text.len() },
            ];
            let spans = layout(text, &events);
            let mut at = 0;
            for span in &spans {
                assert_eq!(span.start, at);
                assert!(span.start < span.end);
                assert!(text.is_char_boundary(span.end));
                at = span.end;
            }
            assert_eq!(at, text.len());
            assert_eq!(joined(&decorate(text, Some(events), INK)), text);
        }
    }
}
