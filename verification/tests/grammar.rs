use rbeditor::appearance::Color;
use rbeditor::grammar::{category_names, failure_of, outcome_of, EngineError, HighlightEngine};
use rbeditor::highlight::{decorate, Category, Fragment, HighlightEvent};

const INK: Color = Color { r: 0, g: 0, b: 0, a: 255 };

fn engine() -> HighlightEngine {
    match HighlightEngine::new() {
        Ok(engine) => engine,
        Err(error) => panic!("no engine: {:?}", error),
    }
}

fn joined(fragments: &[Fragment]) -> String {
    let mut all = String::new();
    for fragment in fragments {
        all.push_str(&fragment.text);
    }
    all
}

#[test]
fn names_stand_at_the_index_of_their_category() {
    let names = category_names();
    assert_eq!(
        names,
        vec![
            "attribute", "comment", "constant", "constructor", "escape", "function", "keyword",
            "label", "operator", "property", "punctuation", "string", "type", "variable",
        ]
    );
    assert_eq!(Category::of_index(names.iter().position(|name| name == "keyword").unwrap()), Category::Keyword);
    assert_eq!(Category::of_index(names.iter().position(|name| name == "string").unwrap()), Category::Text);
}

#[test]
fn engine_can_be_made() {
    assert!(HighlightEngine::new().is_ok());
}

#[test]
fn no_failure_where_both_steps_went_well() {
    assert_eq!(failure_of::<(), (), (), ()>(&Ok(()), &Ok(())), None);
    assert_eq!(failure_of::<u8, (), String, ()>(&Ok(1), &Ok(String::from("query"))), None);
}

#[test]
fn grammar_that_was_not_assigned_is_a_grammar_error() {
    assert_eq!(failure_of::<(), (), (), ()>(&Err(()), &Ok(())), Some(EngineError::Grammar));
}

#[test]
fn query_that_did_not_compile_is_a_query_error() {
    assert_eq!(failure_of::<(), (), (), ()>(&Ok(()), &Err(())), Some(EngineError::Query));
    assert_eq!(failure_of::<(), (), (), u8>(&Ok(()), &Err(7)), Some(EngineError::Query));
}

#[test]
fn grammar_error_comes_before_query_error() {
    assert_eq!(failure_of::<(), (), (), ()>(&Err(()), &Err(())), Some(EngineError::Grammar));
}

#[test]
fn outcome_needs_both_steps() {
    let events = vec![HighlightEvent::Source { start: 0, end: 1 }];
    assert_eq!(outcome_of::<(), ()>(Some(()), Ok(events.clone())), Some(events.clone()));
    assert_eq!(outcome_of::<(), ()>(None, Ok(events.clone())), None);
    assert_eq!(outcome_of::<(), ()>(Some(()), Err(())), None);
    assert_eq!(outcome_of::<(), ()>(None, Err(())), None);
}

#[test]
fn empty_text_has_no_events() {
    let mut engine = engine();
    assert_eq!(engine.events(""), Some(vec![]));
}

#[test]
fn events_mark_the_keyword_and_the_function_name() {
    let mut engine = engine();
    let events = engine.events("fn main() {}").unwrap();
    let keyword = events.iter().position(|event| *event == HighlightEvent::Start(6)).unwrap();
    assert_eq!(events[keyword + 1], HighlightEvent::Source { start: 0, end: 2 });
    assert_eq!(events[keyword + 2], HighlightEvent::End);
    let function = events.iter().position(|event| *event == HighlightEvent::Start(5)).unwrap();
    assert_eq!(events[function + 1], HighlightEvent::Source { start: 3, end: 7 });
    assert_eq!(events[function + 2], HighlightEvent::End);
}

#[test]
fn source_events_run_through_the_text() {
    let mut engine = engine();
    let text = "// note\nlet s = \"é日本\";\nstruct Point { x: u32 }\n";
    let events = engine.events(text).unwrap();
    let mut at = 0;
    let mut depth = 0usize;
    for event in &events {
        match event {
            HighlightEvent::Source { start, end } => {
                assert_eq!(*start, at);
                assert!(start < end);
                at = *end;
            }
            HighlightEvent::Start(index) => {
                assert!(*index < 14);
                depth += 1;
            }
            HighlightEvent::End => {
                assert!(depth > 0);
                depth -= 1;
            }
        }
    }
    assert_eq!(at, text.len());
    assert_eq!(depth, 0);
}

#[test]
fn engine_is_reusable_and_repeats_itself() {
    let mut engine = engine();
    let first = engine.events("fn a() {}");
    let other = engine.events("let b = 2;");
    let again = engine.events("fn a() {}");
    assert!(first.is_some());
    assert_eq!(first, again);
    assert_ne!(first, other);
    let mut second = self::engine();
    assert_eq!(second.events("fn a() {}"), first);
}

#[test]
fn text_that_is_no_rust_still_has_events() {
    let mut engine = engine();
    let text = "this is }{ not (( rust at all \u{1F642}";
    let events = engine.events(text);
    assert!(events.is_some());
    assert_eq!(joined(&decorate(text, events, INK)), text);
}

#[test]
fn decoration_of_rust_source_has_the_colours_of_the_table() {
    let mut engine = engine();
    let text = "fn main() { let s = \"hi\"; } // done\n";
    let fragments = decorate(text, engine.events(text), INK);
    assert_eq!(joined(&fragments), text);
    let colour_of = |piece: &str| {
        fragments.iter().find(|fragment| fragment.text == piece).map(|fragment| fragment.color)
    };
    assert_eq!(colour_of("fn"), Some(Category::Keyword.color(INK)));
    assert_eq!(colour_of("main"), Some(Category::Function.color(INK)));
    assert_eq!(colour_of("let"), Some(Category::Keyword.color(INK)));
    assert_eq!(colour_of("\"hi\""), Some(Category::Text.color(INK)));
    assert_eq!(colour_of("// done"), Some(Category::Comment.color(INK)));
    assert_eq!(colour_of(" "), Some(Category::Plain.color(INK)));
}
