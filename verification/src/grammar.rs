//! The grammar engine: tree-sitter with the Rust grammar, asked for the
//! highlight events of a text.
//!
//! What the engine computes is not verified here. Its answers are given
//! names, [`grammar_parses`] and [`grammar_events`], and the functions of
//! this module say exactly how they use them. Every engine is made by
//! [`HighlightEngine::new`], which assigns the Rust grammar, compiles its
//! highlight query and configures the recognised names; it sets no timeout
//! and no cancellation flag. The names stand for the answers of such an
//! engine.

use vstd::prelude::*;
use vstd::string::*;
use crate::highlight::{Category, HighlightEvent, CATEGORY_COUNT};

verus! {

/// The grammar handle of tree-sitter.
#[verifier::external_type_specification]
#[verifier::external_body]
pub struct ExLanguage(tree_sitter::Language);

/// The parser of tree-sitter.
#[verifier::external_type_specification]
#[verifier::external_body]
pub struct ExParser(tree_sitter::Parser);

/// A syntax tree of tree-sitter.
#[verifier::external_type_specification]
#[verifier::external_body]
pub struct ExTree(tree_sitter::Tree);

/// The error of assigning a grammar that the parser cannot run.
#[verifier::external_type_specification]
#[verifier::external_body]
pub struct ExLanguageError(tree_sitter::LanguageError);

/// The error of compiling a query.
#[verifier::external_type_specification]
#[verifier::external_body]
pub struct ExQueryError(tree_sitter::QueryError);

/// The highlighter of tree-sitter-highlight.
#[verifier::external_type_specification]
#[verifier::external_body]
pub struct ExHighlighter(tree_sitter_highlight::Highlighter);

/// A grammar with its compiled highlight query.
#[verifier::external_type_specification]
#[verifier::external_body]
pub struct ExHighlightConfiguration(tree_sitter_highlight::HighlightConfiguration);

/// The error of a highlighting pass.
#[verifier::external_type_specification]
#[verifier::external_body]
pub struct ExHighlightError(tree_sitter_highlight::Error);

/// Whether the engine's parser returns a tree for the source.
pub uninterp spec fn grammar_parses(source: Seq<u8>) -> bool;

/// The events of the engine's highlighting pass over the source, when it
/// recognises the names `names`; `None` where the pass fails.
pub uninterp spec fn grammar_events(names: Seq<Seq<char>>, source: Seq<u8>) -> Option<
    Seq<HighlightEvent>,
>;

/// `tree_sitter_rust::language`: the Rust grammar. Nothing is claimed of it.
pub assume_specification[ tree_sitter_rust::language ]() -> (language: tree_sitter::Language)
;

/// `Parser::new`: a parser without a grammar. Nothing is claimed of it.
pub assume_specification[ tree_sitter::Parser::new ]() -> (parser: tree_sitter::Parser)
;

/// `Parser::set_language`: assigns a grammar, or refuses one of a version
/// that the parser cannot run. Nothing is claimed of the outcome.
pub assume_specification[ tree_sitter::Parser::set_language ](
    parser: &mut tree_sitter::Parser,
    language: tree_sitter::Language,
) -> (assigned: Result<(), tree_sitter::LanguageError>)
;

/// `Highlighter::new`: a highlighter. Nothing is claimed of it.
pub assume_specification[ tree_sitter_highlight::Highlighter::new ]() -> (highlighter:
    tree_sitter_highlight::Highlighter)
;

/// `HighlightConfiguration::new`, with the highlight query that the Rust
/// grammar ships and neither injections nor locals. Nothing is claimed of
/// the outcome.
#[verifier::external_body]
fn rust_configuration(language: tree_sitter::Language) -> (configuration: Result<
    tree_sitter_highlight::HighlightConfiguration,
    tree_sitter::QueryError,
>) {
    tree_sitter_highlight::HighlightConfiguration::new(
        language,
        tree_sitter_rust::HIGHLIGHT_QUERY,
        "",
        "",
    )
}

/// `HighlightConfiguration::configure`: sets the names whose indices the
/// events of later passes carry. It returns nothing, and nothing is claimed
/// of the configuration.
#[verifier::external_body]
fn configure(
    configuration: &mut tree_sitter_highlight::HighlightConfiguration,
    names: &Vec<String>,
) {
    configuration.configure(names.as_slice())
}

/// `Parser::parse`, without an earlier tree. The contract names the answer:
/// whether a tree came back for this source.
#[verifier::external_body]
fn parse(engine: &mut HighlightEngine, text: &str) -> (tree: Option<tree_sitter::Tree>)
    ensures
        tree.is_some() == grammar_parses(text.spec_bytes()),
        final(engine)@ == old(engine)@,
{
    engine.parser.parse(text, None)
}

/// `Highlighter::highlight`, without a cancellation flag and with no
/// injected grammars, and the events of the iterator it returns, each as the
/// library's own event. The contract names the answer: the events of a pass
/// that ran through, and no events where the pass or one of its steps
/// failed.
#[verifier::external_body]
fn highlight(engine: &mut HighlightEngine, text: &str) -> (events: Result<
    Vec<HighlightEvent>,
    tree_sitter_highlight::Error,
>)
    ensures
        match events {
            Ok(events) => grammar_events(old(engine)@, text.spec_bytes()) == Some(events@),
            Err(_) => grammar_events(old(engine)@, text.spec_bytes()).is_none(),
        },
        final(engine)@ == old(engine)@,
{
    let pass = engine.highlighter.highlight(&engine.configuration, text.as_bytes(), None, |_| None)?;
    pass.map(|step| match step? {
        tree_sitter_highlight::HighlightEvent::Source { start, end } => Ok(
            HighlightEvent::Source { start, end },
        ),
        tree_sitter_highlight::HighlightEvent::HighlightStart(highlight) => Ok(
            HighlightEvent::Start(highlight.0),
        ),
        tree_sitter_highlight::HighlightEvent::HighlightEnd => Ok(HighlightEvent::End),
    }).collect()
}

/// Why no engine could be made.
#[derive(Clone, Copy, Debug, PartialEq, Eq, Structural)]
pub enum EngineError {
    /// The parser cannot run the Rust grammar that was built in.
    Grammar,
    /// The highlight query of the Rust grammar did not compile.
    Query,
}

/// A parser and a highlighter for Rust source, and the names of the
/// categories that the highlighter recognises.
pub struct HighlightEngine {
    parser: tree_sitter::Parser,
    highlighter: tree_sitter_highlight::Highlighter,
    configuration: tree_sitter_highlight::HighlightConfiguration,
    names: Vec<String>,
}

impl View for HighlightEngine {
    type V = Seq<Seq<char>>;

    closed spec fn view(&self) -> Seq<Seq<char>> {
        self.names.deep_view()
    }
}

impl Category {
    /// The name under which a highlight query captures the category; `Plain`
    /// has none.
    pub open spec fn name(self) -> Seq<char> {
        match self {
            Category::Plain => Seq::empty(),
            Category::Attribute => "attribute"@,
            Category::Comment => "comment"@,
            Category::Constant => "constant"@,
            Category::Constructor => "constructor"@,
            Category::Escape => "escape"@,
            Category::Function => "function"@,
            Category::Keyword => "keyword"@,
            Category::Label => "label"@,
            Category::Operator => "operator"@,
            Category::Property => "property"@,
            Category::Punctuation => "punctuation"@,
            Category::Text => "string"@,
            Category::Type => "type"@,
            Category::Variable => "variable"@,
        }
    }
}

/// The names that an engine is asked to recognise: at each index the name of
/// the category that the index stands for.
pub open spec fn recognized_names() -> Seq<Seq<char>> {
    Seq::new(CATEGORY_COUNT as nat, |i: int| Category::spec_of_index(i as usize).name())
}

/// The names that an engine is asked to recognise.
pub fn category_names() -> (names: Vec<String>)
    ensures
        names.deep_view() == recognized_names(),
{
    let mut names: Vec<String> = Vec::new();
    names.push(String::from_str("attribute"));
    names.push(String::from_str("comment"));
    names.push(String::from_str("constant"));
    names.push(String::from_str("constructor"));
    names.push(String::from_str("escape"));
    names.push(String::from_str("function"));
    names.push(String::from_str("keyword"));
    names.push(String::from_str("label"));
    names.push(String::from_str("operator"));
    names.push(String::from_str("property"));
    names.push(String::from_str("punctuation"));
    names.push(String::from_str("string"));
    names.push(String::from_str("type"));
    names.push(String::from_str("variable"));
    assert(names.deep_view() =~= recognized_names());
    names
}

/// What an engine reports of a source: the events of its highlighting pass
/// where both the parse and the pass succeed, and nothing where one fails.
pub open spec fn analysis(names: Seq<Seq<char>>, source: Seq<u8>) -> Option<Seq<HighlightEvent>> {
    if grammar_parses(source) {
        grammar_events(names, source)
    } else {
        None
    }
}

/// What an engine reports, from the outcomes of its two steps.
pub fn outcome_of<T, E>(tree: Option<T>, events: Result<Vec<HighlightEvent>, E>) -> (outcome:
    Option<Vec<HighlightEvent>>)
    ensures
        outcome.deep_view() == match (tree, events) {
            (Some(_), Ok(events)) => Some(events@),
            _ => None,
        },
{
    match (tree, events) {
        (Some(_), Ok(events)) => {
            assert(events.deep_view() =~= events@);
            Some(events)
        },
        _ => None,
    }
}

/// Why no engine can be made, when the grammar was or was not assigned to
/// the parser and its query did or did not compile: a grammar that was not
/// assigned comes first, a query that did not compile second, and there is
/// no reason where both went well.
pub open spec fn failure(assigned: bool, compiled: bool) -> Option<EngineError> {
    if !assigned {
        Some(EngineError::Grammar)
    } else if !compiled {
        Some(EngineError::Query)
    } else {
        None
    }
}

/// Why no engine can be made, from the outcomes of assigning the grammar and
/// of compiling its query.
pub fn failure_of<A, B, C, D>(assigned: &Result<A, B>, configuration: &Result<C, D>) -> (error:
    Option<EngineError>)
    ensures
        error == failure(assigned.is_ok(), configuration.is_ok()),
{
    if assigned.is_err() {
        Some(EngineError::Grammar)
    } else if configuration.is_err() {
        Some(EngineError::Query)
    } else {
        None
    }
}

impl HighlightEngine {
    /// An engine for Rust source that recognises the categories of this
    /// library. Whether one can be made is for the grammar and the parser
    /// to say: see [`failure`] for the error that each outcome gives.
    pub fn new() -> (engine: Result<HighlightEngine, EngineError>)
        ensures
            engine matches Ok(engine) ==> engine@ == recognized_names(),
    {
        let language = tree_sitter_rust::language();
        let mut parser = tree_sitter::Parser::new();
        let assigned = parser.set_language(language);
        let configuration = rust_configuration(language);
        HighlightEngine::assemble(parser, assigned, configuration)
    }

    /// The engine, from the outcomes of assigning the grammar and of
    /// compiling its query: an engine where both went well, and else the
    /// error that [`failure`] gives.
    fn assemble(
        parser: tree_sitter::Parser,
        assigned: Result<(), tree_sitter::LanguageError>,
        configuration: Result<
            tree_sitter_highlight::HighlightConfiguration,
            tree_sitter::QueryError,
        >,
    ) -> (engine: Result<HighlightEngine, EngineError>)
        ensures
            match failure(assigned.is_ok(), configuration.is_ok()) {
                Some(error) => engine == Err::<HighlightEngine, EngineError>(error),
                None => engine matches Ok(engine) && engine@ == recognized_names(),
            },
    {
        if let Some(error) = failure_of(&assigned, &configuration) {
            return Err(error);
        }
        match configuration {
            Ok(mut configuration) => {
                let names = category_names();
                configure(&mut configuration, &names);
                Ok(
                    HighlightEngine {
                        parser,
                        highlighter: tree_sitter_highlight::Highlighter::new(),
                        configuration,
                        names,
                    },
                )
            },
            Err(_) => unreached(),
        }
    }

    /// Parses the text and runs the highlighting pass over it. Returns the
    /// events of the pass, or `None` where the parse or the pass failed.
    pub fn events(&mut self, text: &str) -> (events: Option<Vec<HighlightEvent>>)
        ensures
            events.deep_view() == analysis(old(self)@, text.spec_bytes()),
            final(self)@ == old(self)@,
    {
        let tree = parse(self, text);
        if tree.is_none() {
            return None;
        }
        let events = highlight(self, text);
        outcome_of(tree, events)
    }
}

} // verus!
