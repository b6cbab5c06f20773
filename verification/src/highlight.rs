//! Turning a line of code into styled text: either as it is, or with the
//! styles of its tokens as a syntax-highlighting engine finds them.

use tree_sitter_highlight::HighlightEvent;
use vstd::prelude::*;
use vstd::slice::slice_subrange;
use vstd::utf8::{decode_utf8, valid_utf8};

use crate::style::{
    category, category_names, category_of, recognized_names, style_end, style_end_of, style_of,
    style_start, Backend, Category,
};

verus! {

/// `tree_sitter_highlight::HighlightConfiguration`: a grammar with its
/// highlighting query. It is carried through; nothing is known of what it
/// holds.
#[verifier::external_type_specification]
#[verifier::external_body]
pub struct ExHighlightConfiguration(tree_sitter_highlight::HighlightConfiguration);

/// `tree_sitter_highlight::Error`: why the engine gave up. It is carried
/// through; nothing is known of what it holds.
#[verifier::external_type_specification]
#[verifier::external_body]
pub struct ExEngineError(tree_sitter_highlight::Error);

/// `tree_sitter::QueryError`: why a query was refused. It is carried
/// through; nothing is known of what it holds.
#[verifier::external_type_specification]
#[verifier::external_body]
pub struct ExQueryError(tree_sitter::QueryError);

/// Why a line could not be highlighted.
#[derive(Debug)]
pub enum HighlightError {
    /// The grammar and its highlighting query do not fit together.
    Config(tree_sitter::QueryError),
    /// The engine gave up on a line.
    Engine(tree_sitter_highlight::Error),
    /// The engine reported a stretch of text that lies outside the line.
    Span,
}

impl HighlightError {
    /// What went wrong, in a sentence.
    pub open spec fn description(&self) -> Seq<char> {
        match self {
            HighlightError::Config(_) => "failed to set up source code highlighting"@,
            HighlightError::Engine(_) => "failed to highlight source code line"@,
            HighlightError::Span => "highlighted text lies outside of its source code line"@,
        }
    }

    /// Says what went wrong.
    pub fn describe(&self) -> (text: String)
        ensures
            text@ == self.description(),
    {
        match self {
            HighlightError::Config(_) => String::from_str(
                "failed to set up source code highlighting",
            ),
            HighlightError::Engine(_) => String::from_str("failed to highlight source code line"),
            HighlightError::Span => String::from_str(
                "highlighted text lies outside of its source code line",
            ),
        }
    }
}

/// One step in the styled rendering of a line.
#[derive(Clone, Copy, Debug, PartialEq, Eq)]
pub enum SyntaxEvent {
    /// The bytes from `start` to `end` of the line come next.
    Source { start: usize, end: usize },
    /// A token starts, with the style whose number is given.
    Start(usize),
    /// The token that started last ends.
    End,
}

/// The text that `String::from_utf8_lossy` decodes bytes to: their text,
/// with each invalid sequence replaced by the replacement character U+FFFD.
pub uninterp spec fn lossy_text(bytes: Seq<u8>) -> Seq<char>;

/// What `tree_sitter_highlight::HighlightConfiguration::new` answers for
/// the grammar of BPF C and its highlighting query, under a language name,
/// an injection query and a locals query.
pub uninterp spec fn config_answer(name: Seq<char>, injections: Seq<char>, locals: Seq<char>) -> Result<
    tree_sitter_highlight::HighlightConfiguration,
    tree_sitter::QueryError,
>;

/// The configuration that `HighlightConfiguration::configure` leaves when it
/// is told the names of the styles.
pub uninterp spec fn configured(
    before: tree_sitter_highlight::HighlightConfiguration,
    names: Seq<Seq<char>>,
) -> tree_sitter_highlight::HighlightConfiguration;

/// The names of the captures of the query of a configuration, as
/// `HighlightConfiguration::names` lists them.
pub uninterp spec fn capture_texts(
    config: tree_sitter_highlight::HighlightConfiguration,
) -> Seq<Seq<char>>;

/// What `tree_sitter_highlight::Highlighter::highlight` reports for a line
/// of code under a configuration: its events, or the error of the call or
/// of the first event that is one.
pub uninterp spec fn syntax_events(
    config: tree_sitter_highlight::HighlightConfiguration,
    code: Seq<u8>,
) -> Result<Seq<SyntaxEvent>, tree_sitter_highlight::Error>;

/// Calls `String::from_utf8_lossy`. The contract gives the result its name
/// and claims that valid UTF-8 decodes to the text that it encodes.
#[verifier::external_body]
fn decode_lossy(bytes: &[u8]) -> (text: String)
    ensures
        text@ == lossy_text(bytes@),
        valid_utf8(bytes@) ==> text@ == decode_utf8(bytes@),
{
    String::from_utf8_lossy(bytes).into_owned()
}

/// Calls `HighlightConfiguration::new` with the grammar of BPF C and its
/// highlighting query. The contract gives the answer its name, over the three
/// texts that are handed in.
#[verifier::external_body]
fn new_config(name: &str, injections: &str, locals: &str) -> (answer: Result<
    tree_sitter_highlight::HighlightConfiguration,
    tree_sitter::QueryError,
>)
    ensures
        answer == config_answer(name@, injections@, locals@),
{
    tree_sitter_highlight::HighlightConfiguration::new(
        tree_sitter_bpf_c::LANGUAGE.into(),
        name,
        tree_sitter_bpf_c::HIGHLIGHTS_QUERY,
        injections,
        locals,
    )
}

/// Calls `HighlightConfiguration::configure`, which tells the configuration
/// the names of the styles. The contract gives the configuration that it
/// leaves its name.
#[verifier::external_body]
fn configure(config: &mut tree_sitter_highlight::HighlightConfiguration, names: &Vec<&'static str>)
    ensures
        *final(config) == configured(*old(config), strs(names@)),
{
    config.configure(names)
}

/// Calls `HighlightConfiguration::names` and copies the names of the
/// captures of the query. The contract gives them their name.
#[verifier::external_body]
fn capture_names(config: &tree_sitter_highlight::HighlightConfiguration) -> (names: Vec<String>)
    ensures
        texts(names@) == capture_texts(*config),
{
    config.names().iter().map(|name| name.to_string()).collect()
}

/// No language is highlighted inside another.
fn no_injection<'a>(name: &str) -> (config: Option<
    &'a tree_sitter_highlight::HighlightConfiguration,
>)
    ensures
        config is None,
{
    None
}

/// Calls `Highlighter::highlight` on a fresh `Highlighter`, without
/// cancellation, and collects the events that it reports. The contract gives
/// the outcome its name: the events where all of them are `Ok`, the error
/// where the call or one of the events is one.
#[verifier::external_body]
fn highlight_events(config: &tree_sitter_highlight::HighlightConfiguration, code: &[u8]) -> (events:
    Result<Vec<SyntaxEvent>, tree_sitter_highlight::Error>)
    ensures
        match events {
            Ok(list) => syntax_events(*config, code@) matches Ok(named) && named == list@,
            Err(error) => syntax_events(*config, code@) matches Err(named) && named == error,
        },
{
    let mut engine = tree_sitter_highlight::Highlighter::new();
    let mut list = Vec::new();
    for event in engine.highlight(config, code, None, None, |name| no_injection(name))? {
        list.push(match event? {
            HighlightEvent::Source { start, end } => SyntaxEvent::Source { start, end },
            HighlightEvent::HighlightStart(style) => SyntaxEvent::Start(style.0),
            HighlightEvent::HighlightEnd => SyntaxEvent::End,
        });
    }
    Ok(list)
}

/// The texts of a list of names.
pub open spec fn texts(names: Seq<String>) -> Seq<Seq<char>> {
    Seq::new(names.len(), |i: int| names[i]@)
}

/// The texts of a list of names that are string slices.
pub open spec fn strs(names: Seq<&'static str>) -> Seq<Seq<char>> {
    Seq::new(names.len(), |i: int| names[i]@)
}

/// What starts the style with the given number. The number is looked up
/// among the names of the captures of the query, not among the names that
/// the engine was told; a number without a name, and a name without a style
/// of its own, get the style of the unknown category.
pub open spec fn style_at(backend: Backend, captures: Seq<Seq<char>>, number: int) -> Seq<char> {
    if 0 <= number < captures.len() {
        style_start(backend, category_of(captures[number]))
    } else {
        style_start(backend, Category::Unknown)
    }
}

/// The text that one event adds, or `None` where it names bytes outside the
/// line.
pub open spec fn event_text(
    code: Seq<u8>,
    event: SyntaxEvent,
    captures: Seq<Seq<char>>,
    backend: Backend,
) -> Option<Seq<char>> {
    match event {
        SyntaxEvent::Source { start, end } => if start <= end <= code.len() {
            Some(lossy_text(code.subrange(start as int, end as int)))
        } else {
            None
        },
        SyntaxEvent::Start(number) => Some(style_at(backend, captures, number as int)),
        SyntaxEvent::End => Some(style_end(backend)),
    }
}

/// The styled text of a line whose events are given: the texts of the events
/// in their order, or `None` where one of them names bytes outside the line.
pub open spec fn styled_events(
    code: Seq<u8>,
    events: Seq<SyntaxEvent>,
    captures: Seq<Seq<char>>,
    backend: Backend,
) -> Option<Seq<char>>
    decreases events.len(),
{
    if events.len() == 0 {
        Some(Seq::empty())
    } else {
        match styled_events(code, events.drop_last(), captures, backend) {
            None => None,
            Some(text) => match event_text(code, events.last(), captures, backend) {
                None => None,
                Some(more) => Some(text + more),
            },
        }
    }
}

/// Finds what starts the style with the given number.
pub fn style_for_highlight(backend: Backend, captures: &Vec<String>, number: usize) -> (style:
    &'static str)
    ensures
        style@ == style_at(backend, texts(captures@), number as int),
{
    if number < captures.len() {
        style_of(backend, category(captures[number].as_str()))
    } else {
        style_of(backend, Category::Unknown)
    }
}

/// Renders a line of code from the events that the engine reported for it.
pub fn render_events(
    code: &[u8],
    events: &Vec<SyntaxEvent>,
    captures: &Vec<String>,
    backend: Backend,
) -> (styled: Result<String, HighlightError>)
    ensures
        match styled {
            Ok(text) => styled_events(code@, events@, texts(captures@), backend) == Some(text@),
            Err(error) => error is Span && styled_events(code@, events@, texts(captures@), backend)
                is None,
        },
{
    let mut text = String::new();
    let mut i: usize = 0;
    while i < events.len()
        invariant
            i <= events@.len(),
            styled_events(code@, events@.take(i as int), texts(captures@), backend) == Some(
                text@,
            ),
        decreases events@.len() - i,
    {
        let ghost before = events@.take(i as int);
        let ghost now = events@.take(i + 1);
        assert(now.drop_last() =~= before);
        assert(now.last() == events@[i as int]);
        match events[i] {
            SyntaxEvent::Source { start, end } => {
                if start <= end && end <= code.len() {
                    let piece = decode_lossy(slice_subrange(code, start, end));
                    text.append(piece.as_str());
                } else {
                    proof {
                        lemma_failure_stays(code@, events@, texts(captures@), backend, i + 1);
                    }
                    return Err(HighlightError::Span);
                }
            },
            SyntaxEvent::Start(number) => {
                text.append(style_for_highlight(backend, captures, number));
            },
            SyntaxEvent::End => {
                text.append(style_end_of(backend));
            },
        }
        i += 1;
    }
    assert(events@.take(i as int) =~= events@);
    Ok(text)
}

/// Once the first events of a line cannot be rendered, the line cannot.
proof fn lemma_failure_stays(
    code: Seq<u8>,
    events: Seq<SyntaxEvent>,
    captures: Seq<Seq<char>>,
    backend: Backend,
    n: int,
)
    requires
        0 <= n <= events.len(),
        styled_events(code, events.take(n), captures, backend) is None,
    ensures
        styled_events(code, events, captures, backend) is None,
    decreases events.len() - n,
{
    if n < events.len() {
        assert(events.take(n + 1).drop_last() =~= events.take(n));
        lemma_failure_stays(code, events, captures, backend, n + 1);
    } else {
        assert(events.take(n) =~= events);
    }
}

/// What a highlighter does to a line, as far as it matters to what it
/// returns.
pub enum Styling {
    /// The code is handed back as text.
    Plain,
    /// The tokens of the code are styled.
    Syntax {
        config: tree_sitter_highlight::HighlightConfiguration,
        captures: Seq<Seq<char>>,
        backend: Backend,
    },
}

impl Styling {
    /// The styled text of a line, or the error that highlighting it ends in:
    /// that of the engine where the engine fails, `Span` where one of its
    /// events names bytes outside the line.
    pub open spec fn styled(self, code: Seq<u8>) -> Result<Seq<char>, HighlightError> {
        match self {
            Styling::Plain => Ok(lossy_text(code)),
            Styling::Syntax { config, captures, backend } => match syntax_events(config, code) {
                Err(error) => Err(HighlightError::Engine(error)),
                Ok(events) => match styled_events(code, events, captures, backend) {
                    Some(text) => Ok(text),
                    None => Err(HighlightError::Span),
                },
            },
        }
    }

    /// The styling of the syntax highlighter that is made from a
    /// configuration as the engine first answers it: the configuration is
    /// told the names of the categories, and the numbers of styles are looked
    /// up among the names of the captures of its query.
    pub open spec fn syntax(
        base: tree_sitter_highlight::HighlightConfiguration,
        backend: Backend,
    ) -> Styling {
        let config = configured(base, recognized_names());
        Styling::Syntax { config, captures: capture_texts(config), backend }
    }

    /// The styling of the highlighter that the color flag asks for, or the
    /// error with which the engine refuses its configuration.
    pub open spec fn created(color: bool, backend: Backend) -> Result<
        Styling,
        tree_sitter::QueryError,
    > {
        if !color {
            Ok(Styling::Plain)
        } else {
            match config_answer("bpf-c"@, ""@, ""@) {
                Ok(base) => Ok(Styling::syntax(base, backend)),
                Err(error) => Err(error),
            }
        }
    }
}

/// A highlighter that finds the tokens of BPF C with a syntax-highlighting
/// engine.
pub struct SyntaxHighlighter {
    /// The grammar and query of the engine.
    pub config: tree_sitter_highlight::HighlightConfiguration,
    /// The names of the captures of the query, by number.
    pub captures: Vec<String>,
    /// The backend whose styles are used.
    pub backend: Backend,
}

impl View for SyntaxHighlighter {
    type V = Styling;

    open spec fn view(&self) -> Styling {
        Styling::Syntax {
            config: self.config,
            captures: texts(self.captures@),
            backend: self.backend,
        }
    }
}

impl SyntaxHighlighter {
    /// Makes a highlighter from what the engine answered when it was asked
    /// for a configuration: none where it refused, with its error; else one
    /// whose configuration has been told the names of the categories.
    pub fn from_answer(
        answer: Result<tree_sitter_highlight::HighlightConfiguration, tree_sitter::QueryError>,
        backend: Backend,
    ) -> (made: Result<Self, HighlightError>)
        ensures
            made is Ok <==> answer is Ok,
            made matches Ok(highlighter) ==> answer matches Ok(base) && highlighter@
                == Styling::syntax(base, backend),
            made matches Err(error) ==> answer matches Err(refusal) && error
                == HighlightError::Config(refusal),
    {
        let mut config = match answer {
            Ok(config) => config,
            Err(error) => {
                return Err(HighlightError::Config(error));
            },
        };
        let names = category_names();
        assert(strs(names@) =~= recognized_names());
        configure(&mut config, &names);
        let captures = capture_names(&config);
        Ok(SyntaxHighlighter { config, captures, backend })
    }

    /// Sets up the engine for BPF C, with the styles of `backend`. It fails
    /// where the engine refuses the grammar with its query, with the error of
    /// the engine, and nowhere else.
    pub fn new(backend: Backend) -> (made: Result<Self, HighlightError>)
        ensures
            match made {
                Ok(highlighter) => Styling::created(true, backend) == Ok::<
                    Styling,
                    tree_sitter::QueryError,
                >(highlighter@),
                Err(error) => Styling::created(true, backend) matches Err(refusal) && error
                    == HighlightError::Config(refusal),
            },
    {
        Self::from_answer(new_config("bpf-c", "", ""), backend)
    }

    /// Highlights a line of code. Where the engine fails, its error is
    /// handed on.
    pub fn highlight(&self, code: &[u8]) -> (styled: Result<String, HighlightError>)
        ensures
            match styled {
                Ok(text) => self@.styled(code@) matches Ok(owed) && owed == text@,
                Err(error) => self@.styled(code@) matches Err(owed) && owed == error,
            },
            styled matches Err(error) ==> (error is Engine <==> syntax_events(self.config, code@)
                is Err),
            styled matches Err(error) ==> error is Engine || error is Span,
    {
        match highlight_events(&self.config, code) {
            Ok(events) => render_events(code, &events, &self.captures, self.backend),
            Err(error) => Err(HighlightError::Engine(error)),
        }
    }
}

/// What turns a line of code into styled text.
pub enum Highlighter {
    /// Hands the code back as text, without any style.
    NoOp,
    /// Styles the tokens of the code.
    Syntax(SyntaxHighlighter),
}

impl View for Highlighter {
    type V = Styling;

    open spec fn view(&self) -> Styling {
        match self {
            Highlighter::NoOp => Styling::Plain,
            Highlighter::Syntax(syntax) => syntax@,
        }
    }
}

impl Highlighter {
    /// Highlights a line of code. Bytes that are not valid UTF-8 are replaced,
    /// never refused. Without a syntax highlighter nothing can fail; with
    /// one, the error of the engine is handed on where the engine fails.
    pub fn highlight(&self, code: &[u8]) -> (styled: Result<String, HighlightError>)
        ensures
            match styled {
                Ok(text) => self@.styled(code@) matches Ok(owed) && owed == text@,
                Err(error) => self@.styled(code@) matches Err(owed) && owed == error,
            },
            styled matches Err(error) ==> self matches Highlighter::Syntax(syntax) && (error
                is Engine <==> syntax_events(syntax.config, code@) is Err),
            styled matches Err(error) ==> error is Engine || error is Span,
            self is NoOp && valid_utf8(code@) ==> styled is Ok && styled->Ok_0@ == decode_utf8(
                code@,
            ),
    {
        match self {
            Highlighter::NoOp => Ok(decode_lossy(code)),
            Highlighter::Syntax(syntax) => syntax.highlight(code),
        }
    }
}

/// Makes the highlighter that the color flag asks for: one that styles
/// nothing without color, the syntax highlighter of `backend` with it. It
/// fails only with color, where the engine refuses its configuration, and
/// with the error of the engine.
pub fn create_highlighter(color: bool, backend: Backend) -> (made: Result<
    Highlighter,
    HighlightError,
>)
    ensures
        match made {
            Ok(highlighter) => Styling::created(color, backend) == Ok::<
                Styling,
                tree_sitter::QueryError,
            >(highlighter@),
            Err(error) => Styling::created(color, backend) matches Err(refusal) && error
                == HighlightError::Config(refusal),
        },
        !color ==> made is Ok && made->Ok_0 is NoOp,
        color && made is Ok ==> made->Ok_0 is Syntax,
{
    if !color {
        return Ok(Highlighter::NoOp);
    }
    match SyntaxHighlighter::new(backend) {
        Ok(syntax) => Ok(Highlighter::Syntax(syntax)),
        Err(error) => Err(error),
    }
}

} // verus!
