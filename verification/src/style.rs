//! The two output encodings and their style tables: the tokens that decorate
//! the frame of a report, and the styles of the token categories of code.

use vstd::prelude::*;
use vstd::utf8::{encode_utf8, encode_utf8_decode_utf8};

verus! {

/// Restores the default style.
pub const COLOR_RESET: &'static str = "\x1b[0m";

/// Switches to bold face.
pub const COLOR_BOLD: &'static str = "\x1b[1m";

/// The alert color of warnings.
pub const COLOR_RED: &'static str = "\x1b[31m";

/// The accent color of the frame.
pub const COLOR_BLUE: &'static str = "\x1b[34m";

/// The color of function names and attributes.
pub const COLOR_PURPLE: &'static str = "\x1b[38;2;121;93;163m";

/// The color of constants, variables, numbers and the like.
pub const COLOR_TEAL: &'static str = "\x1b[38;2;0;134;179m";

/// The color of keywords, types and operators.
pub const COLOR_PINK: &'static str = "\x1b[38;2;167;29;93m";

/// The color of string literals.
pub const COLOR_INDIGO: &'static str = "\x1b[38;2;24;54;145m";

/// The color of comments.
pub const COLOR_GRAY: &'static str = "\x1b[38;2;150;152;150m";

/// The color of punctuation and name spaces.
pub const COLOR_DARKGRAY: &'static str = "\x1b[38;2;51;51;51m";

/// Opens a bold element in markup.
pub const MARKUP_BOLD: &'static str = "<span class=\"bold\">";

/// Opens a warning element in markup.
pub const MARKUP_WARN: &'static str = "<span class=\"warn\">";

/// Opens an accented element in markup.
pub const MARKUP_HIGHLIGHT: &'static str = "<span class=\"highlight\">";

/// Closes an element in markup.
pub const MARKUP_RESET: &'static str = "</span>";

/// Opens an element without a style in markup.
pub const MARKUP_PLAIN: &'static str = "<span>";

/// An output encoding.
#[derive(Clone, Copy, Debug, PartialEq, Eq, Structural)]
pub enum Backend {
    /// Plain text, decorated with terminal escape sequences where color is
    /// asked for.
    Terminal,
    /// HTML markup. Its frame is always wrapped in elements, with or without
    /// color; the color flag only decides whether code is highlighted.
    Markup,
}

/// The four tokens that decorate the frame of a report.
pub struct Tokens {
    /// Starts bold text.
    pub bold: Seq<char>,
    /// Starts a warning.
    pub warn: Seq<char>,
    /// Starts accented text.
    pub highlight: Seq<char>,
    /// Ends what one of the other three started.
    pub reset: Seq<char>,
}

/// The tokens of a backend, with or without color.
pub open spec fn format_tokens(color: bool, backend: Backend) -> Tokens {
    match backend {
        Backend::Markup => Tokens {
            bold: MARKUP_BOLD@,
            warn: MARKUP_WARN@,
            highlight: MARKUP_HIGHLIGHT@,
            reset: MARKUP_RESET@,
        },
        Backend::Terminal => if color {
            Tokens {
                bold: COLOR_BOLD@,
                warn: COLOR_BOLD@ + COLOR_RED@,
                highlight: COLOR_BOLD@ + COLOR_BLUE@,
                reset: COLOR_RESET@,
            }
        } else {
            Tokens {
                bold: Seq::empty(),
                warn: Seq::empty(),
                highlight: Seq::empty(),
                reset: Seq::empty(),
            }
        },
    }
}

/// The tokens that four strings stand for, in the order bold, warn,
/// highlight, reset.
pub open spec fn tokens_of(strings: (&'static str, String, String, &'static str)) -> Tokens {
    Tokens { bold: strings.0@, warn: strings.1@, highlight: strings.2@, reset: strings.3@ }
}

/// Provides the strings `(bold, warn, highlight, reset)` that decorate the
/// frame of a report.
pub fn get_format_strings(color: bool, backend: Backend) -> (strings: (
    &'static str,
    String,
    String,
    &'static str,
))
    ensures
        tokens_of(strings) == format_tokens(color, backend),
{
    match backend {
        Backend::Markup => (
            MARKUP_BOLD,
            String::from_str(MARKUP_WARN),
            String::from_str(MARKUP_HIGHLIGHT),
            MARKUP_RESET,
        ),
        Backend::Terminal => if color {
            let warn = String::from_str(COLOR_BOLD).concat(COLOR_RED);
            let highlight = String::from_str(COLOR_BOLD).concat(COLOR_BLUE);
            (COLOR_BOLD, warn, highlight, COLOR_RESET)
        } else {
            proof {
                reveal_strlit("");
            }
            assert(""@ =~= Seq::<char>::empty());
            ("", String::new(), String::new(), "")
        },
    }
}

/// A category of code tokens that has a style of its own.
#[derive(Clone, Copy, Debug, PartialEq, Eq, Structural)]
pub enum Category {
    /// `function`
    Function,
    /// `function.builtin`
    FunctionBuiltin,
    /// `keyword`
    Keyword,
    /// `string`
    Text,
    /// `comment`
    Comment,
    /// `type`
    Type,
    /// `constant`
    Constant,
    /// `variable`
    Variable,
    /// `number`
    Number,
    /// `operator`
    Operator,
    /// `attribute`
    Attribute,
    /// `property`
    Property,
    /// `punctuation`
    Punctuation,
    /// `macro`
    Macro,
    /// `namespace`
    Namespace,
    /// Any other name.
    Unknown,
}

/// The category that a name stands for.
pub open spec fn category_of(name: Seq<char>) -> Category {
    if name == "function"@ {
        Category::Function
    } else if name == "function.builtin"@ {
        Category::FunctionBuiltin
    } else if name == "keyword"@ {
        Category::Keyword
    } else if name == "string"@ {
        Category::Text
    } else if name == "comment"@ {
        Category::Comment
    } else if name == "type"@ {
        Category::Type
    } else if name == "constant"@ {
        Category::Constant
    } else if name == "variable"@ {
        Category::Variable
    } else if name == "number"@ {
        Category::Number
    } else if name == "operator"@ {
        Category::Operator
    } else if name == "attribute"@ {
        Category::Attribute
    } else if name == "property"@ {
        Category::Property
    } else if name == "punctuation"@ {
        Category::Punctuation
    } else if name == "macro"@ {
        Category::Macro
    } else if name == "namespace"@ {
        Category::Namespace
    } else {
        Category::Unknown
    }
}

/// The escape sequence that starts a category on a terminal. A name without
/// a style of its own gets the default style.
pub open spec fn terminal_style(category: Category) -> Seq<char> {
    match category {
        Category::Function => COLOR_PURPLE@,
        Category::FunctionBuiltin => COLOR_TEAL@,
        Category::Keyword => COLOR_PINK@,
        Category::Text => COLOR_INDIGO@,
        Category::Comment => COLOR_GRAY@,
        Category::Type => COLOR_PINK@,
        Category::Constant => COLOR_TEAL@,
        Category::Variable => COLOR_TEAL@,
        Category::Number => COLOR_TEAL@,
        Category::Operator => COLOR_PINK@,
        Category::Attribute => COLOR_PURPLE@,
        Category::Property => COLOR_TEAL@,
        Category::Punctuation => COLOR_DARKGRAY@,
        Category::Macro => COLOR_TEAL@,
        Category::Namespace => COLOR_DARKGRAY@,
        Category::Unknown => COLOR_RESET@,
    }
}

/// The tag that opens the element of a category in markup. A name without a
/// style of its own gets an element without a class.
pub open spec fn markup_style(category: Category) -> Seq<char> {
    match category {
        Category::Function => "<span class=\"function\">"@,
        Category::FunctionBuiltin => "<span class=\"function-builtin\">"@,
        Category::Keyword => "<span class=\"keyword\">"@,
        Category::Text => "<span class=\"string\">"@,
        Category::Comment => "<span class=\"comment\">"@,
        Category::Type => "<span class=\"type\">"@,
        Category::Constant => "<span class=\"constant\">"@,
        Category::Variable => "<span class=\"variable\">"@,
        Category::Number => "<span class=\"number\">"@,
        Category::Operator => "<span class=\"operator\">"@,
        Category::Attribute => "<span class=\"attribute\">"@,
        Category::Property => "<span class=\"property\">"@,
        Category::Punctuation => "<span class=\"punctuation\">"@,
        Category::Macro => "<span class=\"macro\">"@,
        Category::Namespace => "<span class=\"namespace\">"@,
        Category::Unknown => MARKUP_PLAIN@,
    }
}

/// What starts the style of a category in a backend.
pub open spec fn style_start(backend: Backend, category: Category) -> Seq<char> {
    match backend {
        Backend::Terminal => terminal_style(category),
        Backend::Markup => markup_style(category),
    }
}

/// What ends the style of any category in a backend.
pub open spec fn style_end(backend: Backend) -> Seq<char> {
    match backend {
        Backend::Terminal => COLOR_RESET@,
        Backend::Markup => MARKUP_RESET@,
    }
}

/// Tells whether two strings hold the same text.
pub fn same_text(a: &str, b: &str) -> (same: bool)
    ensures
        same == (a@ == b@),
{
    let left = a.as_bytes();
    let right = b.as_bytes();
    proof {
        encode_utf8_decode_utf8(a@);
        encode_utf8_decode_utf8(b@);
    }
    if left.len() != right.len() {
        return false;
    }
    let mut i: usize = 0;
    while i < left.len()
        invariant
            i <= left@.len(),
            left@ == encode_utf8(a@),
            right@ == encode_utf8(b@),
            left@.len() == right@.len(),
            forall|j: int| 0 <= j < i ==> left@[j] == right@[j],
        decreases left@.len() - i,
    {
        if left[i] != right[i] {
            return false;
        }
        i += 1;
    }
    assert(left@ =~= right@);
    true
}

/// Finds the category that a name stands for.
pub fn category(name: &str) -> (found: Category)
    ensures
        found == category_of(name@),
{
    if same_text(name, "function") {
        Category::Function
    } else if same_text(name, "function.builtin") {
        Category::FunctionBuiltin
    } else if same_text(name, "keyword") {
        Category::Keyword
    } else if same_text(name, "string") {
        Category::Text
    } else if same_text(name, "comment") {
        Category::Comment
    } else if same_text(name, "type") {
        Category::Type
    } else if same_text(name, "constant") {
        Category::Constant
    } else if same_text(name, "variable") {
        Category::Variable
    } else if same_text(name, "number") {
        Category::Number
    } else if same_text(name, "operator") {
        Category::Operator
    } else if same_text(name, "attribute") {
        Category::Attribute
    } else if same_text(name, "property") {
        Category::Property
    } else if same_text(name, "punctuation") {
        Category::Punctuation
    } else if same_text(name, "macro") {
        Category::Macro
    } else if same_text(name, "namespace") {
        Category::Namespace
    } else {
        Category::Unknown
    }
}

/// The string that starts the style of a category in a backend.
pub fn style_of(backend: Backend, category: Category) -> (style: &'static str)
    ensures
        style@ == style_start(backend, category),
{
    match backend {
        Backend::Terminal => match category {
            Category::Function => COLOR_PURPLE,
            Category::FunctionBuiltin => COLOR_TEAL,
            Category::Keyword => COLOR_PINK,
            Category::Text => COLOR_INDIGO,
            Category::Comment => COLOR_GRAY,
            Category::Type => COLOR_PINK,
            Category::Constant => COLOR_TEAL,
            Category::Variable => COLOR_TEAL,
            Category::Number => COLOR_TEAL,
            Category::Operator => COLOR_PINK,
            Category::Attribute => COLOR_PURPLE,
            Category::Property => COLOR_TEAL,
            Category::Punctuation => COLOR_DARKGRAY,
            Category::Macro => COLOR_TEAL,
            Category::Namespace => COLOR_DARKGRAY,
            Category::Unknown => COLOR_RESET,
        },
        Backend::Markup => match category {
            Category::Function => "<span class=\"function\">",
            Category::FunctionBuiltin => "<span class=\"function-builtin\">",
            Category::Keyword => "<span class=\"keyword\">",
            Category::Text => "<span class=\"string\">",
            Category::Comment => "<span class=\"comment\">",
            Category::Type => "<span class=\"type\">",
            Category::Constant => "<span class=\"constant\">",
            Category::Variable => "<span class=\"variable\">",
            Category::Number => "<span class=\"number\">",
            Category::Operator => "<span class=\"operator\">",
            Category::Attribute => "<span class=\"attribute\">",
            Category::Property => "<span class=\"property\">",
            Category::Punctuation => "<span class=\"punctuation\">",
            Category::Macro => "<span class=\"macro\">",
            Category::Namespace => "<span class=\"namespace\">",
            Category::Unknown => MARKUP_PLAIN,
        },
    }
}

/// The string that ends the style of any category in a backend.
pub fn style_end_of(backend: Backend) -> (style: &'static str)
    ensures
        style@ == style_end(backend),
{
    match backend {
        Backend::Terminal => COLOR_RESET,
        Backend::Markup => MARKUP_RESET,
    }
}

/// The names of the categories that have a style of their own, in the order
/// in which a highlighting engine is told of them.
pub open spec fn recognized_names() -> Seq<Seq<char>> {
    seq![
        "function"@,
        "function.builtin"@,
        "keyword"@,
        "string"@,
        "comment"@,
        "type"@,
        "constant"@,
        "variable"@,
        "number"@,
        "operator"@,
        "attribute"@,
        "property"@,
        "punctuation"@,
        "macro"@,
        "namespace"@,
    ]
}

/// Lists the names of the categories that have a style of their own.
pub fn category_names() -> (names: Vec<&'static str>)
    ensures
        names@.len() == recognized_names().len(),
        forall|i: int| 0 <= i < names@.len() ==> (#[trigger] names@[i])@ == recognized_names()[i],
{
    let mut names: Vec<&'static str> = Vec::new();
    names.push("function");
    names.push("function.builtin");
    names.push("keyword");
    names.push("string");
    names.push("comment");
    names.push("type");
    names.push("constant");
    names.push("variable");
    names.push("number");
    names.push("operator");
    names.push("attribute");
    names.push("property");
    names.push("punctuation");
    names.push("macro");
    names.push("namespace");
    names
}

} // verus!
