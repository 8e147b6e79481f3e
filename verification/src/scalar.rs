//! The scalar values a constant can hold: how each is typed in Rust and how
//! each is written as a literal.

use vstd::prelude::*;

verus! {

/// A constant's value.
///
/// A float is held as the text of its literal, since that text is all the
/// generators need of it. `Unsupported` stands for every value that is not one
/// of the four scalar kinds (an array, a table, a date).
#[derive(Debug, PartialEq)]
pub enum Scalar {
    String(String),
    Integer(i64),
    Float(String),
    Boolean(bool),
    Unsupported,
}

/// The mathematical content of a [`Scalar`].
pub enum ScalarView {
    String(Seq<char>),
    Integer(i64),
    Float(Seq<char>),
    Boolean(bool),
    Unsupported,
}

impl View for Scalar {
    type V = ScalarView;

    open spec fn view(&self) -> ScalarView {
        match self {
            Scalar::String(s) => ScalarView::String(s@),
            Scalar::Integer(i) => ScalarView::Integer(*i),
            Scalar::Float(text) => ScalarView::Float(text@),
            Scalar::Boolean(b) => ScalarView::Boolean(*b),
            Scalar::Unsupported => ScalarView::Unsupported,
        }
    }
}

/// The Rust type that a constant of this value is declared with, or `None`
/// for a value that has no place in generated code.
pub open spec fn rust_type(v: ScalarView) -> Option<Seq<char>> {
    match v {
        ScalarView::String(_) => Some("&str"@),
        ScalarView::Integer(_) => Some("i64"@),
        ScalarView::Float(_) => Some("f64"@),
        ScalarView::Boolean(_) => Some("bool"@),
        ScalarView::Unsupported => None,
    }
}

/// The decimal digit `d`, for `0 <= d < 10`.
pub open spec fn digit(d: int) -> char {
    seq!['0', '1', '2', '3', '4', '5', '6', '7', '8', '9'][d]
}

/// The hexadecimal digit `d` in upper case, for `0 <= d < 16`.
pub open spec fn hex_digit(d: int) -> char {
    seq!['0', '1', '2', '3', '4', '5', '6', '7', '8', '9', 'A', 'B', 'C', 'D', 'E', 'F'][d]
}

/// A natural number in decimal, without leading zeros.
pub open spec fn digits(n: nat) -> Seq<char>
    decreases n,
{
    if n < 10 {
        seq![digit(n as int)]
    } else {
        digits(n / 10).push(digit((n % 10) as int))
    }
}

/// An integer in decimal, with a minus sign in front of a negative one.
pub open spec fn decimal(i: int) -> Seq<char> {
    if i < 0 {
        seq!['-'] + digits((-i) as nat)
    } else {
        digits(i as nat)
    }
}

/// One character as it stands inside a quoted string: the quote, the
/// backslash and the control characters are escaped, every other character
/// stands for itself.
pub open spec fn escaped_char(c: char) -> Seq<char> {
    if c == '\u{8}' {
        seq!['\\', 'b']
    } else if c == '\t' {
        seq!['\\', 't']
    } else if c == '\n' {
        seq!['\\', 'n']
    } else if c == '\u{c}' {
        seq!['\\', 'f']
    } else if c == '\r' {
        seq!['\\', 'r']
    } else if c == '"' {
        seq!['\\', '"']
    } else if c == '\\' {
        seq!['\\', '\\']
    } else if c as int <= 0x1f || c as int == 0x7f {
        seq!['\\', 'u', '0', '0', hex_digit(c as int / 16), hex_digit(c as int % 16)]
    } else {
        seq![c]
    }
}

/// The characters of a string, each escaped, in order.
pub open spec fn escaped(s: Seq<char>) -> Seq<char>
    decreases s.len(),
{
    if s.len() == 0 {
        Seq::empty()
    } else {
        escaped(s.drop_last()) + escaped_char(s.last())
    }
}

/// A string between double quotes, escaped.
pub open spec fn quoted(s: Seq<char>) -> Seq<char> {
    seq!['"'] + escaped(s) + seq!['"']
}

/// The literal that stands for a value in generated code, or `None` for a
/// value that has no place there.
pub open spec fn literal(v: ScalarView) -> Option<Seq<char>> {
    match v {
        ScalarView::String(s) => Some(quoted(s)),
        ScalarView::Integer(i) => Some(decimal(i as int)),
        ScalarView::Float(text) => Some(text),
        ScalarView::Boolean(b) => Some(
            if b {
                "true"@
            } else {
                "false"@
            },
        ),
        ScalarView::Unsupported => None,
    }
}

/// Whether a value is one of the four scalar kinds.
pub open spec fn supported(v: ScalarView) -> bool {
    !(v is Unsupported)
}

/// Calls `Display` of `toml::Value` on a `toml::Value::String`. Trusted: the
/// text is the string between double quotes, with `\b`, `\t`, `\n`, `\f`,
/// `\r`, `\"` and `\\` for those seven characters and `\u00XX` for the other
/// characters up to U+001F and for U+007F.
#[verifier::external_body]
fn string_literal(s: &str) -> (text: String)
    ensures
        text@ == quoted(s@),
{
    toml::Value::String(s.to_string()).to_string()
}

/// Calls `Display` of `toml::Value` on a `toml::Value::Integer`. Trusted: the
/// text is the integer in decimal.
#[verifier::external_body]
fn integer_literal(i: i64) -> (text: String)
    ensures
        text@ == decimal(i as int),
{
    toml::Value::Integer(i).to_string()
}

/// Calls `Display` of `toml::Value` on a `toml::Value::Boolean`. Trusted: the
/// text is `true` or `false`.
#[verifier::external_body]
fn boolean_literal(b: bool) -> (text: String)
    ensures
        text@ == if b {
            "true"@
        } else {
            "false"@
        },
{
    toml::Value::Boolean(b).to_string()
}

/// Maps a value to the token of its Rust type; an unsupported value has none.
pub fn value_to_rust_type(v: &Scalar) -> (token: Option<&'static str>)
    ensures
        match token {
            Some(t) => rust_type(v@) == Some(t@),
            None => rust_type(v@) is None,
        },
{
    match v {
        Scalar::String(_) => Some("&str"),
        Scalar::Integer(_) => Some("i64"),
        Scalar::Float(_) => Some("f64"),
        Scalar::Boolean(_) => Some("bool"),
        Scalar::Unsupported => None,
    }
}

/// Writes a value as a literal: a string quoted, a number bare, a boolean as
/// `true` or `false`; an unsupported value has none.
pub fn value_to_literal(v: &Scalar) -> (text: Option<String>)
    ensures
        match text {
            Some(t) => literal(v@) == Some(t@),
            None => literal(v@) is None,
        },
{
    match v {
        Scalar::String(s) => Some(string_literal(s.as_str())),
        Scalar::Integer(i) => Some(integer_literal(*i)),
        Scalar::Float(text) => Some(text.clone()),
        Scalar::Boolean(b) => Some(boolean_literal(*b)),
        Scalar::Unsupported => None,
    }
}

/// A value has a type exactly when it has a literal: when it is supported.
pub proof fn lemma_type_and_literal_agree(v: ScalarView)
    ensures
        rust_type(v) is Some <==> supported(v),
        literal(v) is Some <==> supported(v),
{
}

} // verus!
