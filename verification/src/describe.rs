//! Human-readable descriptions of what a handle denotes, used only to build
//! diagnostics.

use std::borrow::Cow;
use vstd::prelude::*;
use vstd::string::StringExecFns;

verus! {

/// What `{:?}` writes for a string: the text between double quotes, with the
/// characters that need it escaped.
pub uninterp spec fn debug_quoted(text: Seq<char>) -> Seq<char>;

/// Calls `format!` with `{:?}` on `text`, which runs the `Debug`
/// implementation of `str`. The contract is taken on trust. It only names
/// the result: what is written depends on the characters of `text` alone.
#[verifier::external_body]
fn debug_quote(text: &str) -> (quoted: String)
    ensures
        quoted@ == debug_quoted(text@),
{
    format!("{:?}", text)
}

/// The character that writes the decimal digit `digit`.
pub open spec fn digit_char(digit: nat) -> char {
    if digit == 0 {
        '0'
    } else if digit == 1 {
        '1'
    } else if digit == 2 {
        '2'
    } else if digit == 3 {
        '3'
    } else if digit == 4 {
        '4'
    } else if digit == 5 {
        '5'
    } else if digit == 6 {
        '6'
    } else if digit == 7 {
        '7'
    } else if digit == 8 {
        '8'
    } else {
        '9'
    }
}

/// The decimal numeral of `n`, most significant digit first, without
/// leading zeros.
pub open spec fn decimal(n: nat) -> Seq<char>
    decreases n,
{
    if n < 10 {
        seq![digit_char(n)]
    } else {
        decimal(n / 10).push(digit_char(n % 10))
    }
}

fn digit_str(digit: u32) -> (text: &'static str)
    requires
        digit < 10,
    ensures
        text@ == seq![digit_char(digit as nat)],
{
    proof {
        reveal_strlit("0");
        reveal_strlit("1");
        reveal_strlit("2");
        reveal_strlit("3");
        reveal_strlit("4");
        reveal_strlit("5");
        reveal_strlit("6");
        reveal_strlit("7");
        reveal_strlit("8");
        reveal_strlit("9");
    }
    let text = if digit == 0 {
        "0"
    } else if digit == 1 {
        "1"
    } else if digit == 2 {
        "2"
    } else if digit == 3 {
        "3"
    } else if digit == 4 {
        "4"
    } else if digit == 5 {
        "5"
    } else if digit == 6 {
        "6"
    } else if digit == 7 {
        "7"
    } else if digit == 8 {
        "8"
    } else {
        "9"
    };
    assert(text@ =~= seq![digit_char(digit as nat)]);
    text
}

/// Writes `n` as a decimal numeral.
pub fn decimal_string(n: u32) -> (text: String)
    ensures
        text@ == decimal(n as nat),
    decreases n,
{
    if n < 10 {
        String::from_str(digit_str(n))
    } else {
        let head = decimal_string(n / 10);
        let text = head.concat(digit_str(n % 10));
        assert(text@ =~= decimal(n as nat));
        text
    }
}

/// The characters of a name, borrowed or owned.
pub open spec fn name_text(name: Option<Cow<'_, str>>) -> Option<Seq<char>> {
    match name {
        Some(name) => Some(name@),
        None => None,
    }
}

/// A description that can stand in a diagnostic.
///
/// While a module is traversed a description stays a plain value of its own
/// type. Only when an error is built is it turned into the one type that
/// errors hold.
pub trait HandleDescription: Sized {
    /// The text that stands for the described entity in a diagnostic.
    spec fn text(&self) -> Seq<char>;

    /// Writes the description out.
    fn render(&self) -> (rendered: String)
        ensures
            rendered@ == self.text(),
    ;

    /// Turns the description into the form that errors hold; its text stays.
    fn into_erased(self) -> (erased: ErasedDescription)
        ensures
            erased@ == self.text(),
    ;
}

/// A syntactic kind, such as "pointer type", and the name, if any, that the
/// described entity was given.
#[derive(Clone, Debug, PartialEq, Eq)]
pub struct KindAndMaybeName<'a> {
    pub kind: &'static str,
    pub name: Option<Cow<'a, str>>,
}

impl<'a> KindAndMaybeName<'a> {
    /// The description of an unnamed entity of kind `type_`.
    pub fn from_type(type_: &'static str) -> (described: Self)
        ensures
            described.kind == type_,
            described.name is None,
    {
        Self { kind: type_, name: None }
    }

    /// The same kind with `name` in place of the name held so far.
    pub fn with_name<'b>(self, name: Option<&'b str>) -> (described: KindAndMaybeName<'b>)
        ensures
            described.kind == self.kind,
            name_text(described.name) == match name {
                Some(name) => Some(name@),
                None => None,
            },
    {
        let Self { kind: type_, name: _ } = self;
        KindAndMaybeName {
            kind: type_,
            name: match name {
                Some(name) => Some(Cow::Borrowed(name)),
                None => None,
            },
        }
    }

    /// The same description owning its name, so that it can outlive the
    /// module it was taken from.
    pub fn into_static(self) -> (described: KindAndMaybeName<'static>)
        ensures
            described.kind == self.kind,
            name_text(described.name) == name_text(self.name),
            described.text() == self.text(),
    {
        let Self { kind: type_, name } = self;
        KindAndMaybeName {
            kind: type_,
            name: match name {
                Some(Cow::Borrowed(name)) => Some(Cow::Owned(name.to_owned())),
                Some(Cow::Owned(name)) => Some(Cow::Owned(name)),
                None => None,
            },
        }
    }
}

impl<'a> HandleDescription for KindAndMaybeName<'a> {
    /// The kind, followed for a named entity by a space and the name as
    /// `{:?}` writes it.
    open spec fn text(&self) -> Seq<char> {
        match name_text(self.name) {
            Some(name) => self.kind@ + seq![' '] + debug_quoted(name),
            None => self.kind@,
        }
    }

    fn render(&self) -> (rendered: String) {
        let mut rendered = String::from_str(self.kind);
        match &self.name {
            Some(name) => {
                let quoted = match name {
                    Cow::Borrowed(name) => debug_quote(name),
                    Cow::Owned(name) => debug_quote(name.as_str()),
                };
                proof {
                    reveal_strlit(" ");
                }
                rendered.append(" ");
                rendered.append(quoted.as_str());
                assert(rendered@ =~= self.text());
            },
            None => {},
        }
        rendered
    }

    fn into_erased(self) -> (erased: ErasedDescription) {
        ErasedDescription::Named(self.into_static())
    }
}

/// The kind of an expression, such as "access".
#[derive(Clone, Copy, Debug, PartialEq, Eq)]
pub struct ExpressionHandleDescription {
    pub kind: &'static str,
}

/// What follows the kind in the text of an expression's description.
pub open spec fn expression_suffix() -> Seq<char> {
    " expression"@
}

impl HandleDescription for ExpressionHandleDescription {
    /// The kind followed by the word "expression".
    open spec fn text(&self) -> Seq<char> {
        self.kind@ + expression_suffix()
    }

    fn render(&self) -> (rendered: String) {
        String::from_str(self.kind).concat(" expression")
    }

    fn into_erased(self) -> (erased: ErasedDescription) {
        ErasedDescription::Expression(self)
    }
}

impl HandleDescription for &'static str {
    /// The string itself.
    open spec fn text(&self) -> Seq<char> {
        (*self)@
    }

    fn render(&self) -> (rendered: String) {
        String::from_str(*self)
    }

    fn into_erased(self) -> (erased: ErasedDescription) {
        ErasedDescription::Plain(self)
    }
}

/// The one type of description that errors hold: any of the descriptions
/// above, owning what it refers to.
#[derive(Clone, Debug, PartialEq, Eq)]
pub enum ErasedDescription {
    Plain(&'static str),
    Named(KindAndMaybeName<'static>),
    Expression(ExpressionHandleDescription),
    /// A description of any other type, written out.
    Text(String),
}

impl View for ErasedDescription {
    type V = Seq<char>;

    /// The text of the description that was erased.
    open spec fn view(&self) -> Seq<char> {
        match self {
            ErasedDescription::Plain(kind) => kind@,
            ErasedDescription::Named(described) => match name_text(described.name) {
                Some(name) => described.kind@ + seq![' '] + debug_quoted(name),
                None => described.kind@,
            },
            ErasedDescription::Expression(described) => described.kind@ + expression_suffix(),
            ErasedDescription::Text(text) => text@,
        }
    }
}

impl HandleDescription for ErasedDescription {
    open spec fn text(&self) -> Seq<char> {
        self@
    }

    fn render(&self) -> (rendered: String) {
        match self {
            ErasedDescription::Plain(kind) => kind.render(),
            ErasedDescription::Named(described) => described.render(),
            ErasedDescription::Expression(described) => described.render(),
            ErasedDescription::Text(text) => text.clone(),
        }
    }

    fn into_erased(self) -> (erased: ErasedDescription) {
        self
    }
}

} // verus!
