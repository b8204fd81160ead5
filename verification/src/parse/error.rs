//! What a parser reports when its input does not follow the grammar.

use vstd::prelude::*;
use vstd::string::*;

verus! {

/// The mathematical value of a [`ParseContext`].
pub enum ContextModel {
    Description(Seq<char>),
    Expected(Seq<char>),
}

/// Where a parse failed and what was being read there.
pub struct Failure {
    /// The character position at which the input stopped following the grammar.
    pub offset: int,
    pub context: ContextModel,
}

/// What a parser was doing when it failed.
#[derive(Debug, PartialEq, Eq)]
pub enum ParseContext {
    /// The thing being parsed.
    Description(String),
    /// What should have come next.
    Expected(String),
}

impl View for ParseContext {
    type V = ContextModel;

    open spec fn view(&self) -> ContextModel {
        match self {
            ParseContext::Description(text) => ContextModel::Description(text@),
            ParseContext::Expected(text) => ContextModel::Expected(text@),
        }
    }
}

impl Clone for ParseContext {
    fn clone(&self) -> (copy: Self)
        ensures
            copy@ == self@,
    {
        match self {
            ParseContext::Description(text) => ParseContext::Description(text.clone()),
            ParseContext::Expected(text) => ParseContext::Expected(text.clone()),
        }
    }
}

/// The context "while parsing `while_parsing_a`".
pub fn desc(while_parsing_a: &str) -> (context: ParseContext)
    ensures
        context@ == ContextModel::Description(while_parsing_a@),
{
    ParseContext::Description(while_parsing_a.to_owned())
}

/// The context "expected `what`".
pub fn expected(what: &str) -> (context: ParseContext)
    ensures
        context@ == ContextModel::Expected(what@),
{
    ParseContext::Expected(what.to_owned())
}

impl ParseContext {
    /// The text shown for a context.
    pub open spec fn spec_to_string(context: ContextModel) -> Seq<char> {
        match context {
            ContextModel::Description(text) => "while parsing "@ + text,
            ContextModel::Expected(text) => "expected "@ + text,
        }
    }

    /// The context as a label: `while parsing ...` or `expected ...`.
    pub fn to_string(&self) -> (text: String)
        ensures
            text@ == Self::spec_to_string(self@),
    {
        match self {
            ParseContext::Description(description) => {
                String::from_str("while parsing ").concat(description.as_str())
            },
            ParseContext::Expected(expected) => {
                String::from_str("expected ").concat(expected.as_str())
            },
        }
    }
}

/// A parse failure: the position in the input, counted in characters, and the context.
#[derive(Debug, PartialEq, Eq)]
pub struct ParseError {
    pub offset: usize,
    pub context: ParseContext,
}

impl View for ParseError {
    type V = Failure;

    open spec fn view(&self) -> Failure {
        Failure { offset: self.offset as int, context: self.context@ }
    }
}

impl Clone for ParseError {
    fn clone(&self) -> (copy: Self)
        ensures
            copy@ == self@,
    {
        ParseError { offset: self.offset, context: self.context.clone() }
    }
}

impl ParseError {
    /// The failure at the position `offset`, counted in characters, in the context `context`.
    pub fn new(offset: usize, context: ParseContext) -> (error: Self)
        ensures
            error@ == (Failure { offset: offset as int, context: context@ }),
    {
        ParseError { offset, context }
    }

    /// The headline of every parse failure.
    pub fn to_string(&self) -> (text: String)
        ensures
            text@ == "Parsing failed"@,
    {
        String::from_str("Parsing failed")
    }
}

} // verus!
