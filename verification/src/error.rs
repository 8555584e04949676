//! The failures that the machine and its collaborators report.

use vstd::prelude::*;
use vstd::string::StringExecFns;

verus! {

/// A failure of the machine, of its console or of image intake.
#[derive(Debug)]
pub enum VMError {
    /// A subtraction on unsigned operands would have gone below zero.
    Arithmetic { minuend: usize, subtrahend: usize },
    /// A number stands for no opcode, trap code or register.
    Conversion(String),
    /// An index lies outside the address space.
    InvalidIndex(usize),
    /// The host input gave no byte.
    STDINRead(String),
    /// The host output took no byte.
    STDOUTWrite(String),
    /// The host output could not be flushed.
    STDOUTFlush(String),
    /// The console attributes could not be read.
    TermiosCreation(String),
    /// The console attributes could not be set.
    TermiosSetup(String),
    /// An image file could not be opened: its path, then the reason.
    OpenFile(String, String),
    /// An image ended in the middle of a word.
    NoMoreBytes(String),
}

/// What went wrong, without the message that comes with it.
#[derive(Clone, Copy, Debug, PartialEq, Eq, Structural)]
pub enum ErrorKind {
    Arithmetic,
    Conversion,
    InvalidIndex,
    STDINRead,
    STDOUTWrite,
    STDOUTFlush,
    TermiosCreation,
    TermiosSetup,
    OpenFile,
    NoMoreBytes,
}

/// The character that stands for a digit.
pub open spec fn digit_char(digit: nat) -> char
    recommends
        digit < 10,
{
    if digit == 0 {
        '0'
    } else if digit == 1 {
        '1'
    } else if digit == 2 {
        '2'
    } else if digit == 3 {
        '3'
    } else if digit == 4 {
        '4'
    } else if digit == 5 {
        '5'
    } else if digit == 6 {
        '6'
    } else if digit == 7 {
        '7'
    } else if digit == 8 {
        '8'
    } else {
        '9'
    }
}

/// A number written in decimal digits, without leading zeros.
pub open spec fn decimal(n: nat) -> Seq<char>
    decreases n,
{
    if n < 10 {
        seq![digit_char(n)]
    } else {
        decimal(n / 10).push(digit_char(n % 10))
    }
}

/// The one-character text of a digit.
fn digit_text(digit: usize) -> (text: &'static str)
    requires
        digit < 10,
    ensures
        text@ == seq![digit_char(digit as nat)],
{
    proof {
        reveal_strlit("0");
        reveal_strlit("1");
        reveal_strlit("2");
        reveal_strlit("3");
        reveal_strlit("4");
        reveal_strlit("5");
        reveal_strlit("6");
        reveal_strlit("7");
        reveal_strlit("8");
        reveal_strlit("9");
    }
    match digit {
        0 => "0",
        1 => "1",
        2 => "2",
        3 => "3",
        4 => "4",
        5 => "5",
        6 => "6",
        7 => "7",
        8 => "8",
        _ => "9",
    }
}

/// Writes a number in decimal digits.
pub fn decimal_text(n: usize) -> (text: String)
    ensures
        text@ == decimal(n as nat),
    decreases n,
{
    if n < 10 {
        String::from_str(digit_text(n))
    } else {
        let mut text = decimal_text(n / 10);
        text.append(digit_text(n % 10));
        text
    }
}

/// A text as `{:?}` shows it: between double quotes, with the characters that
/// cannot stand there as they are written as escapes.
pub uninterp spec fn debug_form(text: Seq<char>) -> Seq<char>;

/// The `{:?}` form of a text, made by `format!` through the `Debug` impl of
/// `str`. The contract only gives the result its name: it is the same for the
/// same characters.
#[verifier::external_body]
fn quoted(text: &String) -> (shown: String)
    ensures
        shown@ == debug_form(text@),
{
    format!("{:?}", text)
}

/// The text of a failure that carries one message: the variant's name, and
/// between round brackets the message as it is shown.
pub open spec fn tagged(name: Seq<char>, shown: Seq<char>) -> Seq<char> {
    name + "("@ + shown + ")"@
}

/// Builds the text of a failure that carries one message, from the variant's
/// name and the message as it is shown.
pub fn tagged_text(name: &str, shown: &str) -> (text: String)
    ensures
        text@ == tagged(name@, shown@),
{
    let mut text = String::from_str(name);
    text.append("(");
    text.append(shown);
    text.append(")");
    text
}

impl VMError {
    /// The kind of this failure.
    pub open spec fn spec_kind(&self) -> ErrorKind {
        match *self {
            VMError::Arithmetic { .. } => ErrorKind::Arithmetic,
            VMError::Conversion(_) => ErrorKind::Conversion,
            VMError::InvalidIndex(_) => ErrorKind::InvalidIndex,
            VMError::STDINRead(_) => ErrorKind::STDINRead,
            VMError::STDOUTWrite(_) => ErrorKind::STDOUTWrite,
            VMError::STDOUTFlush(_) => ErrorKind::STDOUTFlush,
            VMError::TermiosCreation(_) => ErrorKind::TermiosCreation,
            VMError::TermiosSetup(_) => ErrorKind::TermiosSetup,
            VMError::OpenFile(_, _) => ErrorKind::OpenFile,
            VMError::NoMoreBytes(_) => ErrorKind::NoMoreBytes,
        }
    }

    /// The kind of this failure.
    #[verifier::when_used_as_spec(spec_kind)]
    pub fn kind(&self) -> (k: ErrorKind)
        ensures
            k == self.spec_kind(),
    {
        match self {
            VMError::Arithmetic { .. } => ErrorKind::Arithmetic,
            VMError::Conversion(_) => ErrorKind::Conversion,
            VMError::InvalidIndex(_) => ErrorKind::InvalidIndex,
            VMError::STDINRead(_) => ErrorKind::STDINRead,
            VMError::STDOUTWrite(_) => ErrorKind::STDOUTWrite,
            VMError::STDOUTFlush(_) => ErrorKind::STDOUTFlush,
            VMError::TermiosCreation(_) => ErrorKind::TermiosCreation,
            VMError::TermiosSetup(_) => ErrorKind::TermiosSetup,
            VMError::OpenFile(_, _) => ErrorKind::OpenFile,
            VMError::NoMoreBytes(_) => ErrorKind::NoMoreBytes,
        }
    }

    /// The text that describes this failure.
    pub open spec fn spec_message(&self) -> Seq<char> {
        match *self {
            VMError::Arithmetic { minuend, subtrahend } => "Arithmetic: cannot subtract "@
                + decimal(subtrahend as nat) + " from "@ + decimal(minuend as nat),
            VMError::Conversion(message) => tagged("Conversion"@, debug_form(message@)),
            VMError::InvalidIndex(index) => "InvalidIndex: index ["@ + decimal(index as nat)
                + "] is invalid"@,
            VMError::STDINRead(message) => tagged("STDINRead"@, debug_form(message@)),
            VMError::STDOUTWrite(message) => tagged("STDOUTWrite"@, debug_form(message@)),
            VMError::STDOUTFlush(message) => tagged("STDOUTFlush"@, debug_form(message@)),
            VMError::TermiosCreation(message) => tagged("TermiosCreation"@, debug_form(message@)),
            VMError::TermiosSetup(message) => tagged("TermiosSetup"@, debug_form(message@)),
            VMError::OpenFile(path, error) => "OpenFile: cannot open file ["@ + path@
                + "] because of error ["@ + error@ + "]"@,
            VMError::NoMoreBytes(message) => tagged("NoMoreBytes"@, debug_form(message@)),
        }
    }

    /// The text that describes this failure: a sentence for `Arithmetic`,
    /// `InvalidIndex` and `OpenFile`, and for the others the variant's name
    /// with its message.
    pub fn message(&self) -> (text: String)
        ensures
            text@ == self.spec_message(),
    {
        match self {
            VMError::Arithmetic { minuend, subtrahend } => {
                let mut text = String::from_str("Arithmetic: cannot subtract ");
                text.append(decimal_text(*subtrahend).as_str());
                text.append(" from ");
                text.append(decimal_text(*minuend).as_str());
                text
            },
            VMError::Conversion(message) => tagged_text("Conversion", quoted(message).as_str()),
            VMError::InvalidIndex(index) => {
                let mut text = String::from_str("InvalidIndex: index [");
                text.append(decimal_text(*index).as_str());
                text.append("] is invalid");
                text
            },
            VMError::STDINRead(message) => tagged_text("STDINRead", quoted(message).as_str()),
            VMError::STDOUTWrite(message) => tagged_text("STDOUTWrite", quoted(message).as_str()),
            VMError::STDOUTFlush(message) => tagged_text("STDOUTFlush", quoted(message).as_str()),
            VMError::TermiosCreation(message) => {
                tagged_text("TermiosCreation", quoted(message).as_str())
            },
            VMError::TermiosSetup(message) => tagged_text("TermiosSetup", quoted(message).as_str()),
            VMError::OpenFile(path, error) => {
                let mut text = String::from_str("OpenFile: cannot open file [");
                text.append(path.as_str());
                text.append("] because of error [");
                text.append(error.as_str());
                text.append("]");
                text
            },
            VMError::NoMoreBytes(message) => tagged_text("NoMoreBytes", quoted(message).as_str()),
        }
    }
}

/// The kind of failure that a result carries, if it carries one.
pub open spec fn failure<T>(r: Result<T, VMError>) -> Option<ErrorKind> {
    match r {
        Ok(_) => None,
        Err(e) => Some(e.spec_kind()),
    }
}

} // verus!
