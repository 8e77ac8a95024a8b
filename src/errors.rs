//! Failures that the interpreter reports for a line, and how the console
//! frames the outcome of a line for the terminal.
use vstd::prelude::*;
use vstd::utf8::encode_utf8;

use crate::bytes::{push_str, slice_to_vec};
use crate::editor::{CR, LF};

verus! {

/// The kinds of failure that the interpreter reports for a line. The three
/// stack kinds come from the data, return and call stacks.
#[derive(Clone, Copy, Debug, PartialEq, Eq, Structural)]
pub enum ErrorKind {
    StackEmpty,
    StackFull,
    OverwriteInvalid,
    Bump,
    Output,
    CFANotInDict,
    WordNotInDict,
    ColonCompileMissingName,
    ColonCompileMissingSemicolon,
    LookupFailed,
    WordToUsizeInvalid,
    UsizeToWordInvalid,
    ElseBeforeIf,
    ThenBeforeIf,
    IfWithoutThen,
    DuplicateElse,
    IfElseWithoutThen,
    CallStackCorrupted,
    InterpretingCompileOnlyWord,
    BadCfaOffset,
    LoopBeforeDo,
    DoWithoutLoop,
    BadCfaLen,
    BuiltinHasNoNextValue,
    UntaggedCFAPtr,
    LoopCountIsNegative,
    LQuoteMissingRQuote,
    LiteralStringTooLong,
    NullPointerInCFA,
    BadStrLiteral,
    ForgetWithoutWordName,
    ForgetNotInDict,
    CantForgetBuiltins,
    InternalError,
    BadLiteral,
    BadWordOffset,
    BadArrayLength,
    DivideByZero,
    AddrOfMissingName,
    AddrOfNotAWord,
    PendingCallAgain,
}

/// The name under which a failure is shown to the operator: the kind's own name.
pub open spec fn error_name(e: ErrorKind) -> Seq<char> {
    match e {
        ErrorKind::StackEmpty => "StackEmpty"@,
        ErrorKind::StackFull => "StackFull"@,
        ErrorKind::OverwriteInvalid => "OverwriteInvalid"@,
        ErrorKind::Bump => "Bump"@,
        ErrorKind::Output => "Output"@,
        ErrorKind::CFANotInDict => "CFANotInDict"@,
        ErrorKind::WordNotInDict => "WordNotInDict"@,
        ErrorKind::ColonCompileMissingName => "ColonCompileMissingName"@,
        ErrorKind::ColonCompileMissingSemicolon => "ColonCompileMissingSemicolon"@,
        ErrorKind::LookupFailed => "LookupFailed"@,
        ErrorKind::WordToUsizeInvalid => "WordToUsizeInvalid"@,
        ErrorKind::UsizeToWordInvalid => "UsizeToWordInvalid"@,
        ErrorKind::ElseBeforeIf => "ElseBeforeIf"@,
        ErrorKind::ThenBeforeIf => "ThenBeforeIf"@,
        ErrorKind::IfWithoutThen => "IfWithoutThen"@,
        ErrorKind::DuplicateElse => "DuplicateElse"@,
        ErrorKind::IfElseWithoutThen => "IfElseWithoutThen"@,
        ErrorKind::CallStackCorrupted => "CallStackCorrupted"@,
        ErrorKind::InterpretingCompileOnlyWord => "InterpretingCompileOnlyWord"@,
        ErrorKind::BadCfaOffset => "BadCfaOffset"@,
        ErrorKind::LoopBeforeDo => "LoopBeforeDo"@,
        ErrorKind::DoWithoutLoop => "DoWithoutLoop"@,
        ErrorKind::BadCfaLen => "BadCfaLen"@,
        ErrorKind::BuiltinHasNoNextValue => "BuiltinHasNoNextValue"@,
        ErrorKind::UntaggedCFAPtr => "UntaggedCFAPtr"@,
        ErrorKind::LoopCountIsNegative => "LoopCountIsNegative"@,
        ErrorKind::LQuoteMissingRQuote => "LQuoteMissingRQuote"@,
        ErrorKind::LiteralStringTooLong => "LiteralStringTooLong"@,
        ErrorKind::NullPointerInCFA => "NullPointerInCFA"@,
        ErrorKind::BadStrLiteral => "BadStrLiteral"@,
        ErrorKind::ForgetWithoutWordName => "ForgetWithoutWordName"@,
        ErrorKind::ForgetNotInDict => "ForgetNotInDict"@,
        ErrorKind::CantForgetBuiltins => "CantForgetBuiltins"@,
        ErrorKind::InternalError => "InternalError"@,
        ErrorKind::BadLiteral => "BadLiteral"@,
        ErrorKind::BadWordOffset => "BadWordOffset"@,
        ErrorKind::BadArrayLength => "BadArrayLength"@,
        ErrorKind::DivideByZero => "DivideByZero"@,
        ErrorKind::AddrOfMissingName => "AddrOfMissingName"@,
        ErrorKind::AddrOfNotAWord => "AddrOfNotAWord"@,
        ErrorKind::PendingCallAgain => "PendingCallAgain"@,
    }
}

/// The name of a failure kind, as shown to the operator.
pub fn err2str(e: &ErrorKind) -> (r: &'static str)
    ensures
        r@ == error_name(*e),
{
    match e {
        ErrorKind::StackEmpty => "StackEmpty",
        ErrorKind::StackFull => "StackFull",
        ErrorKind::OverwriteInvalid => "OverwriteInvalid",
        ErrorKind::Bump => "Bump",
        ErrorKind::Output => "Output",
        ErrorKind::CFANotInDict => "CFANotInDict",
        ErrorKind::WordNotInDict => "WordNotInDict",
        ErrorKind::ColonCompileMissingName => "ColonCompileMissingName",
        ErrorKind::ColonCompileMissingSemicolon => "ColonCompileMissingSemicolon",
        ErrorKind::LookupFailed => "LookupFailed",
        ErrorKind::WordToUsizeInvalid => "WordToUsizeInvalid",
        ErrorKind::UsizeToWordInvalid => "UsizeToWordInvalid",
        ErrorKind::ElseBeforeIf => "ElseBeforeIf",
        ErrorKind::ThenBeforeIf => "ThenBeforeIf",
        ErrorKind::IfWithoutThen => "IfWithoutThen",
        ErrorKind::DuplicateElse => "DuplicateElse",
        ErrorKind::IfElseWithoutThen => "IfElseWithoutThen",
        ErrorKind::CallStackCorrupted => "CallStackCorrupted",
        ErrorKind::InterpretingCompileOnlyWord => "InterpretingCompileOnlyWord",
        ErrorKind::BadCfaOffset => "BadCfaOffset",
        ErrorKind::LoopBeforeDo => "LoopBeforeDo",
        ErrorKind::DoWithoutLoop => "DoWithoutLoop",
        ErrorKind::BadCfaLen => "BadCfaLen",
        ErrorKind::BuiltinHasNoNextValue => "BuiltinHasNoNextValue",
        ErrorKind::UntaggedCFAPtr => "UntaggedCFAPtr",
        ErrorKind::LoopCountIsNegative => "LoopCountIsNegative",
        ErrorKind::LQuoteMissingRQuote => "LQuoteMissingRQuote",
        ErrorKind::LiteralStringTooLong => "LiteralStringTooLong",
        ErrorKind::NullPointerInCFA => "NullPointerInCFA",
        ErrorKind::BadStrLiteral => "BadStrLiteral",
        ErrorKind::ForgetWithoutWordName => "ForgetWithoutWordName",
        ErrorKind::ForgetNotInDict => "ForgetNotInDict",
        ErrorKind::CantForgetBuiltins => "CantForgetBuiltins",
        ErrorKind::InternalError => "InternalError",
        ErrorKind::BadLiteral => "BadLiteral",
        ErrorKind::BadWordOffset => "BadWordOffset",
        ErrorKind::BadArrayLength => "BadArrayLength",
        ErrorKind::DivideByZero => "DivideByZero",
        ErrorKind::AddrOfMissingName => "AddrOfMissingName",
        ErrorKind::AddrOfNotAWord => "AddrOfNotAWord",
        ErrorKind::PendingCallAgain => "PendingCallAgain",
    }
}

/// `"ERROR"` in ASCII.
pub open spec fn error_banner() -> Seq<u8> {
    seq![0x45u8, 0x52u8, 0x52u8, 0x4fu8, 0x52u8]
}

/// What the terminal receives once a line has been run: the interpreter's
/// output and a carriage return on success; otherwise `ERROR`, CR LF, the
/// failure's name and CR LF.
pub open spec fn reply_bytes(output: Seq<u8>, outcome: Option<ErrorKind>) -> Seq<u8> {
    match outcome {
        None => output.push(CR),
        Some(e) => error_banner() + seq![CR, LF] + encode_utf8(error_name(e))
            + seq![CR, LF],
    }
}

/// The bytes sent when a completed line is handed over: CR LF, so that the
/// reply starts on a new line.
pub fn dispatch_echo() -> (r: Vec<u8>)
    ensures
        r@ == seq![CR, LF],
{
    let v = vec![CR, LF];
    proof {
        assert(v@ =~= seq![CR, LF]);
    }
    v
}

/// Frames the outcome of one line for the terminal: `output` (what the
/// interpreter printed) followed by CR when `failure` is `None`; otherwise
/// `ERROR`, CR LF, the failure's name and CR LF.
pub fn reply(output: &[u8], failure: Option<ErrorKind>) -> (r: Vec<u8>)
    ensures
        r@ == reply_bytes(output@, failure),
{
    match failure {
        None => {
            let mut v = slice_to_vec(output);
            v.push(CR);
            v
        },
        Some(e) => {
            let mut v = vec![0x45u8, 0x52u8, 0x52u8, 0x4fu8, 0x52u8, CR, LF];
            let ghost start = v@;
            proof {
                assert(start =~= error_banner() + seq![CR, LF]);
            }
            push_str(&mut v, err2str(&e));
            v.push(CR);
            v.push(LF);
            proof {
                assert(v@ =~= reply_bytes(output@, failure));
            }
            v
        },
    }
}

} // verus!
