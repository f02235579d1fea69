//! How alisp errors are shown in the minibuffer.
use super::error::{EvalError, EvalErrorKind};
use super::symbol::SymbolInterner;
use crate::minibuffer::system::MinibufferOutcome;
use crate::text::{concat_str, decimal, owned, usize_to_string};
use vstd::prelude::*;

verus! {

/// The message shown for an evaluation error; `table` holds the symbol
/// names.
pub open spec fn eval_error_text(kind: EvalErrorKind, table: Seq<Seq<char>>) -> Seq<char> {
    match kind {
        EvalErrorKind::NameNotFound(sym) => "alisp error: name - 未定義のシンボル "@ + (if sym.number() < table.len() {
            table[sym.number() as int]
        } else {
            "<unknown>"@
        }),
        EvalErrorKind::ArityMismatch { expected, found } => "alisp error: arity - 引数 "@ + decimal(expected as nat)
            + " 個に対して "@ + decimal(found as nat) + " 個が渡されました"@,
        EvalErrorKind::TypeMismatch { expected, found } => "alisp error: type - "@ + expected@ + " が必要ですが "@
            + found@ + " が渡されました"@,
        EvalErrorKind::DivisionByZero => "alisp error: runtime - 0 で除算できません"@,
        EvalErrorKind::InvalidLetBinding => "alisp error: syntax - let の束縛が不正です"@,
        EvalErrorKind::InvalidDefineTarget => "alisp error: syntax - define の左辺が不正です"@,
        EvalErrorKind::Reader(r) => "alisp error: reader - "@ + r.message@,
        EvalErrorKind::Runtime(m) => "alisp error: runtime - "@ + m@,
    }
}

/// The message shown for an evaluation error.
pub fn format_eval_error(err: &EvalError, interner: &SymbolInterner) -> (r: String)
    ensures
        r@ == eval_error_text(err.kind, interner@),
{
    match &err.kind {
        EvalErrorKind::NameNotFound(sym) => {
            let name = match interner.resolve(*sym) {
                Some(n) => n,
                None => "<unknown>",
            };
            concat_str("alisp error: name - 未定義のシンボル ", name)
        },
        EvalErrorKind::ArityMismatch { expected, found } => {
            let a = concat_str("alisp error: arity - 引数 ", usize_to_string(*expected).as_str());
            let b = concat_str(a.as_str(), " 個に対して ");
            let c = concat_str(b.as_str(), usize_to_string(*found).as_str());
            concat_str(c.as_str(), " 個が渡されました")
        },
        EvalErrorKind::TypeMismatch { expected, found } => {
            let a = concat_str("alisp error: type - ", expected);
            let b = concat_str(a.as_str(), " が必要ですが ");
            let c = concat_str(b.as_str(), found);
            concat_str(c.as_str(), " が渡されました")
        },
        EvalErrorKind::DivisionByZero => owned("alisp error: runtime - 0 で除算できません"),
        EvalErrorKind::InvalidLetBinding => owned("alisp error: syntax - let の束縛が不正です"),
        EvalErrorKind::InvalidDefineTarget => owned("alisp error: syntax - define の左辺が不正です"),
        EvalErrorKind::Reader(reader) => concat_str("alisp error: reader - ", reader.message.as_str()),
        EvalErrorKind::Runtime(msg) => concat_str("alisp error: runtime - ", msg.as_str()),
    }
}

/// What the minibuffer shows for the result of evaluating an expression:
/// a value's display after `=> ` with the messages printed on the way, or
/// the error's message.
pub fn eval_outcome(result: Result<(String, Vec<String>), EvalError>, interner: &SymbolInterner) -> (r:
    MinibufferOutcome)
    ensures
        match result {
            Ok((display, messages)) => r.output@ == "=> "@ + display@ && r.messages@ == messages@ && !r.is_error,
            Err(e) => r.output@ == eval_error_text(e.kind, interner@) && r.messages@.len() == 0 && r.is_error,
        },
{
    match result {
        Ok((display, messages)) => MinibufferOutcome {
            output: concat_str("=> ", display.as_str()),
            messages,
            is_error: false,
        },
        Err(err) => MinibufferOutcome {
            output: format_eval_error(&err, interner),
            messages: Vec::new(),
            is_error: true,
        },
    }
}

} // verus!
