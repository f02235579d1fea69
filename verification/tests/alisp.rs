use altre::alisp::error::{EvalError, EvalErrorKind, ReaderError, ReaderErrorKind, SourceSpan};
use altre::alisp::integration::{eval_outcome, format_eval_error};
use altre::alisp::symbol::SymbolInterner;

#[test]
fn interning_gives_stable_ids() {
    let mut interner = SymbolInterner::new();
    let a = interner.intern("car");
    let b = interner.intern("cdr");
    let a2 = interner.intern("car");
    assert_eq!(a, a2);
    assert_ne!(a, b);
    assert_eq!(a.index(), 0);
    assert_eq!(b.index(), 1);
    assert_eq!(interner.resolve(a), Some("car"));
    assert_eq!(interner.resolve(b), Some("cdr"));
}

#[test]
fn reader_errors_become_eval_errors() {
    let span = SourceSpan::single_point(3, 7);
    assert_eq!(span.start, span.end);
    let reader = ReaderError::new(ReaderErrorKind::UnexpectedEof, span, "unexpected end");
    assert_eq!(reader.describe(), "reader error at 3:7 - unexpected end");
    let eval = EvalError::from_reader(reader.clone());
    assert_eq!(eval.span, Some(span));
    assert_eq!(eval.message, "unexpected end");
    assert_eq!(eval.kind, EvalErrorKind::Reader(reader));
    assert_eq!(eval.describe(), "3:7: unexpected end");
    let plain = EvalError::new(EvalErrorKind::DivisionByZero, None, "oops");
    assert_eq!(plain.describe(), "oops");
}

#[test]
fn eval_errors_are_formatted_for_the_minibuffer() {
    let mut interner = SymbolInterner::new();
    let foo = interner.intern("foo");
    let e = EvalError::new(EvalErrorKind::NameNotFound(foo), None, "");
    assert_eq!(format_eval_error(&e, &interner), "alisp error: name - 未定義のシンボル foo");
    let e = EvalError::new(EvalErrorKind::ArityMismatch { expected: 2, found: 3 }, None, "");
    assert_eq!(format_eval_error(&e, &interner), "alisp error: arity - 引数 2 個に対して 3 個が渡されました");
    let e = EvalError::new(EvalErrorKind::TypeMismatch { expected: "number", found: "string" }, None, "");
    assert_eq!(format_eval_error(&e, &interner), "alisp error: type - number が必要ですが string が渡されました");
    let e = EvalError::new(EvalErrorKind::Runtime("bad".to_string()), None, "");
    assert_eq!(format_eval_error(&e, &interner), "alisp error: runtime - bad");
    let other = SymbolInterner::new();
    let e = EvalError::new(EvalErrorKind::NameNotFound(foo), None, "");
    assert_eq!(format_eval_error(&e, &other), "alisp error: name - 未定義のシンボル <unknown>");
}

#[test]
fn evaluation_outcomes_for_the_minibuffer() {
    let interner = SymbolInterner::new();
    let ok = eval_outcome(Ok(("3".to_string(), vec!["hi".to_string()])), &interner);
    assert_eq!(ok.output, "=> 3");
    assert_eq!(ok.messages, vec!["hi".to_string()]);
    assert!(!ok.is_error);
    let err = EvalError { kind: EvalErrorKind::DivisionByZero, span: None, message: String::new() };
    let failed = eval_outcome(Err(err), &interner);
    assert_eq!(failed.output, "alisp error: runtime - 0 で除算できません");
    assert!(failed.messages.is_empty());
    assert!(failed.is_error);
}
