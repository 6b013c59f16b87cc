//! Unwrap-or-abort evaluation of fallible steps.
//!
//! A *yolo* evaluation runs a sequence of fallible steps and treats every
//! failure as fatal: the first step that fails ends the evaluation with a
//! [`YoloError`] carrying a diagnostic message, and a run in which every
//! step succeeds produces the same value it would have if each step had
//! simply been unwrapped. The message always reads
//! `YOLO'd an error: ` followed by the failing step's payload text, and a
//! caller that wants the original abort-on-failure behaviour panics with
//! that message instead of handling the error.

use vstd::prelude::*;

verus! {

/// The outcome of a failed yolo evaluation.
///
/// A value of this type is only ever built on the abort path, from the
/// first failing step of an evaluation; its message is meant to be the
/// text the process dies with.
#[derive(Debug, PartialEq, Eq)]
pub enum YoloError {
    /// The evaluation hit a failing step; the message names its payload.
    Aborted { message: String },
}

/// The fixed prefix of every abort message.
pub open spec fn abort_prefix() -> Seq<char> {
    "YOLO'd an error: "@
}

/// The abort message for a failure payload rendered as `payload`.
pub open spec fn abort_message(payload: Seq<char>) -> Seq<char> {
    abort_prefix() + payload
}

/// Relies on `String::push_str`: appends the slice's characters to the
/// end of the string.
#[verifier::external_body]
fn push_str(dst: &mut String, suffix: &str)
    ensures
        final(dst)@ == old(dst)@ + suffix@,
{
    dst.push_str(suffix)
}

/// Builds the abort message for a failure payload: the fixed prefix
/// followed by the payload text.
pub fn make_abort_message(payload: &str) -> (m: String)
    ensures
        m@ == abort_message(payload@),
{
    let mut m = "YOLO'd an error: ".to_owned();
    push_str(&mut m, payload);
    m
}

/// Evaluates one fallible step whose failure payload is already rendered
/// as text: a success passes through unchanged, a failure becomes the
/// abort outcome whose message embeds the payload.
pub fn yolo_step<T>(step: Result<T, String>) -> (out: Result<T, YoloError>)
    ensures
        step matches Ok(v) ==> out == Result::<T, YoloError>::Ok(v),
        step matches Err(p) ==> (out matches Err(e)
            && e->message@ == abort_message(p@)),
{
    match step {
        Result::Ok(v) => Result::Ok(v),
        Result::Err(p) => Result::Err(YoloError::Aborted { message: make_abort_message(p.as_str()) }),
    }
}

/// Relies on `format!("{:?}", ..)`: renders the failure payload with its
/// own debug formatting. Nothing is assumed of the resulting text.
#[verifier::external_body]
fn debug_payload<E: core::fmt::Debug>(payload: &E) -> String {
    format!("{:?}", payload)
}

/// Renders a step's failure payload, of any type with a debug
/// representation, as text; the success value passes through unchanged.
pub fn render_step<T, E: core::fmt::Debug>(step: Result<T, E>) -> (out: Result<T, String>)
    ensures
        step matches Ok(v) ==> out == Result::<T, String>::Ok(v),
        step is Err ==> out is Err,
{
    match step {
        Result::Ok(v) => Result::Ok(v),
        Result::Err(p) => Result::Err(debug_payload(&p)),
    }
}

/// The failure payload text for an absent optional value.
pub open spec fn none_payload() -> Seq<char> {
    "NoneError"@
}

/// Evaluates one step that yields an optional value: a present value
/// passes through, an absent one fails with the [`none_payload`] text.
pub fn option_step<T>(step: Option<T>) -> (out: Result<T, String>)
    ensures
        step matches Some(v) ==> out == Result::<T, String>::Ok(v),
        step is None ==> (out matches Err(p) && p@ == none_payload()),
{
    match step {
        Option::Some(v) => Result::Ok(v),
        Option::None => Result::Err("NoneError".to_owned()),
    }
}

/// An abort message is exactly the fixed prefix followed by the payload:
/// it begins with the prefix, and what follows the prefix is the payload.
pub proof fn lemma_abort_message_shape(payload: Seq<char>)
    ensures
        abort_message(payload).len() == abort_prefix().len() + payload.len(),
        abort_prefix().is_prefix_of(abort_message(payload)),
        abort_message(payload).skip(abort_prefix().len() as int) == payload,
{
    assert(abort_prefix() =~= abort_message(payload).subrange(
        0,
        abort_prefix().len() as int,
    ));
    assert(abort_message(payload).skip(abort_prefix().len() as int) =~= payload);
}

/// Evaluates one fallible step whose failure payload may be of any type
/// with a debug representation: a success passes through unchanged, a
/// failure becomes the abort outcome whose message embeds the payload's
/// rendered text.
pub fn yolo_try<T, E: core::fmt::Debug>(step: Result<T, E>) -> (out: Result<T, YoloError>)
    ensures
        step matches Ok(v) ==> out == Result::<T, YoloError>::Ok(v),
        step is Err ==> (out matches Err(e)
            && abort_prefix().is_prefix_of(e->message@)
            && (exists|p: Seq<char>| e->message@ == abort_message(p))),
{
    let rendered = render_step(step);
    let out = yolo_step(rendered);
    proof {
        if rendered is Err {
            lemma_abort_message_shape(rendered->Err_0@);
        }
    }
    out
}

/// Every step of the sequence succeeded.
pub open spec fn all_succeed<T>(steps: Seq<Result<T, String>>) -> bool {
    forall|i: int| 0 <= i < steps.len() ==> steps[i] is Ok
}

/// The success values of the steps, each step unconditionally unwrapped.
pub open spec fn success_values<T>(steps: Seq<Result<T, String>>) -> Seq<T> {
    steps.map_values(|step: Result<T, String>| step->Ok_0)
}

/// `k` is the position of the first failing step: it fails, and every
/// step before it succeeds.
pub open spec fn first_failure_at<T>(steps: Seq<Result<T, String>>, k: int) -> bool {
    &&& 0 <= k < steps.len()
    &&& steps[k] is Err
    &&& forall|j: int| 0 <= j < k ==> steps[j] is Ok
}

/// Runs a whole block of fallible steps in order. If every step
/// succeeds, the block's value is the sequence of their success values,
/// as if each step had been unwrapped. Otherwise the block aborts on the
/// first failing step, and the abort message embeds that step's payload;
/// the steps after it contribute nothing to the outcome.
pub fn run_yolo_block<T>(steps: Vec<Result<T, String>>) -> (out: Result<Vec<T>, YoloError>)
    ensures
        all_succeed(steps@) ==> (out matches Ok(values)
            && values@ == success_values(steps@)),
        !all_succeed(steps@) ==> (out matches Err(e)
            && exists|k: int|
                #[trigger] first_failure_at(steps@, k)
                && e->message@ == abort_message(steps@[k]->Err_0@)),
{
    let ghost orig: Seq<Result<T, String>> = steps@;
    let mut rest = steps;
    let mut values: Vec<T> = Vec::new();
    while rest.len() > 0
        invariant
            steps@ == orig,
            values@.len() + rest@.len() == orig.len(),
            rest@ == orig.skip(values@.len() as int),
            forall|j: int| #![trigger orig[j]]
                0 <= j < values@.len() ==> orig[j] is Ok && values@[j] == orig[j]->Ok_0,
        decreases rest@.len(),
    {
        let ghost done: int = values@.len() as int;
        let step = rest.remove(0);
        proof {
            assert(step == orig[done]);
            assert(rest@ =~= orig.skip(done + 1));
        }
        match step {
            Result::Ok(v) => {
                let ghost pre: Seq<T> = values@;
                proof {
                    assert(orig[done] is Ok && orig[done]->Ok_0 == v);
                }
                values.push(v);
                proof {
                    assert forall|j: int| #![trigger orig[j]]
                        0 <= j < values@.len() implies orig[j] is Ok
                        && values@[j] == orig[j]->Ok_0 by {
                        if j < done {
                            assert(pre[j] == orig[j]->Ok_0);
                        }
                    }
                }
            },
            Result::Err(p) => {
                proof {
                    assert(orig[done] is Err && orig[done]->Err_0 == p);
                    assert forall|j: int| 0 <= j < done implies orig[j] is Ok by {
                        assert(values@[j] == orig[j]->Ok_0);
                    }
                    assert(first_failure_at(orig, done));
                    assert(!all_succeed(orig));
                }
                let e = YoloError::Aborted { message: make_abort_message(p.as_str()) };
                return Result::Err(e);
            },
        }
    }
    proof {
        assert forall|i: int| 0 <= i < orig.len() implies orig[i] is Ok by {
            assert(values@[i] == orig[i]->Ok_0);
        }
        assert(all_succeed(orig));
        assert(values@ =~= success_values(orig));
    }
    Result::Ok(values)
}

} // verus!
