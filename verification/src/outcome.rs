use vstd::prelude::*;

verus! {

/// The value of `result`, or, where it failed, `None` with its error kept at
/// the end of `errors`: a failed visitor call stops the work at hand, and its
/// error is reported once the whole style sheet was walked.
pub fn record_error<T, E>(result: Result<T, E>, errors: &mut Vec<E>) -> (res: Option<T>)
    ensures
        match result {
            Ok(v) => res == Some(v) && final(errors)@ == old(errors)@,
            Err(e) => res is None && final(errors)@ == old(errors)@.push(e),
        },
{
    match result {
        Ok(v) => Some(v),
        Err(e) => {
            errors.push(e);
            None
        },
    }
}

/// Applies what a visitor handed back for a single value: a new value takes the
/// place of `value`, no value leaves it as it is, and an error is kept at the
/// end of `errors`, leaving `value` as it is.
pub fn apply_answer<V, E>(value: &mut V, answer: Result<Option<V>, E>, errors: &mut Vec<E>)
    ensures
        match answer {
            Ok(Some(v)) => *final(value) == v && final(errors)@ == old(errors)@,
            Ok(None) => *final(value) == *old(value) && final(errors)@ == old(errors)@,
            Err(e) => *final(value) == *old(value) && final(errors)@ == old(errors)@.push(e),
        },
{
    match answer {
        Ok(Some(v)) => {
            *value = v;
        },
        Ok(None) => {},
        Err(e) => {
            errors.push(e);
        },
    }
}

} // verus!
