//! Validators: predicates on values, asked about stored and about freshly
//! produced values.

use crate::error::CachifiedError;
use std::marker::PhantomData;
use vstd::prelude::*;

verus! {

/// What a validator's answer holds against the value: `None` where it accepted
/// the value, else the text of its error.
pub open spec fn objection_of(answer: Result<(), CachifiedError>) -> Option<Seq<char>> {
    match answer {
        Ok(_) => None,
        Err(error) => Some(error.text()),
    }
}

/// A predicate on values of type `T`.
///
/// A validator is a pure predicate: what it answers depends on the validator
/// and the value alone. [`CheckValue::objection`] names that answer, and
/// `check` returns it.
pub trait CheckValue<T> {
    /// What the validator holds against `value`: `None` where it accepts the
    /// value, else the text of the error it answers with.
    spec fn objection(&self, value: &T) -> Option<Seq<char>>;

    /// Asks the validator about `value`: `Ok` where it accepts the value, else
    /// an error.
    fn check(&self, value: &T) -> (answer: Result<(), CachifiedError>)
        ensures
            objection_of(answer) == self.objection(value),
    ;
}

/// Whether `func` can stand as a validator: it can be called on every value,
/// and on one value it always answers alike.
pub open spec fn is_predicate<T, F: Fn(&T) -> Result<(), CachifiedError>>(func: F) -> bool {
    &&& forall|value: &T| #[trigger] call_requires(func, (value,))
    &&& forall|value: &T, a: Result<(), CachifiedError>, b: Result<(), CachifiedError>|
        #[trigger] call_ensures(func, (value,), a) && #[trigger] call_ensures(func, (value,), b)
            ==> objection_of(a) == objection_of(b)
}

/// A validator made of a function.
pub struct FunctionValidator<T, F: Fn(&T) -> Result<(), CachifiedError>> {
    func: F,
    marker: PhantomData<T>,
}

impl<T, F: Fn(&T) -> Result<(), CachifiedError>> FunctionValidator<T, F> {
    #[verifier::type_invariant]
    spec fn well_formed(self) -> bool {
        is_predicate::<T, F>(self.func)
    }

    /// The function that the validator asks.
    pub closed spec fn func(&self) -> F {
        self.func
    }

    /// A validator that answers what `func` answers.
    pub fn new(func: F) -> (v: Self)
        requires
            is_predicate::<T, F>(func),
        ensures
            v.func() == func,
    {
        FunctionValidator { func, marker: PhantomData }
    }
}

impl<T, F: Fn(&T) -> Result<(), CachifiedError>> CheckValue<T> for FunctionValidator<T, F> {
    open spec fn objection(&self, value: &T) -> Option<Seq<char>> {
        objection_of(
            choose|answer: Result<(), CachifiedError>| call_ensures(self.func(), (value,), answer),
        )
    }

    fn check(&self, value: &T) -> (answer: Result<(), CachifiedError>) {
        proof {
            use_type_invariant(self);
        }
        let answer = (self.func)(value);
        proof {
            let chosen = choose|other: Result<(), CachifiedError>|
                call_ensures(self.func(), (value,), other);
            assert(call_ensures(self.func(), (value,), chosen));
        }
        answer
    }
}

/// A validator that accepts every value.
pub struct NoValidator;

impl<T> CheckValue<T> for NoValidator {
    open spec fn objection(&self, value: &T) -> Option<Seq<char>> {
        None
    }

    fn check(&self, value: &T) -> (answer: Result<(), CachifiedError>) {
        Ok(())
    }
}

/// A validator of optional values that accepts those that are present.
pub struct NonNullValidator;

impl<T> CheckValue<Option<T>> for NonNullValidator {
    open spec fn objection(&self, value: &Option<T>) -> Option<Seq<char>> {
        match value {
            Some(_) => None,
            None => Some("Value is None"@),
        }
    }

    fn check(&self, value: &Option<T>) -> (answer: Result<(), CachifiedError>)
        ensures
            answer matches Err(error) ==> error is ValidationError,
    {
        match value {
            Some(_) => Ok(()),
            None => Err(CachifiedError::validation("Value is None")),
        }
    }
}

/// A validator of strings that accepts those that are not empty.
pub struct NonEmptyStringValidator;

impl CheckValue<String> for NonEmptyStringValidator {
    open spec fn objection(&self, value: &String) -> Option<Seq<char>> {
        if value@.len() == 0 {
            Some("String is empty"@)
        } else {
            None
        }
    }

    fn check(&self, value: &String) -> (answer: Result<(), CachifiedError>)
        ensures
            answer matches Err(error) ==> error is ValidationError,
    {
        if value.as_str().is_empty() {
            Err(CachifiedError::validation("String is empty"))
        } else {
            Ok(())
        }
    }
}

impl<'a> CheckValue<&'a str> for NonEmptyStringValidator {
    open spec fn objection(&self, value: &&'a str) -> Option<Seq<char>> {
        if value@.len() == 0 {
            Some("String is empty"@)
        } else {
            None
        }
    }

    fn check(&self, value: &&'a str) -> (answer: Result<(), CachifiedError>)
        ensures
            answer matches Err(error) ==> error is ValidationError,
    {
        if value.is_empty() {
            Err(CachifiedError::validation("String is empty"))
        } else {
            Ok(())
        }
    }
}

/// A validator that answers what `func` answers.
pub fn validator<T, F>(func: F) -> (v: FunctionValidator<T, F>) where
    F: Fn(&T) -> Result<(), CachifiedError>,

    requires
        is_predicate::<T, F>(func),
    ensures
        v.func() == func,
{
    FunctionValidator::new(func)
}

} // verus!
