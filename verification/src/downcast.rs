//! The checks of a single downcast, up to the handle.
//!
//! A boundary value stands for an instance of an exported type only if it is
//! an object, answers the identity accessor, answers it with exactly the name
//! of that type, and carries a numeric handle. The checks are made in this
//! order, and the first one that fails decides the failure.
//!
//! Each check reads the value once. Whoever holds the value itself makes the
//! reads one at a time and is told after each what comes next (`Step`), so
//! that nothing is read of a value that has already failed. `read_handle`
//! makes the same checks on a value whose reads are all at hand.

use vstd::prelude::*;
use vstd::string::*;
use crate::boundary::{
    Accessor, AccessorView, BoundaryValue, BoundaryValueView, HandleProperty, HandlePropertyView,
    Invocation, InvocationView,
};
use crate::error::{DowncastError, DowncastErrorView};
use crate::number::{handle_from_number, handle_of_number};
use crate::text::same_text;

verus! {

/// The property under which a boundary object offers its identity accessor,
/// a method without arguments.
pub const ACCESSOR_PROPERTY: &'static str = "__getClassname";

/// The property under which a boundary object carries its handle.
pub const HANDLE_PROPERTY: &'static str = "ptr";

/// What the checks make of a value that is asked for as the type `expected`:
/// the handle it carries, or the first failure.
pub open spec fn handle_of(js: BoundaryValueView, expected: Seq<char>) -> Result<
    u32,
    DowncastErrorView,
> {
    if !js.object_like {
        Err(DowncastErrorView::NotAnObject { expected })
    } else {
        match js.accessor {
            AccessorView::Absent => Err(DowncastErrorView::MissingIdentityAccessor { found: None }),
            AccessorView::NotCallable { found } => Err(
                DowncastErrorView::MissingIdentityAccessor { found: Some(found) },
            ),
            AccessorView::Callable(InvocationView::Failed) => Err(
                DowncastErrorView::IdentityRetrievalFailed,
            ),
            AccessorView::Callable(InvocationView::NonString) => Err(
                DowncastErrorView::IdentityRetrievalFailed,
            ),
            AccessorView::Callable(InvocationView::Tag(actual)) => if actual != expected {
                Err(DowncastErrorView::TypeMismatch { actual, expected })
            } else {
                match js.handle {
                    HandlePropertyView::Unreadable { reason } => Err(
                        DowncastErrorView::MissingHandle { reason: Some(reason) },
                    ),
                    HandlePropertyView::Absent => Err(
                        DowncastErrorView::MissingHandle { reason: None },
                    ),
                    HandlePropertyView::NonNumeric => Err(
                        DowncastErrorView::InvalidHandle { expected, handle: None },
                    ),
                    HandlePropertyView::Number(bits) => Ok(handle_of_number(bits)),
                }
            },
        }
    }
}

/// What a downcast does next.
#[derive(Debug, PartialEq, Eq)]
pub enum Step {
    /// Look up the identity accessor and, where it can be called, call it.
    ReadAccessor,
    /// Read the handle property.
    ReadHandle,
    /// Read nothing more: this is the handle, or the failure.
    Done(Result<u32, DowncastError>),
}

/// The mathematical value of a `Step`.
pub enum StepView {
    ReadAccessor,
    ReadHandle,
    Done(Result<u32, DowncastErrorView>),
}

impl View for Step {
    type V = StepView;

    open spec fn view(&self) -> StepView {
        match self {
            Step::ReadAccessor => StepView::ReadAccessor,
            Step::ReadHandle => StepView::ReadHandle,
            Step::Done(Ok(handle)) => StepView::Done(Ok(*handle)),
            Step::Done(Err(error)) => StepView::Done(Err(error@)),
        }
    }
}

/// The step after the test whether the value is an object.
pub open spec fn after_object(object_like: bool, expected: Seq<char>) -> StepView {
    if object_like {
        StepView::ReadAccessor
    } else {
        StepView::Done(Err(DowncastErrorView::NotAnObject { expected }))
    }
}

/// The step after the identity accessor has been looked up and called.
pub open spec fn after_accessor(accessor: AccessorView, expected: Seq<char>) -> StepView {
    match accessor {
        AccessorView::Absent => StepView::Done(
            Err(DowncastErrorView::MissingIdentityAccessor { found: None }),
        ),
        AccessorView::NotCallable { found } => StepView::Done(
            Err(DowncastErrorView::MissingIdentityAccessor { found: Some(found) }),
        ),
        AccessorView::Callable(InvocationView::Failed) => StepView::Done(
            Err(DowncastErrorView::IdentityRetrievalFailed),
        ),
        AccessorView::Callable(InvocationView::NonString) => StepView::Done(
            Err(DowncastErrorView::IdentityRetrievalFailed),
        ),
        AccessorView::Callable(InvocationView::Tag(actual)) => if actual == expected {
            StepView::ReadHandle
        } else {
            StepView::Done(Err(DowncastErrorView::TypeMismatch { actual, expected }))
        },
    }
}

/// The step after the handle property has been read: always the last.
pub open spec fn after_handle(handle: HandlePropertyView, expected: Seq<char>) -> StepView {
    StepView::Done(
        match handle {
            HandlePropertyView::Unreadable { reason } => Err(
                DowncastErrorView::MissingHandle { reason: Some(reason) },
            ),
            HandlePropertyView::Absent => Err(DowncastErrorView::MissingHandle { reason: None }),
            HandlePropertyView::NonNumeric => Err(
                DowncastErrorView::InvalidHandle { expected, handle: None },
            ),
            HandlePropertyView::Number(bits) => Ok(handle_of_number(bits)),
        },
    )
}

/// The reads of a value, made one after the other for as long as the steps
/// ask for them, end in what `handle_of` says of the value.
pub proof fn lemma_steps_end_in_handle_of(js: BoundaryValueView, expected: Seq<char>)
    ensures
        after_object(js.object_like, expected) is ReadAccessor || after_object(
            js.object_like,
            expected,
        ) == StepView::Done(handle_of(js, expected)),
        after_object(js.object_like, expected) is ReadAccessor ==> after_accessor(
            js.accessor,
            expected,
        ) is ReadHandle || after_accessor(js.accessor, expected) == StepView::Done(
            handle_of(js, expected),
        ),
        after_object(js.object_like, expected) is ReadAccessor && after_accessor(
            js.accessor,
            expected,
        ) is ReadHandle ==> after_handle(js.handle, expected) == StepView::Done(
            handle_of(js, expected),
        ),
{
}

/// Decides what follows the test whether the value is an object.
pub fn on_object(object_like: bool, expected: &str) -> (step: Step)
    ensures
        step@ == after_object(object_like, expected@),
{
    if object_like {
        Step::ReadAccessor
    } else {
        Step::Done(Err(DowncastError::NotAnObject { expected: String::from_str(expected) }))
    }
}

/// Decides what follows the look-up and the call of the identity accessor.
pub fn on_accessor(accessor: &Accessor, expected: &str) -> (step: Step)
    ensures
        step@ == after_accessor(accessor@, expected@),
{
    match accessor {
        Accessor::Absent => Step::Done(
            Err(DowncastError::MissingIdentityAccessor { found: None }),
        ),
        Accessor::NotCallable { found } => Step::Done(
            Err(DowncastError::MissingIdentityAccessor { found: Some(found.clone()) }),
        ),
        Accessor::Callable(Invocation::Failed) => Step::Done(
            Err(DowncastError::IdentityRetrievalFailed),
        ),
        Accessor::Callable(Invocation::NonString) => Step::Done(
            Err(DowncastError::IdentityRetrievalFailed),
        ),
        Accessor::Callable(Invocation::Tag(actual)) => {
            if same_text(actual.as_str(), expected) {
                Step::ReadHandle
            } else {
                Step::Done(
                    Err(
                        DowncastError::TypeMismatch {
                            actual: actual.clone(),
                            expected: String::from_str(expected),
                        },
                    ),
                )
            }
        },
    }
}

/// Decides what follows the read of the handle property: the handle that the
/// number stands for, or the failure.
pub fn on_handle(handle: &HandleProperty, expected: &str) -> (step: Step)
    ensures
        step@ == after_handle(handle@, expected@),
{
    Step::Done(
        match handle {
            HandleProperty::Unreadable { reason } => Err(
                DowncastError::MissingHandle { reason: Some(reason.clone()) },
            ),
            HandleProperty::Absent => Err(DowncastError::MissingHandle { reason: None }),
            HandleProperty::NonNumeric => Err(
                DowncastError::InvalidHandle { expected: String::from_str(expected), handle: None },
            ),
            HandleProperty::Number(bits) => Ok(handle_from_number(*bits)),
        },
    )
}

/// Makes the checks of a downcast to the type `expected` on a value whose
/// reads are all at hand, and gives the handle that the value carries. The
/// value itself is left as it is.
pub fn read_handle(js: &BoundaryValue, expected: &str) -> (r: Result<u32, DowncastError>)
    ensures
        match r {
            Ok(handle) => handle_of(js@, expected@) == Ok::<u32, DowncastErrorView>(handle),
            Err(error) => handle_of(js@, expected@) == Err::<u32, DowncastErrorView>(error@),
        },
{
    let mut step = on_object(js.object_like, expected);
    if let Step::ReadAccessor = step {
        step = on_accessor(&js.accessor, expected);
    }
    if let Step::ReadHandle = step {
        step = on_handle(&js.handle, expected);
    }
    match step {
        Step::Done(r) => r,
        _ => Err(DowncastError::IdentityRetrievalFailed),
    }
}

} // verus!
