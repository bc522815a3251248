//! The failures of a conversion, and the descriptions they carry.
//!
//! Every failure is handed to the caller; none is retried and none is
//! swallowed. Each one can be written out as a text for the host.

use vstd::prelude::*;
use vstd::string::*;
use crate::text::{lemma_names_middle, names};

verus! {

/// Why a single boundary value could not be brought back as a native value.
#[derive(Clone, Debug, PartialEq, Eq)]
pub enum DowncastError {
    /// The value is no object. `expected` is the type that was asked for.
    NotAnObject { expected: String },
    /// The identity accessor is absent (`found` is `None`), or what stands
    /// under its name cannot be called (`found` describes it).
    MissingIdentityAccessor { found: Option<String> },
    /// Calling the identity accessor failed, or gave no string.
    IdentityRetrievalFailed,
    /// The value is tagged as `actual`, which is not the type `expected` that
    /// was asked for.
    TypeMismatch { actual: String, expected: String },
    /// The handle is absent (`reason` is `None`), or could not be read
    /// (`reason` describes the failure).
    MissingHandle { reason: Option<String> },
    /// The handle is no number (`handle` is `None`), or it is the number
    /// `handle` and no live instance of `expected` has it.
    InvalidHandle { expected: String, handle: Option<u32> },
}

/// Why a collection could not be brought across.
#[derive(Clone, Debug, PartialEq, Eq)]
pub enum BulkError {
    /// The source is no array.
    NotAnArray,
    /// The element at `index` failed with `error`; no element before it had
    /// failed.
    ElementConversionFailed { index: usize, error: DowncastError },
}

/// The mathematical value of a `DowncastError`.
pub enum DowncastErrorView {
    NotAnObject { expected: Seq<char> },
    MissingIdentityAccessor { found: Option<Seq<char>> },
    IdentityRetrievalFailed,
    TypeMismatch { actual: Seq<char>, expected: Seq<char> },
    MissingHandle { reason: Option<Seq<char>> },
    InvalidHandle { expected: Seq<char>, handle: Option<u32> },
}

/// The mathematical value of a `BulkError`.
pub enum BulkErrorView {
    NotAnArray,
    ElementConversionFailed { index: int, error: DowncastErrorView },
}

impl View for DowncastError {
    type V = DowncastErrorView;

    open spec fn view(&self) -> DowncastErrorView {
        match self {
            DowncastError::NotAnObject { expected } => DowncastErrorView::NotAnObject {
                expected: expected@,
            },
            DowncastError::MissingIdentityAccessor { found } => {
                DowncastErrorView::MissingIdentityAccessor {
                    found: match found {
                        Some(found) => Some(found@),
                        None => None,
                    },
                }
            },
            DowncastError::IdentityRetrievalFailed => DowncastErrorView::IdentityRetrievalFailed,
            DowncastError::TypeMismatch { actual, expected } => DowncastErrorView::TypeMismatch {
                actual: actual@,
                expected: expected@,
            },
            DowncastError::MissingHandle { reason } => DowncastErrorView::MissingHandle {
                reason: match reason {
                    Some(reason) => Some(reason@),
                    None => None,
                },
            },
            DowncastError::InvalidHandle { expected, handle } => DowncastErrorView::InvalidHandle {
                expected: expected@,
                handle: *handle,
            },
        }
    }
}

impl View for BulkError {
    type V = BulkErrorView;

    open spec fn view(&self) -> BulkErrorView {
        match self {
            BulkError::NotAnArray => BulkErrorView::NotAnArray,
            BulkError::ElementConversionFailed { index, error } => {
                BulkErrorView::ElementConversionFailed { index: *index as int, error: error@ }
            },
        }
    }
}

impl DowncastErrorView {
    /// The description of the failure.
    pub open spec fn message(self) -> Seq<char> {
        match self {
            DowncastErrorView::NotAnObject { expected } => "Value supplied as "@ + expected
                + " is not an object"@,
            DowncastErrorView::MissingIdentityAccessor { found: None } =>
                "no __getClassname method specified for object; did you forget to derive TryFromJsObject for this type?"@,
            DowncastErrorView::MissingIdentityAccessor { found: Some(found) } =>
                "__getClassname is not a function, "@ + found,
            DowncastErrorView::IdentityRetrievalFailed => "Failed to get classname"@,
            DowncastErrorView::TypeMismatch { actual, expected } => "Cannot convert "@ + actual
                + " to "@ + expected,
            DowncastErrorView::MissingHandle { reason: Some(reason) } => reason,
            DowncastErrorView::MissingHandle { reason: None } => "JsValue(null)"@,
            DowncastErrorView::InvalidHandle { handle: None, .. } => "JsValue(null)"@,
            DowncastErrorView::InvalidHandle { expected, handle: Some(_) } =>
                "ptr does not refer to a live "@ + expected,
        }
    }
}

impl BulkErrorView {
    /// The description of the failure. A failed element is described as its
    /// own failure is.
    pub open spec fn message(self) -> Seq<char> {
        match self {
            BulkErrorView::NotAnArray => "try_as_vec: argument wasn't an array type"@,
            BulkErrorView::ElementConversionFailed { error, .. } => error.message(),
        }
    }
}

impl DowncastError {
    /// Writes the failure out for the host.
    pub fn message(&self) -> (text: String)
        ensures
            text@ == self@.message(),
    {
        match self {
            DowncastError::NotAnObject { expected } => {
                let mut text = String::from_str("Value supplied as ");
                text.append(expected.as_str());
                text.append(" is not an object");
                text
            },
            DowncastError::MissingIdentityAccessor { found: None } => String::from_str(
                "no __getClassname method specified for object; did you forget to derive TryFromJsObject for this type?",
            ),
            DowncastError::MissingIdentityAccessor { found: Some(found) } => {
                let mut text = String::from_str("__getClassname is not a function, ");
                text.append(found.as_str());
                text
            },
            DowncastError::IdentityRetrievalFailed => String::from_str("Failed to get classname"),
            DowncastError::TypeMismatch { actual, expected } => {
                let mut text = String::from_str("Cannot convert ");
                text.append(actual.as_str());
                text.append(" to ");
                text.append(expected.as_str());
                text
            },
            DowncastError::MissingHandle { reason: Some(reason) } => reason.clone(),
            DowncastError::MissingHandle { reason: None } => String::from_str("JsValue(null)"),
            DowncastError::InvalidHandle { handle: None, .. } => String::from_str("JsValue(null)"),
            DowncastError::InvalidHandle { expected, handle: Some(_) } => {
                let mut text = String::from_str("ptr does not refer to a live ");
                text.append(expected.as_str());
                text
            },
        }
    }
}

impl BulkError {
    /// Writes the failure out for the host.
    pub fn message(&self) -> (text: String)
        ensures
            text@ == self@.message(),
    {
        match self {
            BulkError::NotAnArray => String::from_str("try_as_vec: argument wasn't an array type"),
            BulkError::ElementConversionFailed { error, .. } => error.message(),
        }
    }
}

/// The description of a mismatch names both types: the one that the value is
/// tagged as and the one that was asked for.
pub proof fn lemma_mismatch_names_both(actual: Seq<char>, expected: Seq<char>)
    ensures
        names((DowncastErrorView::TypeMismatch { actual, expected }).message(), actual),
        names((DowncastErrorView::TypeMismatch { actual, expected }).message(), expected),
{
    let head = "Cannot convert "@;
    let link = " to "@;
    let text = head + actual + link + expected;
    lemma_names_middle(head, actual, link + expected);
    assert(text =~= head + actual + (link + expected));
    lemma_names_middle(head + actual + link, expected, Seq::<char>::empty());
    assert(text =~= head + actual + link + expected + Seq::<char>::empty());
}

/// The description of a value that is no object names the type that was
/// asked for.
pub proof fn lemma_not_an_object_names_expected(expected: Seq<char>)
    ensures
        names((DowncastErrorView::NotAnObject { expected }).message(), expected),
{
    lemma_names_middle("Value supplied as "@, expected, " is not an object"@);
}

} // verus!
