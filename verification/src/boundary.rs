//! Values of the scripting host, as far as the conversions read them.
//!
//! A boundary value has no static type. It may or may not be an object, may
//! or may not answer the identity accessor, and may or may not carry a
//! handle. The types here record what each of those reads gives; the checks
//! themselves are in `downcast`.

use vstd::prelude::*;

verus! {

/// What calling the identity accessor with no arguments gives.
#[derive(Clone, Debug, PartialEq, Eq)]
pub enum Invocation {
    /// The call failed.
    Failed,
    /// The call returned something that is no string.
    NonString,
    /// The call returned this tag.
    Tag(String),
}

/// What is found under the identity accessor's property.
#[derive(Clone, Debug, PartialEq, Eq)]
pub enum Accessor {
    /// The property is absent, or could not be read.
    Absent,
    /// The property holds something that cannot be called; `found` describes it.
    NotCallable { found: String },
    /// The property holds a function, and calling it gives this.
    Callable(Invocation),
}

/// What is found under the handle's property.
#[derive(Clone, Debug, PartialEq, Eq)]
pub enum HandleProperty {
    /// Reading the property failed; `reason` describes the failure.
    Unreadable { reason: String },
    /// The property is absent.
    Absent,
    /// The property holds something that is no number.
    NonNumeric,
    /// The property holds this number, given by the 64 bits of the double.
    Number(u64),
}

/// One value of the scripting host.
#[derive(Clone, Debug, PartialEq, Eq)]
pub struct BoundaryValue {
    /// The value is an object, and not the null value.
    pub object_like: bool,
    /// What its identity accessor gives.
    pub accessor: Accessor,
    /// What its handle property gives.
    pub handle: HandleProperty,
}

/// A value of the scripting host that is held as an indexed collection of the
/// declared array type.
#[derive(Clone, Debug, PartialEq, Eq)]
pub struct BoundaryArray {
    /// The name of the array type that the value is declared to have.
    pub array_type: String,
    /// Its elements in index order, or `None` where the value is no array.
    pub elements: Option<Vec<BoundaryValue>>,
}

/// The mathematical value of an `Invocation`.
pub enum InvocationView {
    Failed,
    NonString,
    Tag(Seq<char>),
}

/// The mathematical value of an `Accessor`.
pub enum AccessorView {
    Absent,
    NotCallable { found: Seq<char> },
    Callable(InvocationView),
}

/// The mathematical value of a `HandleProperty`.
pub enum HandlePropertyView {
    Unreadable { reason: Seq<char> },
    Absent,
    NonNumeric,
    Number(u64),
}

/// The mathematical value of a `BoundaryValue`.
pub struct BoundaryValueView {
    pub object_like: bool,
    pub accessor: AccessorView,
    pub handle: HandlePropertyView,
}

/// The mathematical value of a `BoundaryArray`.
pub struct BoundaryArrayView {
    pub array_type: Seq<char>,
    pub elements: Option<Seq<BoundaryValueView>>,
}

impl View for Invocation {
    type V = InvocationView;

    open spec fn view(&self) -> InvocationView {
        match self {
            Invocation::Failed => InvocationView::Failed,
            Invocation::NonString => InvocationView::NonString,
            Invocation::Tag(tag) => InvocationView::Tag(tag@),
        }
    }
}

impl View for Accessor {
    type V = AccessorView;

    open spec fn view(&self) -> AccessorView {
        match self {
            Accessor::Absent => AccessorView::Absent,
            Accessor::NotCallable { found } => AccessorView::NotCallable { found: found@ },
            Accessor::Callable(invocation) => AccessorView::Callable(invocation@),
        }
    }
}

impl View for HandleProperty {
    type V = HandlePropertyView;

    open spec fn view(&self) -> HandlePropertyView {
        match self {
            HandleProperty::Unreadable { reason } => HandlePropertyView::Unreadable {
                reason: reason@,
            },
            HandleProperty::Absent => HandlePropertyView::Absent,
            HandleProperty::NonNumeric => HandlePropertyView::NonNumeric,
            HandleProperty::Number(bits) => HandlePropertyView::Number(*bits),
        }
    }
}

impl View for BoundaryValue {
    type V = BoundaryValueView;

    open spec fn view(&self) -> BoundaryValueView {
        BoundaryValueView {
            object_like: self.object_like,
            accessor: self.accessor@,
            handle: self.handle@,
        }
    }
}

/// The values of a sequence of boundary values, one for one.
pub open spec fn views(values: Seq<BoundaryValue>) -> Seq<BoundaryValueView> {
    Seq::new(values.len(), |i: int| values[i]@)
}

impl View for BoundaryArray {
    type V = BoundaryArrayView;

    open spec fn view(&self) -> BoundaryArrayView {
        BoundaryArrayView {
            array_type: self.array_type@,
            elements: match self.elements {
                Some(values) => Some(views(values@)),
                None => None,
            },
        }
    }
}

} // verus!
