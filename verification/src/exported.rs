//! An exported type: its name, its live instances, and the conversions of its
//! values across the boundary, one by one and in bulk.
//!
//! Instances are owned on the native side. The boundary counterpart of an
//! instance only names it, by a handle; it is never the owner. A handle is a
//! number from 1 on, and 0 is the handle of nothing.

use vstd::prelude::*;
use vstd::string::*;
use crate::boundary::{
    Accessor, AccessorView, BoundaryArray, BoundaryArrayView, BoundaryValue, BoundaryValueView,
    HandleProperty, HandlePropertyView, Invocation, InvocationView, views,
};
use crate::downcast::{handle_of, read_handle};
use crate::error::{
    BulkError, BulkErrorView, DowncastError, DowncastErrorView, lemma_mismatch_names_both,
};
use crate::number::{
    handle_of_number, lemma_number_round_trip, number_from_handle, number_of_handle,
};
use crate::search::{first, is_first, lemma_first_is, lemma_first_is_none};
use crate::text::names;

verus! {

/// A native type whose values cross the boundary, with the instances that
/// have crossed it.
pub struct Exported<T> {
    name: String,
    array_type: String,
    instances: Vec<T>,
}

/// The mathematical value of an `Exported`.
pub struct ExportedView<T> {
    /// The name that the type is registered under: its identity tag.
    pub name: Seq<char>,
    /// The name of the array type declared as the counterpart of its sequences.
    pub array_type: Seq<char>,
    /// The live instances; the instance with the handle `h` stands at `h - 1`.
    pub instances: Seq<T>,
}

impl<T> View for Exported<T> {
    type V = ExportedView<T>;

    closed spec fn view(&self) -> ExportedView<T> {
        ExportedView { name: self.name@, array_type: self.array_type@, instances: self.instances@ }
    }
}

impl<T> ExportedView<T> {
    /// A live instance has this handle.
    pub open spec fn is_live(self, handle: u32) -> bool {
        1 <= handle <= self.instances.len()
    }

    /// The instance with this handle.
    pub open spec fn instance(self, handle: u32) -> T
        recommends
            self.is_live(handle),
    {
        self.instances[handle - 1]
    }

    /// The same type with one more instance, which gets the next handle.
    pub open spec fn with(self, value: T) -> Self {
        ExportedView { instances: self.instances.push(value), ..self }
    }

    /// The same type with more instances, which get the next handles in order.
    pub open spec fn with_all(self, values: Seq<T>) -> Self {
        ExportedView { instances: self.instances + values, ..self }
    }

    /// The boundary counterpart of the instance with this handle: an object
    /// whose accessor returns the type's name and which carries the handle as
    /// a number.
    pub open spec fn counterpart(self, handle: u32) -> BoundaryValueView {
        BoundaryValueView {
            object_like: true,
            accessor: AccessorView::Callable(InvocationView::Tag(self.name)),
            handle: HandlePropertyView::Number(number_of_handle(handle)),
        }
    }

    /// The boundary collection of the counterparts of `count` instances, the
    /// ones that follow the first `before`.
    pub open spec fn counterparts(self, before: nat, count: nat) -> BoundaryArrayView {
        BoundaryArrayView {
            array_type: self.array_type,
            elements: Some(Seq::new(count, |i: int| self.counterpart((before + i + 1) as u32))),
        }
    }

    /// The instance that a boundary value stands for, or why it stands for
    /// none.
    pub open spec fn recover(self, js: BoundaryValueView) -> Result<T, DowncastErrorView> {
        match handle_of(js, self.name) {
            Err(error) => Err(error),
            Ok(handle) => if self.is_live(handle) {
                Ok(self.instance(handle))
            } else {
                Err(DowncastErrorView::InvalidHandle { expected: self.name, handle: Some(handle) })
            },
        }
    }

    /// The boundary value stands for no instance of the type.
    pub open spec fn fails(self) -> spec_fn(BoundaryValueView) -> bool {
        |js: BoundaryValueView| self.recover(js) is Err
    }

    /// The instances that a boundary collection stands for, in its order, or
    /// why it stands for none: it is no array, or one of its elements stands
    /// for no instance, and then the first such element decides.
    pub open spec fn import(self, array: BoundaryArrayView) -> Result<Seq<T>, BulkErrorView> {
        match array.elements {
            None => Err(BulkErrorView::NotAnArray),
            Some(elements) => match first(elements, self.fails()) {
                Some(index) => Err(
                    BulkErrorView::ElementConversionFailed {
                        index,
                        error: self.recover(elements[index])->Err_0,
                    },
                ),
                None => Ok(Seq::new(elements.len(), |i: int| self.recover(elements[i])->Ok_0)),
            },
        }
    }
}

impl<T> Exported<T> {
    /// An exported type without instances.
    pub fn new(name: &str, array_type: &str) -> (exported: Self)
        ensures
            exported@ == (ExportedView::<T> {
                name: name@,
                array_type: array_type@,
                instances: Seq::empty(),
            }),
    {
        Exported {
            name: String::from_str(name),
            array_type: String::from_str(array_type),
            instances: Vec::new(),
        }
    }

    /// The identity tag of the type: the name it is registered under.
    pub fn get_classname(&self) -> (name: &str)
        ensures
            name@ == self@.name,
    {
        self.name.as_str()
    }

    /// The name of the declared array type.
    pub fn array_type(&self) -> (name: &str)
        ensures
            name@ == self@.array_type,
    {
        self.array_type.as_str()
    }

    /// The number of live instances, which is also the largest live handle.
    pub fn len(&self) -> (len: usize)
        ensures
            len == self@.instances.len(),
    {
        self.instances.len()
    }

    /// Takes a native value across the boundary: the value becomes a live
    /// instance, and its counterpart is returned.
    pub fn to_boundary(&mut self, value: T) -> (js: BoundaryValue)
        requires
            old(self)@.instances.len() < u32::MAX,
        ensures
            final(self)@ == old(self)@.with(value),
            js@ == final(self)@.counterpart(final(self)@.instances.len() as u32),
            final(self)@.recover(js@) == Ok::<T, DowncastErrorView>(value),
    {
        proof {
            self@.lemma_round_trip(value);
        }
        self.instances.push(value);
        let handle: u32 = self.instances.len() as u32;
        BoundaryValue {
            object_like: true,
            accessor: Accessor::Callable(Invocation::Tag(self.name.clone())),
            handle: HandleProperty::Number(number_from_handle(handle)),
        }
    }

    /// Finds the live instance that a boundary value stands for. The value is
    /// checked and left as it is; the instance is lent, not handed over.
    pub fn recover(&self, js: &BoundaryValue) -> (r: Result<&T, DowncastError>)
        ensures
            match r {
                Ok(instance) => self@.recover(js@) == Ok::<T, DowncastErrorView>(*instance),
                Err(error) => self@.recover(js@) == Err::<T, DowncastErrorView>(error@),
            },
    {
        match read_handle(js, self.name.as_str()) {
            Err(error) => Err(error),
            Ok(handle) => {
                if handle >= 1 && handle as usize <= self.instances.len() {
                    Ok(&self.instances[(handle - 1) as usize])
                } else {
                    Err(
                        DowncastError::InvalidHandle {
                            expected: self.name.clone(),
                            handle: Some(handle),
                        },
                    )
                }
            },
        }
    }

    /// Brings a boundary value back as a native value: checks that it stands
    /// for a live instance of this type, and clones that instance into a value
    /// of the caller's own.
    pub fn downcast(&self, js: &BoundaryValue) -> (r: Result<T, DowncastError>) where T: Clone
        ensures
            match r {
                Ok(value) => self@.recover(js@) is Ok && cloned(self@.recover(js@)->Ok_0, value),
                Err(error) => self@.recover(js@) == Err::<T, DowncastErrorView>(error@),
            },
    {
        match self.recover(js) {
            Ok(instance) => Ok(instance.clone()),
            Err(error) => Err(error),
        }
    }

    /// Takes a sequence of native values across the boundary and consumes it.
    /// The values become live instances in their order, and the collection of
    /// their counterparts is returned, as the declared array type. Nothing
    /// can fail here; the result is a `Result` as that of `try_as_vec` is.
    pub fn try_into_js_array(&mut self, values: Vec<T>) -> (r: Result<BoundaryArray, BulkError>)
        requires
            old(self)@.instances.len() + values@.len() <= u32::MAX,
        ensures
            final(self)@ == old(self)@.with_all(values@),
            r matches Ok(array) && array@ == final(self)@.counterparts(
                old(self)@.instances.len(),
                values@.len(),
            ) && final(self)@.import(array@) == Ok::<Seq<T>, BulkErrorView>(values@),
    {
        proof {
            self@.lemma_bulk_round_trip(values@);
        }
        let before = self.instances.len();
        let count = values.len();
        let mut values = values;
        self.instances.append(&mut values);
        Ok(self.counterparts_of(before, count))
    }

    /// Takes a borrowed sequence of native values across the boundary. A clone
    /// of each value becomes a live instance, in the order of the sequence,
    /// and the collection of their counterparts is returned, as the declared
    /// array type. Nothing can fail here.
    pub fn try_as_js_array(&mut self, values: &Vec<T>) -> (r: Result<
        BoundaryArray,
        BulkError,
    >) where T: Clone
        requires
            old(self)@.instances.len() + values@.len() <= u32::MAX,
        ensures
            final(self)@.name == old(self)@.name,
            final(self)@.array_type == old(self)@.array_type,
            final(self)@.instances.len() == old(self)@.instances.len() + values@.len(),
            final(self)@.instances.subrange(0, old(self)@.instances.len() as int) == old(
                self,
            )@.instances,
            forall|i: int|
                0 <= i < values@.len() ==> cloned(
                    values@[i],
                    #[trigger] final(self)@.instances[old(self)@.instances.len() + i],
                ),
            r matches Ok(array) && array@ == final(self)@.counterparts(
                old(self)@.instances.len(),
                values@.len(),
            ) && final(self)@.import(array@) == Ok::<Seq<T>, BulkErrorView>(
                final(self)@.instances.subrange(
                    old(self)@.instances.len() as int,
                    final(self)@.instances.len() as int,
                ),
            ),
    {
        let before = self.instances.len();
        let count = values.len();
        let mut i: usize = 0;
        while i < count
            invariant
                i <= count,
                count == values@.len(),
                before == old(self)@.instances.len(),
                before + count <= u32::MAX,
                self.name == old(self).name,
                self.array_type == old(self).array_type,
                self.instances@.len() == before + i,
                self.instances@.subrange(0, before as int) == old(self)@.instances,
                forall|j: int|
                    0 <= j < i ==> cloned(values@[j], #[trigger] self.instances@[before + j]),
            decreases count - i,
        {
            let ghost earlier = self.instances@;
            self.instances.push(values[i].clone());
            assert(self.instances@.subrange(0, before as int) =~= earlier.subrange(
                0,
                before as int,
            ));
            i = i + 1;
        }
        proof {
            let earlier = ExportedView {
                instances: self@.instances.subrange(0, before as int),
                ..self@
            };
            let added = self@.instances.subrange(before as int, self@.instances.len() as int);
            assert(earlier.instances + added =~= self@.instances);
            earlier.lemma_bulk_round_trip(added);
        }
        Ok(self.counterparts_of(before, count))
    }

    /// Brings a boundary collection back as a sequence of native values, in
    /// its order. The source must be an array, and every element must stand
    /// for a live instance of this type; the first element that does not
    /// fails the whole import, and nothing of the others is handed out.
    pub fn try_as_vec(&self, array: &BoundaryArray) -> (r: Result<Vec<T>, BulkError>) where T: Clone
        ensures
            match r {
                Ok(values) => {
                    &&& self@.import(array@) matches Ok(found)
                    &&& values@.len() == found.len()
                    &&& forall|i: int|
                        0 <= i < found.len() ==> cloned(found[i], #[trigger] values@[i])
                },
                Err(error) => self@.import(array@) == Err::<Seq<T>, BulkErrorView>(error@),
            },
    {
        let elements = match &array.elements {
            None => {
                return Err(BulkError::NotAnArray);
            },
            Some(elements) => elements,
        };
        let count = elements.len();
        let mut values: Vec<T> = Vec::with_capacity(count);
        let mut i: usize = 0;
        while i < count
            invariant
                i <= count,
                count == elements@.len(),
                array@.elements == Some(views(elements@)),
                values@.len() == i,
                forall|j: int| 0 <= j < i ==> (#[trigger] self@.recover(views(elements@)[j])) is Ok,
                forall|j: int|
                    0 <= j < i ==> cloned(
                        self@.recover(views(elements@)[j])->Ok_0,
                        #[trigger] values@[j],
                    ),
            decreases count - i,
        {
            match self.downcast(&elements[i]) {
                Ok(value) => {
                    values.push(value);
                },
                Err(error) => {
                    proof {
                        assert forall|j: int| 0 <= j < i implies !#[trigger] (self@.fails())(
                            views(elements@)[j],
                        ) by {
                            assert(self@.recover(views(elements@)[j]) is Ok);
                        }
                        self@.lemma_import_fails(array@, i as int);
                    }
                    return Err(BulkError::ElementConversionFailed { index: i, error });
                },
            }
            i = i + 1;
        }
        proof {
            self@.lemma_import_succeeds(array@);
        }
        Ok(values)
    }

    /// The collection of the counterparts of `count` instances, the ones that
    /// follow the first `before`.
    fn counterparts_of(&self, before: usize, count: usize) -> (array: BoundaryArray)
        requires
            before + count <= u32::MAX,
        ensures
            array@ == self@.counterparts(before as nat, count as nat),
    {
        let mut elements: Vec<BoundaryValue> = Vec::with_capacity(count);
        let mut i: usize = 0;
        while i < count
            invariant
                i <= count,
                before + count <= u32::MAX,
                elements@.len() == i,
                forall|j: int|
                    0 <= j < i ==> (#[trigger] elements@[j])@ == self@.counterpart(
                        (before + j + 1) as u32,
                    ),
            decreases count - i,
        {
            let handle: u32 = (before + i + 1) as u32;
            elements.push(
                BoundaryValue {
                    object_like: true,
                    accessor: Accessor::Callable(Invocation::Tag(self.name.clone())),
                    handle: HandleProperty::Number(number_from_handle(handle)),
                },
            );
            i = i + 1;
        }
        let array = BoundaryArray { array_type: self.array_type.clone(), elements: Some(elements) };
        assert(array@.elements->Some_0 =~= self@.counterparts(
            before as nat,
            count as nat,
        ).elements->Some_0);
        array
    }
}

impl<T> ExportedView<T> {
    /// An import over an array whose element at `index` is the first that
    /// stands for no instance fails as a whole, with the failure of that very
    /// element; no part of the array comes back.
    pub proof fn lemma_import_fails(self, array: BoundaryArrayView, index: int)
        requires
            array.elements is Some,
            is_first(array.elements->Some_0, self.fails(), index),
        ensures
            self.import(array) == Err::<Seq<T>, BulkErrorView>(
                BulkErrorView::ElementConversionFailed {
                    index,
                    error: self.recover(array.elements->Some_0[index])->Err_0,
                },
            ),
    {
        lemma_first_is(array.elements->Some_0, self.fails(), index);
    }

    /// An import over an array whose elements all stand for instances gives
    /// those instances, one for each element and in the array's order.
    pub proof fn lemma_import_succeeds(self, array: BoundaryArrayView)
        requires
            array.elements is Some,
            forall|i: int|
                0 <= i < array.elements->Some_0.len() ==> (#[trigger] self.recover(
                    array.elements->Some_0[i],
                )) is Ok,
        ensures
            self.import(array) == Ok::<Seq<T>, BulkErrorView>(
                Seq::new(
                    array.elements->Some_0.len(),
                    |i: int| self.recover(array.elements->Some_0[i])->Ok_0,
                ),
            ),
    {
        let elements = array.elements->Some_0;
        assert forall|j: int| 0 <= j < elements.len() implies !#[trigger] (self.fails())(
            elements[j],
        ) by {
            assert(self.recover(elements[j]) is Ok);
        }
        lemma_first_is_none(elements, self.fails());
    }

    /// The counterpart of a live instance stands for that instance.
    pub proof fn lemma_counterpart_recovers(self, handle: u32)
        requires
            self.is_live(handle),
        ensures
            handle_of(self.counterpart(handle), self.name) == Ok::<u32, DowncastErrorView>(handle),
            self.recover(self.counterpart(handle)) == Ok::<T, DowncastErrorView>(
                self.instance(handle),
            ),
    {
        lemma_number_round_trip(handle);
    }

    /// Round trip of one value: a native value that is taken across the
    /// boundary and brought back through the checks is found again. (The
    /// downcast hands out a clone of what is found.)
    pub proof fn lemma_round_trip(self, value: T)
        requires
            self.instances.len() < u32::MAX,
        ensures
            self.with(value).recover(
                self.with(value).counterpart((self.instances.len() + 1) as u32),
            ) == Ok::<T, DowncastErrorView>(value),
    {
        self.with(value).lemma_counterpart_recovers((self.instances.len() + 1) as u32);
    }

    /// Round trip of a sequence: native values that are taken across the
    /// boundary as one collection and brought back are found again, all of
    /// them and in their order.
    pub proof fn lemma_bulk_round_trip(self, values: Seq<T>)
        requires
            self.instances.len() + values.len() <= u32::MAX,
        ensures
            self.with_all(values).import(
                self.with_all(values).counterparts(self.instances.len(), values.len()),
            ) == Ok::<Seq<T>, BulkErrorView>(values),
    {
        let after = self.with_all(values);
        let before = self.instances.len();
        let array = after.counterparts(before, values.len());
        let elements = array.elements->Some_0;
        assert forall|i: int| 0 <= i < elements.len() implies #[trigger] after.recover(
            elements[i],
        ) == Ok::<T, DowncastErrorView>(values[i]) by {
            after.lemma_counterpart_recovers((before + i + 1) as u32);
        }
        after.lemma_import_succeeds(array);
        assert(Seq::new(elements.len(), |i: int| after.recover(elements[i])->Ok_0) =~= values);
    }

    /// A value that is no object stands for no instance, whatever else it
    /// carries: the failure is that it is no object.
    pub proof fn lemma_non_object_fails(self, js: BoundaryValueView)
        requires
            !js.object_like,
        ensures
            handle_of(js, self.name) == Err::<u32, DowncastErrorView>(
                DowncastErrorView::NotAnObject { expected: self.name },
            ),
            self.recover(js) == Err::<T, DowncastErrorView>(
                DowncastErrorView::NotAnObject { expected: self.name },
            ),
    {
    }

    /// An object without the identity accessor stands for no instance: the
    /// failure is the missing accessor.
    pub proof fn lemma_missing_accessor_fails(self, js: BoundaryValueView)
        requires
            js.object_like,
            js.accessor is Absent,
        ensures
            handle_of(js, self.name) == Err::<u32, DowncastErrorView>(
                DowncastErrorView::MissingIdentityAccessor { found: None },
            ),
            self.recover(js) == Err::<T, DowncastErrorView>(
                DowncastErrorView::MissingIdentityAccessor { found: None },
            ),
    {
    }

    /// An object that is tagged as another type stands for no instance of
    /// this one: the failure is a mismatch that holds both names, and its
    /// description shows both.
    pub proof fn lemma_other_type_fails(self, js: BoundaryValueView, actual: Seq<char>)
        requires
            js.object_like,
            js.accessor == AccessorView::Callable(InvocationView::Tag(actual)),
            actual != self.name,
        ensures
            handle_of(js, self.name) == Err::<u32, DowncastErrorView>(
                DowncastErrorView::TypeMismatch { actual, expected: self.name },
            ),
            self.recover(js) == Err::<T, DowncastErrorView>(
                DowncastErrorView::TypeMismatch { actual, expected: self.name },
            ),
            names(self.recover(js)->Err_0.message(), actual),
            names(self.recover(js)->Err_0.message(), self.name),
    {
        lemma_mismatch_names_both(actual, self.name);
    }

    /// A boundary value stands for an instance of the type exactly if it is
    /// an object, its accessor can be called and returns the type's name, and
    /// it carries a number that is the handle of a live instance.
    pub proof fn lemma_valid_representation(self, js: BoundaryValueView)
        ensures
            self.recover(js) is Ok <==> {
                &&& js.object_like
                &&& js.accessor == AccessorView::Callable(InvocationView::Tag(self.name))
                &&& js.handle matches HandlePropertyView::Number(bits)
                &&& self.is_live(handle_of_number(bits))
            },
    {
    }
}

} // verus!
