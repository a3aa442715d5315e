//! The built-in iterator prototype objects of a realm.

use vstd::prelude::*;
use crate::value::ObjectRef;

verus! {

/// The built-in iterator prototypes: one object each, created by the engine.
#[derive(Debug, Clone, Copy, PartialEq, Eq, Structural)]
pub struct IteratorPrototypes {
    /// The `IteratorPrototype` object.
    pub iterator: ObjectRef,
    /// The `AsyncIteratorPrototype` object.
    pub async_iterator: ObjectRef,
    /// The `AsyncFromSyncIteratorPrototype` object.
    pub async_from_sync_iterator: ObjectRef,
    /// The `ArrayIteratorPrototype` object.
    pub array: ObjectRef,
    /// The `SetIteratorPrototype` object.
    pub set: ObjectRef,
    /// The `StringIteratorPrototype` object.
    pub string: ObjectRef,
    /// The `RegExpStringIteratorPrototype` object.
    pub regexp_string: ObjectRef,
    /// The `MapIteratorPrototype` object.
    pub map: ObjectRef,
    /// The `ForInIteratorPrototype` object.
    pub for_in: ObjectRef,
    /// The %WrapForValidIteratorPrototype% object.
    pub wrap_for_valid_iterator: ObjectRef,
    /// The %IteratorHelperPrototype% object.
    pub iterator_helper: ObjectRef,
    /// The %SegmentIteratorPrototype% object.
    pub segment: ObjectRef,
}

/// No two handles of the sequence are the same.
pub open spec fn distinct_ids(ids: Seq<u64>) -> bool {
    forall|i: int, j: int| 0 <= i < j < ids.len() ==> ids[i] != ids[j]
}

impl IteratorPrototypes {
    /// The handles of the twelve prototypes, in the order of the fields.
    pub open spec fn ids(self) -> Seq<u64> {
        seq![
            self.iterator.id,
            self.async_iterator.id,
            self.async_from_sync_iterator.id,
            self.array.id,
            self.set.id,
            self.string.id,
            self.regexp_string.id,
            self.map.id,
            self.for_in.id,
            self.wrap_for_valid_iterator.id,
            self.iterator_helper.id,
            self.segment.id,
        ]
    }

    /// Each prototype is an object of its own: no two of them are the same object.
    pub open spec fn wf(self) -> bool {
        distinct_ids(self.ids())
    }

    /// The prototypes, given the twelve distinct objects that the engine created for them.
    pub fn new(
        iterator: ObjectRef,
        async_iterator: ObjectRef,
        async_from_sync_iterator: ObjectRef,
        array: ObjectRef,
        set: ObjectRef,
        string: ObjectRef,
        regexp_string: ObjectRef,
        map: ObjectRef,
        for_in: ObjectRef,
        wrap_for_valid_iterator: ObjectRef,
        iterator_helper: ObjectRef,
        segment: ObjectRef,
    ) -> (r: IteratorPrototypes)
        requires
            distinct_ids(seq![
                iterator.id,
                async_iterator.id,
                async_from_sync_iterator.id,
                array.id,
                set.id,
                string.id,
                regexp_string.id,
                map.id,
                for_in.id,
                wrap_for_valid_iterator.id,
                iterator_helper.id,
                segment.id,
            ]),
        ensures
            r.wf(),
            r.iterator == iterator,
            r.async_iterator == async_iterator,
            r.async_from_sync_iterator == async_from_sync_iterator,
            r.array == array,
            r.set == set,
            r.string == string,
            r.regexp_string == regexp_string,
            r.map == map,
            r.for_in == for_in,
            r.wrap_for_valid_iterator == wrap_for_valid_iterator,
            r.iterator_helper == iterator_helper,
            r.segment == segment,
    {
        IteratorPrototypes {
            iterator,
            async_iterator,
            async_from_sync_iterator,
            array,
            set,
            string,
            regexp_string,
            map,
            for_in,
            wrap_for_valid_iterator,
            iterator_helper,
            segment,
        }
    }

    /// Returns the `IteratorPrototype` object.
    pub fn iterator(&self) -> (r: ObjectRef)
        ensures
            r == self.iterator,
    {
        self.iterator
    }

    /// Returns the `AsyncIteratorPrototype` object.
    pub fn async_iterator(&self) -> (r: ObjectRef)
        ensures
            r == self.async_iterator,
    {
        self.async_iterator
    }

    /// Returns the `AsyncFromSyncIteratorPrototype` object.
    pub fn async_from_sync_iterator(&self) -> (r: ObjectRef)
        ensures
            r == self.async_from_sync_iterator,
    {
        self.async_from_sync_iterator
    }

    /// Returns the `ArrayIteratorPrototype` object.
    pub fn array(&self) -> (r: ObjectRef)
        ensures
            r == self.array,
    {
        self.array
    }

    /// Returns the `SetIteratorPrototype` object.
    pub fn set(&self) -> (r: ObjectRef)
        ensures
            r == self.set,
    {
        self.set
    }

    /// Returns the `StringIteratorPrototype` object.
    pub fn string(&self) -> (r: ObjectRef)
        ensures
            r == self.string,
    {
        self.string
    }

    /// Returns the `RegExpStringIteratorPrototype` object.
    pub fn regexp_string(&self) -> (r: ObjectRef)
        ensures
            r == self.regexp_string,
    {
        self.regexp_string
    }

    /// Returns the `MapIteratorPrototype` object.
    pub fn map(&self) -> (r: ObjectRef)
        ensures
            r == self.map,
    {
        self.map
    }

    /// Returns the `ForInIteratorPrototype` object.
    pub fn for_in(&self) -> (r: ObjectRef)
        ensures
            r == self.for_in,
    {
        self.for_in
    }

    /// Returns the %WrapForValidIteratorPrototype% object.
    pub fn wrap_for_valid_iterator(&self) -> (r: ObjectRef)
        ensures
            r == self.wrap_for_valid_iterator,
    {
        self.wrap_for_valid_iterator
    }

    /// Returns the %IteratorHelperPrototype% object.
    pub fn iterator_helper(&self) -> (r: ObjectRef)
        ensures
            r == self.iterator_helper,
    {
        self.iterator_helper
    }

    /// Returns the %SegmentIteratorPrototype% object.
    pub fn segment(&self) -> (r: ObjectRef)
        ensures
            r == self.segment,
    {
        self.segment
    }
}

/// The `IteratorPrototype` object is none of the other prototypes, and no two of the
/// prototypes are the same object.
pub proof fn lemma_prototypes_distinct(p: IteratorPrototypes)
    requires
        p.wf(),
    ensures
        p.iterator.id != p.async_iterator.id,
        p.iterator.id != p.async_from_sync_iterator.id,
        p.iterator.id != p.array.id,
        p.iterator.id != p.set.id,
        p.iterator.id != p.string.id,
        p.iterator.id != p.regexp_string.id,
        p.iterator.id != p.map.id,
        p.iterator.id != p.for_in.id,
        p.iterator.id != p.wrap_for_valid_iterator.id,
        p.iterator.id != p.iterator_helper.id,
        p.iterator.id != p.segment.id,
        forall|i: int, j: int| 0 <= i < 12 && 0 <= j < 12 && i != j ==> p.ids()[i] != p.ids()[j],
{
    let ids = p.ids();
    assert(ids.len() == 12);
    assert forall|i: int, j: int| 0 <= i < 12 && 0 <= j < 12 && i != j implies ids[i] != ids[j] by {
        if i < j {
            assert(ids[i] != ids[j]);
        } else {
            assert(ids[j] != ids[i]);
        }
    }
    assert(ids[0] != ids[1]);
    assert(ids[0] != ids[2]);
    assert(ids[0] != ids[3]);
    assert(ids[0] != ids[4]);
    assert(ids[0] != ids[5]);
    assert(ids[0] != ids[6]);
    assert(ids[0] != ids[7]);
    assert(ids[0] != ids[8]);
    assert(ids[0] != ids[9]);
    assert(ids[0] != ids[10]);
    assert(ids[0] != ids[11]);
}

} // verus!
