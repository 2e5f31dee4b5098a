//! Growable containers of fixed-width numeric elements, one per element
//! kind, that the host language manipulates and exchanges with buffer
//! fields.
use vstd::prelude::*;
use crate::error::Error;

verus! {

/// A growable sequence of elements of one numeric kind.
#[derive(Debug, Clone)]
pub struct List<T> {
    inner: Vec<T>,
}

pub type ListBool = List<bool>;

pub type ListI8 = List<i8>;

pub type ListI16 = List<i16>;

pub type ListI32 = List<i32>;

pub type ListI64 = List<i64>;

pub type ListU8 = List<u8>;

pub type ListU16 = List<u16>;

pub type ListU32 = List<u32>;

pub type ListU64 = List<u64>;

impl<T> View for List<T> {
    type V = Seq<T>;

    closed spec fn view(&self) -> Seq<T> {
        self.inner@
    }
}

/// Whether `index` names an element of a sequence of length `len`: the
/// condition of reading, writing and removing.
pub open spec fn valid_index(len: nat, index: int) -> bool {
    0 <= index < len
}

/// Whether `index` is a place to insert into a sequence of length `len`;
/// `len` itself means appending.
pub open spec fn valid_insert_index(len: nat, index: int) -> bool {
    0 <= index <= len
}

/// A copy of `v`, element by element.
pub fn copy_elements<T: Copy>(v: &Vec<T>) -> (r: Vec<T>)
    ensures
        r@ == v@,
{
    let mut r: Vec<T> = Vec::with_capacity(v.len());
    let mut i: usize = 0;
    while i < v.len()
        invariant
            i <= v@.len(),
            r@ == v@.subrange(0, i as int),
        decreases v@.len() - i,
    {
        r.push(v[i]);
        assert(r@ =~= v@.subrange(0, i + 1));
        i = i + 1;
    }
    assert(r@ =~= v@);
    r
}

impl<T: Copy> List<T> {
    /// A container that takes ownership of `inner`.
    pub fn new(inner: Vec<T>) -> (r: List<T>)
        ensures
            r@ == inner@,
    {
        List { inner }
    }

    /// A container holding a copy of the elements of `arr`.
    pub fn from_array(arr: &[T]) -> (r: List<T>)
        ensures
            r@ == arr@,
    {
        let mut inner: Vec<T> = Vec::with_capacity(arr.len());
        let mut i: usize = 0;
        while i < arr.len()
            invariant
                i <= arr@.len(),
                inner@ == arr@.subrange(0, i as int),
            decreases arr@.len() - i,
        {
            inner.push(arr[i]);
            assert(inner@ =~= arr@.subrange(0, i + 1));
            i = i + 1;
        }
        assert(inner@ =~= arr@);
        List { inner }
    }

    /// The elements, handed over without copying.
    pub fn into_vec(self) -> (r: Vec<T>)
        ensures
            r@ == self@,
    {
        self.inner
    }

    /// The elements, borrowed.
    pub fn as_vec(&self) -> (r: &Vec<T>)
        ensures
            r@ == self@,
    {
        &self.inner
    }

    /// Appends `item` at the end.
    pub fn append(&mut self, item: T)
        ensures
            final(self)@ == old(self)@.push(item),
    {
        self.inner.push(item);
    }

    /// The number of elements.
    pub fn len(&self) -> (r: usize)
        ensures
            r == self@.len(),
    {
        self.inner.len()
    }

    /// The element at `index`, or an out-of-range failure.
    pub fn get(&self, index: usize) -> (r: Result<T, Error>)
        ensures
            valid_index(self@.len(), index as int) ==> r == Ok::<T, Error>(self@[index as int]),
            !valid_index(self@.len(), index as int) ==> r == Err::<T, Error>(Error::IndexOutOfRange { index, len: self@.len() as usize }),
    {
        if index < self.inner.len() {
            Ok(self.inner[index])
        } else {
            Err(Error::IndexOutOfRange { index, len: self.inner.len() })
        }
    }

    /// Overwrites the element at `index`, or fails, unchanged, when `index`
    /// is out of range.
    pub fn set(&mut self, index: usize, value: T) -> (r: Result<(), Error>)
        ensures
            valid_index(old(self)@.len(), index as int) ==> r is Ok && final(self)@ == old(
                self,
            )@.update(index as int, value),
            !valid_index(old(self)@.len(), index as int) ==> r == Err::<(), Error>(Error::IndexOutOfRange { index, len: old(self)@.len() as usize }) && final(self)@ == old(self)@,
    {
        if index < self.inner.len() {
            self.inner.set(index, value);
            Ok(())
        } else {
            Err(Error::IndexOutOfRange { index, len: self.inner.len() })
        }
    }

    /// Removes and returns the element at `index`, shifting the later ones
    /// down, or fails, unchanged, when `index` is out of range.
    pub fn remove(&mut self, index: usize) -> (r: Result<T, Error>)
        ensures
            valid_index(old(self)@.len(), index as int) ==> r == Ok::<T, Error>(old(self)@[index as int])
                && final(self)@ == old(self)@.remove(index as int),
            !valid_index(old(self)@.len(), index as int) ==> r == Err::<T, Error>(Error::IndexOutOfRange { index, len: old(self)@.len() as usize }) && final(self)@ == old(self)@,
    {
        if index < self.inner.len() {
            Ok(self.inner.remove(index))
        } else {
            Err(Error::IndexOutOfRange { index, len: self.inner.len() })
        }
    }

    /// Inserts `value` before position `index` (at the end where `index` is
    /// the length), or fails, unchanged, when `index` is past the end.
    pub fn insert(&mut self, index: usize, value: T) -> (r: Result<(), Error>)
        ensures
            valid_insert_index(old(self)@.len(), index as int) ==> r is Ok && final(self)@ == old(
                self,
            )@.insert(index as int, value),
            !valid_insert_index(old(self)@.len(), index as int) ==> r == Err::<(), Error>(Error::IndexOutOfRange { index, len: old(self)@.len() as usize }) && final(self)@ == old(self)@,
    {
        if index <= self.inner.len() {
            self.inner.insert(index, value);
            Ok(())
        } else {
            Err(Error::IndexOutOfRange { index, len: self.inner.len() })
        }
    }

    /// A copy of the elements, for a host-language list.
    pub fn to_list(&self) -> (r: Vec<T>)
        ensures
            r@ == self@,
    {
        copy_elements(&self.inner)
    }

    /// A copy of the elements, for a host-language array; the container
    /// stays as it is.
    pub fn to_array(&self) -> (r: Vec<T>)
        ensures
            r@ == self@,
    {
        copy_elements(&self.inner)
    }

    /// The elements, moved out for a host-language array; the container is
    /// left empty.
    pub fn into_array(&mut self) -> (r: Vec<T>)
        ensures
            r@ == old(self)@,
            final(self)@ == Seq::<T>::empty(),
    {
        let mut r: Vec<T> = Vec::new();
        std::mem::swap(&mut r, &mut self.inner);
        r
    }

    /// Removes every element.
    pub fn clear(&mut self)
        ensures
            final(self)@ == Seq::<T>::empty(),
    {
        self.inner.clear();
    }

    /// An independent container with the same elements.
    pub fn copy(&self) -> (r: List<T>)
        ensures
            r@ == self@,
    {
        List { inner: copy_elements(&self.inner) }
    }
}

/// A container built from a sequence and exported back yields that
/// sequence, in order: `built` is what construction hands back for `s`, and
/// `exported` is what an export hands back for `built`.
pub proof fn lemma_round_trip<T>(s: Seq<T>, built: List<T>, exported: Seq<T>)
    requires
        built@ == s,
        exported == built@,
    ensures
        exported == s,
        exported.len() == s.len(),
        forall|i: int| 0 <= i < s.len() ==> exported[i] == #[trigger] s[i],
{
}

/// At every length, inserting at the length is allowed (it appends) and
/// inserting past it is not, and reading, writing or removing at the length
/// is not allowed.
pub proof fn lemma_index_boundary(len: nat)
    ensures
        valid_insert_index(len, len as int),
        !valid_insert_index(len, len + 1 as int),
        !valid_index(len, len as int),
        forall|i: int| valid_index(len, i) ==> valid_insert_index(len, i),
{
}

} // verus!
