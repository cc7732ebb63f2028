//! Insertion-ordered sets, kept in an `indexmap::IndexSet`.
//!
//! The items of such a set are values of a closed enumeration. The
//! `IndexSet` holds the integer code of each item, a pair of `u64`, so that
//! equality and hashing of what it holds are those of integers.

use indexmap::IndexSet;
use std::marker::PhantomData;
use vstd::prelude::*;

verus! {

#[verifier::external_type_specification]
#[verifier::external_body]
#[verifier::reject_recursive_types(T)]
#[verifier::reject_recursive_types(S)]
pub struct ExIndexSet<T, S>(indexmap::IndexSet<T, S>);

/// The items of an `IndexSet` of codes in the order of their indices in the
/// set, which is the order in which they were inserted.
pub uninterp spec fn index_set_items(set: IndexSet<(u64, u64)>) -> Seq<(u64, u64)>;

/// `IndexSet::new`: the new set holds nothing.
#[verifier::external_body]
fn index_set_new() -> (set: IndexSet<(u64, u64)>)
    ensures
        index_set_items(set) == Seq::<(u64, u64)>::empty(),
{
    IndexSet::new()
}

/// `IndexSet::len`: the number of items in the set.
#[verifier::external_body]
fn index_set_len(set: &IndexSet<(u64, u64)>) -> (len: usize)
    ensures
        len == index_set_items(*set).len(),
{
    set.len()
}

/// `IndexSet::insert`: an item that the set does not hold yet goes to the
/// end and the call returns `true`; where the set holds it already, the set
/// and the order of its items stay as they are and the call returns `false`.
#[verifier::external_body]
fn index_set_insert(set: &mut IndexSet<(u64, u64)>, item: (u64, u64)) -> (fresh: bool)
    ensures
        fresh == !index_set_items(*old(set)).contains(item),
        fresh ==> index_set_items(*final(set)) == index_set_items(*old(set)).push(item),
        !fresh ==> index_set_items(*final(set)) == index_set_items(*old(set)),
{
    set.insert(item)
}

/// `IndexSet::get_index`: the item at a position of the set's order, and
/// `None` from the set's length on.
#[verifier::external_body]
fn index_set_get_index(set: &IndexSet<(u64, u64)>, index: usize) -> (item: Option<(u64, u64)>)
    ensures
        index < index_set_items(*set).len() ==> item == Some(index_set_items(*set)[index as int]),
        index >= index_set_items(*set).len() ==> item is None,
{
    set.get_index(index).copied()
}

/// `IndexSet::contains`: whether the set holds the item.
#[verifier::external_body]
fn index_set_contains(set: &IndexSet<(u64, u64)>, item: (u64, u64)) -> (found: bool)
    ensures
        found == index_set_items(*set).contains(item),
{
    set.contains(&item)
}

/// `IndexSet::clone`: the copy holds the same items in the same order.
#[verifier::external_body]
fn index_set_clone(set: &IndexSet<(u64, u64)>) -> (copy: IndexSet<(u64, u64)>)
    ensures
        index_set_items(copy) == index_set_items(*set),
{
    set.clone()
}

/// A value of a closed enumeration with an index of its own.
///
/// Different values have different indices, and a value is found again from
/// its index.
pub trait Indexed: Sized + Copy {
    /// The index of the value.
    spec fn spec_index(self) -> u64;

    /// The value with the given index, if there is one.
    spec fn spec_from_index(index: u64) -> Option<Self>;

    /// The index of the value.
    fn index(self) -> (index: u64)
        ensures
            index == self.spec_index(),
    ;

    /// The value with the given index, if there is one.
    fn from_index(index: u64) -> (value: Option<Self>)
        ensures
            value == Self::spec_from_index(index),
    ;

    /// A value is found again from its index, and only from its index.
    proof fn lemma_index(value: Self, index: u64)
        ensures
            Self::spec_from_index(value.spec_index()) == Some(value),
            Self::spec_from_index(index) == Some(value) ==> value.spec_index() == index,
    ;
}

/// A value of a closed enumeration with an integer code of its own.
///
/// Different values have different codes, and a value is found again from
/// its code.
pub trait Coded: Sized + Copy {
    /// The code of the value.
    spec fn spec_code(self) -> (u64, u64);

    /// The value with the given code, if there is one.
    spec fn spec_from_code(code: (u64, u64)) -> Option<Self>;

    /// The code of the value.
    fn code(self) -> (code: (u64, u64))
        ensures
            code == self.spec_code(),
    ;

    /// The value with the given code, if there is one.
    fn from_code(code: (u64, u64)) -> (value: Option<Self>)
        ensures
            value == Self::spec_from_code(code),
    ;

    /// A value is found again from its code, and only from its code.
    proof fn lemma_code(value: Self, code: (u64, u64))
        ensures
            Self::spec_from_code(value.spec_code()) == Some(value),
            Self::spec_from_code(code) == Some(value) ==> value.spec_code() == code,
    ;
}

/// A set of values of `T` that remembers the order in which they were
/// inserted.
pub struct OrderedSet<T: Coded> {
    codes: IndexSet<(u64, u64)>,
    item: PhantomData<T>,
}

impl<T: Coded> View for OrderedSet<T> {
    type V = Seq<T>;

    /// The items of the set in the order of their insertion.
    closed spec fn view(&self) -> Seq<T> {
        index_set_items(self.codes).map_values(|code: (u64, u64)| T::spec_from_code(code).unwrap())
    }
}

impl<T: Coded> OrderedSet<T> {
    #[verifier::type_invariant]
    spec fn inv(self) -> bool {
        &&& index_set_items(self.codes).no_duplicates()
        &&& forall|i: int|
            0 <= i < index_set_items(self.codes).len() ==> T::spec_from_code(
                #[trigger] index_set_items(self.codes)[i],
            ) is Some
    }

    /// That the codes in the set are distinct and each is the code of a
    /// value makes the items distinct.
    proof fn lemma_distinct_codes(codes: Seq<(u64, u64)>)
        requires
            codes.no_duplicates(),
            forall|i: int| 0 <= i < codes.len() ==> T::spec_from_code(#[trigger] codes[i]) is Some,
        ensures
            codes.map_values(|code: (u64, u64)| T::spec_from_code(code).unwrap()).no_duplicates(),
    {
        let items = codes.map_values(|code: (u64, u64)| T::spec_from_code(code).unwrap());
        assert forall|i: int, j: int|
            0 <= i < items.len() && 0 <= j < items.len() && i != j implies items[i]
            != items[j] by {
            T::lemma_code(items[i], codes[i]);
            T::lemma_code(items[j], codes[j]);
        }
    }

    /// The empty set.
    pub fn new() -> (set: OrderedSet<T>)
        ensures
            set@ == Seq::<T>::empty(),
    {
        let set = OrderedSet { codes: index_set_new(), item: PhantomData };
        assert(set@ =~= Seq::<T>::empty());
        set
    }

    /// The number of items in the set.
    pub fn len(&self) -> (len: usize)
        ensures
            len == self@.len(),
            self@.no_duplicates(),
    {
        proof {
            use_type_invariant(self);
            Self::lemma_distinct_codes(index_set_items(self.codes));
        }
        index_set_len(&self.codes)
    }

    /// Whether the set holds `item`.
    pub fn contains(&self, item: T) -> (found: bool)
        ensures
            found == self@.contains(item),
    {
        let found = index_set_contains(&self.codes, item.code());
        proof {
            use_type_invariant(self);
            let codes = index_set_items(self.codes);
            if found {
                let i = choose|i: int| 0 <= i < codes.len() && codes[i] == item.spec_code();
                T::lemma_code(item, codes[i]);
                assert(self@[i] == item);
            }
            if self@.contains(item) {
                let i = choose|i: int| 0 <= i < self@.len() && self@[i] == item;
                T::lemma_code(item, codes[i]);
                assert(codes[i] == item.spec_code());
            }
        }
        found
    }

    /// The item at a position of the set's order.
    pub fn get(&self, index: usize) -> (item: Option<T>)
        ensures
            index < self@.len() ==> item == Some(self@[index as int]),
            index >= self@.len() ==> item is None,
    {
        proof {
            use_type_invariant(self);
        }
        match index_set_get_index(&self.codes, index) {
            Some(code) => T::from_code(code),
            None => None,
        }
    }

    /// Inserts `item` at the end of the set, unless the set holds it already,
    /// and says whether it was inserted.
    pub fn insert(&mut self, item: T) -> (fresh: bool)
        ensures
            fresh == !old(self)@.contains(item),
            fresh ==> final(self)@ == old(self)@.push(item),
            !fresh ==> final(self)@ == old(self)@,
            final(self)@.no_duplicates(),
    {
        proof {
            use_type_invariant(&*self);
        }
        let ghost before = index_set_items(self.codes);
        let ghost before_view = self@;
        let mut codes = index_set_new();
        std::mem::swap(&mut self.codes, &mut codes);
        let fresh = index_set_insert(&mut codes, item.code());
        proof {
            let after = index_set_items(codes);
            T::lemma_code(item, item.spec_code());
            if before_view.contains(item) {
                let i = choose|i: int| 0 <= i < before_view.len() && before_view[i] == item;
                T::lemma_code(item, before[i]);
                assert(before[i] == item.spec_code());
            }
            if before.contains(item.spec_code()) {
                let i = choose|i: int| 0 <= i < before.len() && before[i] == item.spec_code();
                assert(before_view[i] == item);
            }
            if fresh {
                assert forall|i: int, j: int|
                    0 <= i < after.len() && 0 <= j < after.len() && i != j implies after[i]
                    != after[j] by {
                    if i < before.len() && j == before.len() {
                        assert(before[i] != item.spec_code());
                    }
                    if j < before.len() && i == before.len() {
                        assert(before[j] != item.spec_code());
                    }
                }
            }
            Self::lemma_distinct_codes(after);
        }
        std::mem::swap(&mut self.codes, &mut codes);
        proof {
            if fresh {
                assert(self@ =~= before_view.push(item));
            }
        }
        fresh
    }
}

impl<T: Coded> Clone for OrderedSet<T> {
    /// A copy of the set, with the same items in the same order.
    fn clone(&self) -> (copy: OrderedSet<T>)
        ensures
            copy@ == self@,
    {
        proof {
            use_type_invariant(self);
        }
        OrderedSet { codes: index_set_clone(&self.codes), item: PhantomData }
    }
}

} // verus!
