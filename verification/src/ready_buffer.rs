//! Items that are kept until their time has come.

use vstd::prelude::*;

use crate::wrapped::WrappedTime;

verus! {

/// An item and the time that decides how long it is kept.
#[derive(Clone, Copy, Debug)]
pub struct TimedItem<T> {
    pub key: WrappedTime,
    pub item: T,
}

/// The items whose time comes after `key`, in their order.
pub open spec fn later_items<T>(items: Seq<TimedItem<T>>, key: WrappedTime) -> Seq<TimedItem<T>> {
    items.filter(|entry: TimedItem<T>| entry.key.later_than(key))
}

/// Items with their times. Its view is the items in the order in which they were added.
#[derive(Debug)]
pub struct ReadyBuffer<T> {
    items: Vec<TimedItem<T>>,
}

impl<T> View for ReadyBuffer<T> {
    type V = Seq<TimedItem<T>>;

    closed spec fn view(&self) -> Seq<TimedItem<T>> {
        self.items@
    }
}

impl<T: Copy> ReadyBuffer<T> {
    /// A buffer without items.
    pub fn new() -> (r: ReadyBuffer<T>)
        ensures
            r@ == Seq::<TimedItem<T>>::empty(),
    {
        ReadyBuffer { items: Vec::new() }
    }

    /// How many items there are.
    pub fn len(&self) -> (r: usize)
        ensures
            r == self@.len(),
    {
        self.items.len()
    }

    /// The items, in the order in which they were added.
    pub fn items(&self) -> (r: &Vec<TimedItem<T>>)
        ensures
            r@ == self@,
    {
        &self.items
    }

    /// Adds an item.
    pub fn add_item(&mut self, key: WrappedTime, item: T)
        ensures
            final(self)@ == old(self)@.push(TimedItem { key, item }),
    {
        self.items.push(TimedItem { key, item });
    }

    /// Drops the items whose time does not come after `key`.
    pub fn pop_until(&mut self, key: &WrappedTime)
        ensures
            final(self)@ == later_items(old(self)@, *key),
    {
        let mut kept: Vec<TimedItem<T>> = Vec::new();
        let len: usize = self.items.len();
        let mut i: usize = 0;
        while i < len
            invariant
                i <= len,
                len == self.items@.len(),
                kept@ == later_items(self.items@.take(i as int), *key),
            decreases len - i,
        {
            let entry: TimedItem<T> = self.items[i];
            proof {
                let before = self.items@.take(i as int);
                let through = self.items@.take(i + 1);
                assert(through.drop_last() =~= before);
                assert(through.last() == entry);
                reveal_with_fuel(Seq::filter, 2);
            }
            if entry.key.is_later_than(*key) {
                kept.push(entry);
            }
            i += 1;
        }
        assert(self.items@.take(len as int) =~= self.items@);
        self.items = kept;
    }
}

} // verus!
