//! Live instances and the handles that name them.

use vstd::prelude::*;
use crate::error::StringErr;

verus! {

/// A live module instance together with the store it runs in.
pub struct InstanceContext {
    pub instance: wasmer::Instance,
    pub store: wasmer::Store,
}

/// The live instances, each under a handle.
///
/// Handles are positive and are given out in order: the first instance gets
/// 1. Zero is the null handle. A handle is never given out twice, so a closed
/// handle names nothing for as long as the table lives.
pub struct InstanceTable {
    slots: Vec<Option<InstanceContext>>,
}

impl View for InstanceTable {
    type V = Seq<Option<InstanceContext>>;

    /// One entry for each handle given out so far, in order: the instance, or
    /// `None` once it is closed.
    closed spec fn view(&self) -> Seq<Option<InstanceContext>> {
        self.slots@
    }
}

impl InstanceTable {
    /// Whether `handle` names a live instance.
    pub open spec fn is_live(&self, handle: i64) -> bool {
        1 <= handle <= self@.len() && self@[handle - 1] is Some
    }

    /// The instance that the live handle `handle` names.
    pub open spec fn context(&self, handle: i64) -> InstanceContext {
        self@[handle - 1]->0
    }

    /// A table without instances.
    pub fn new() -> (table: InstanceTable)
        ensures
            table@.len() == 0,
    {
        InstanceTable { slots: Vec::new() }
    }

    /// The number of handles given out so far.
    pub fn len(&self) -> (n: usize)
        ensures
            n == self@.len(),
    {
        self.slots.len()
    }

    /// Takes `context` in and gives out its handle. Fails, and drops
    /// `context`, when no handle is left.
    pub fn register(&mut self, context: InstanceContext) -> (handle: Option<i64>)
        ensures
            match handle {
                Some(h) => h == old(self)@.len() + 1 && final(self)@ == old(self)@.push(
                    Some(context),
                ),
                None => old(self)@.len() >= i64::MAX && final(self)@ == old(self)@,
            },
    {
        let n: usize = self.slots.len();
        if n as u64 >= i64::MAX as u64 {
            return None;
        }
        self.slots.push(Some(context));
        Some((n as u64 + 1) as i64)
    }

    /// The slot of `handle`, if `handle` was ever given out.
    pub(crate) fn slot(&self, handle: i64) -> (index: Option<usize>)
        ensures
            match index {
                Some(i) => 1 <= handle <= self@.len() && i == handle - 1,
                None => !(1 <= handle <= self@.len()),
            },
    {
        if handle >= 1 && ((handle - 1) as u64) < self.slots.len() as u64 {
            Some((handle - 1) as usize)
        } else {
            None
        }
    }

    /// Whether `handle` names a live instance.
    pub fn contains(&self, handle: i64) -> (live: bool)
        ensures
            live == self.is_live(handle),
    {
        match self.slot(handle) {
            Some(i) => self.slots[i].is_some(),
            None => false,
        }
    }

    /// The instance that `handle` names, if it names one.
    pub fn get(&self, handle: i64) -> (context: Option<&InstanceContext>)
        ensures
            match context {
                Some(c) => self.is_live(handle) && *c == self.context(handle),
                None => !self.is_live(handle),
            },
    {
        match self.slot(handle) {
            Some(i) => self.slots[i].as_ref(),
            None => None,
        }
    }

    /// The instance that `handle` names, if it names one, for changing its
    /// store.
    pub(crate) fn get_mut(&mut self, handle: i64) -> (context: Option<&mut InstanceContext>)
        ensures
            match context {
                Some(c) => old(self).is_live(handle) && *c == old(self).context(handle)
                    && final(self)@ == old(self)@.update(handle - 1, Some(*final(c))),
                None => !old(self).is_live(handle) && final(self)@ == old(self)@,
            },
    {
        match self.slot(handle) {
            Some(i) => self.slots[i].as_mut(),
            None => None,
        }
    }

    /// Removes the instance that `handle` names, if it names one, and hands
    /// it out.
    pub fn remove(&mut self, handle: i64) -> (context: Option<InstanceContext>)
        ensures
            match context {
                Some(c) => old(self).is_live(handle) && c == old(self).context(handle)
                    && final(self)@ == old(self)@.update(handle - 1, None),
                None => !old(self).is_live(handle) && final(self)@ == old(self)@,
            },
    {
        match self.slot(handle) {
            Some(i) => self.slots[i].take(),
            None => None,
        }
    }
}

/// Closes the instance under `descriptor`: removes it from the table and
/// releases it. A handle that names no live instance, the null handle among
/// them, is left alone.
pub fn close(table: &mut InstanceTable, descriptor: i64) -> (r: Result<(), StringErr>)
    ensures
        r is Ok,
        !final(table).is_live(descriptor),
        old(table).is_live(descriptor) ==> final(table)@ == old(table)@.update(
            descriptor - 1,
            None,
        ),
        !old(table).is_live(descriptor) ==> final(table)@ == old(table)@,
{
    let _ = table.remove(descriptor);
    Ok(())
}

} // verus!
