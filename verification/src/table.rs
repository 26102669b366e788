//! Registration of attribute/encoding pairs with the transport's message
//! table.

use vstd::prelude::*;

verus! {

/// The configuration error surfaced at setup time.
#[derive(Clone, Copy, PartialEq, Eq, Structural, Debug)]
pub enum RegistrationError {
    /// The same attribute/encoding pair was registered twice.
    AlreadyRegistered,
}

/// The identifiers under which attribute/encoding pairs were registered.
/// Each pair must be registered under a distinct identifier before first
/// use, with its delivery-reliability class kept by the transport itself.
pub struct MessageTable {
    /// The identifiers registered so far, in registration order.
    pub ids: Vec<u64>,
}

impl MessageTable {
    /// Whether the identifier was already registered.
    pub open spec fn spec_contains(self, id: u64) -> bool {
        self.ids@.contains(id)
    }

    /// An empty table.
    pub fn new() -> (r: MessageTable)
        ensures
            r.ids@.len() == 0,
    {
        MessageTable { ids: Vec::new() }
    }

    /// Whether the identifier was already registered.
    pub fn contains(&self, id: u64) -> (r: bool)
        ensures
            r == self.spec_contains(id),
    {
        let mut i: usize = 0;
        while i < self.ids.len()
            invariant
                i <= self.ids@.len(),
                forall|j: int| 0 <= j < i ==> self.ids@[j] != id,
            decreases self.ids@.len() - i,
        {
            if self.ids[i] == id {
                return true;
            }
            i += 1;
        }
        false
    }

    /// Registers an attribute/encoding pair under `id`.  Succeeds exactly
    /// when the identifier is new; registering the same pair twice is a
    /// configuration error and leaves the table unchanged.
    pub fn register(&mut self, id: u64) -> (r: Result<(), RegistrationError>)
        ensures
            r is Ok <==> !old(self).spec_contains(id),
            r is Ok ==> final(self).ids@ == old(self).ids@.push(id),
            r is Err ==> final(self).ids@ == old(self).ids@,
            r is Err ==> r == Result::<(), RegistrationError>::Err(
                RegistrationError::AlreadyRegistered,
            ),
    {
        if self.contains(id) {
            Result::Err(RegistrationError::AlreadyRegistered)
        } else {
            self.ids.push(id);
            Result::Ok(())
        }
    }

    /// Convenience entry point for callers that have asserted uniqueness
    /// is guaranteed: the duplicate case, which the strict entry point
    /// surfaces as an error and a host would treat as an unrecoverable
    /// setup fault, is excluded up front.
    pub fn register_assume_unique(&mut self, id: u64)
        requires
            !old(self).spec_contains(id),
        ensures
            final(self).ids@ == old(self).ids@.push(id),
    {
        self.ids.push(id);
    }
}

} // verus!
