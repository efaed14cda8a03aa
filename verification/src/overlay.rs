//! Presentation states, and delivery of cancellations to the running worker.

use crate::auth_protocol::OperationToken;
use vstd::prelude::*;

verus! {

/// What the presentation shows when an operation begins.
#[derive(Clone, Copy, Debug, PartialEq, Eq, Structural)]
pub enum OverlayState {
    Authenticate,
    Approve,
    Enrollment,
}

/// Another operation is already registered for delivery.
#[derive(Clone, Copy, Debug, PartialEq, Eq, Structural)]
pub struct SlotOccupied;

/// The one operation that a cancellation can reach, and the operations that a
/// cancellation has reached.
pub struct CancellationSlot {
    registered: Option<OperationToken>,
    delivered: Vec<OperationToken>,
}

/// The slot as the contracts see it.
pub struct SlotModel {
    pub registered: Option<OperationToken>,
    pub delivered: Set<OperationToken>,
}

impl SlotModel {
    /// Nothing registered, nothing delivered.
    pub open spec fn empty() -> SlotModel {
        SlotModel { registered: None, delivered: Set::empty() }
    }

    /// The slot with `token`'s registration withdrawn.
    pub open spec fn without(self, token: OperationToken) -> SlotModel {
        if self.registered == Some(token) {
            SlotModel { registered: None, ..self }
        } else {
            self
        }
    }

    /// The slot after a cancellation has reached `token`.
    pub open spec fn with_delivered(self, token: OperationToken) -> SlotModel {
        SlotModel { delivered: self.delivered.insert(token), ..self }
    }
}

impl View for CancellationSlot {
    type V = SlotModel;

    closed spec fn view(&self) -> SlotModel {
        SlotModel { registered: self.registered, delivered: self.delivered@.to_set() }
    }
}

impl CancellationSlot {
    /// An empty slot.
    pub fn new() -> (r: CancellationSlot)
        ensures
            r@ == SlotModel::empty(),
    {
        let delivered: Vec<OperationToken> = Vec::new();
        assert(delivered@.to_set() =~= Set::empty());
        CancellationSlot { registered: None, delivered }
    }

    /// The registered operation.
    pub fn registered(&self) -> (r: Option<OperationToken>)
        ensures
            r == self@.registered,
    {
        self.registered
    }

    /// Registers `token` for delivery, unless an operation is registered.
    pub fn install(&mut self, token: OperationToken) -> (r: Result<(), SlotOccupied>)
        ensures
            r is Ok <==> old(self)@.registered is None,
            final(self)@ == if old(self)@.registered is None {
                SlotModel { registered: Some(token), ..old(self)@ }
            } else {
                old(self)@
            },
    {
        if self.registered.is_some() {
            return Err(SlotOccupied);
        }
        self.registered = Some(token);
        Ok(())
    }

    /// Whether a cancellation has reached `token`.
    pub fn has_reached(&self, token: OperationToken) -> (r: bool)
        ensures
            r == self@.delivered.contains(token),
    {
        let mut i: usize = 0;
        while i < self.delivered.len()
            invariant
                i <= self.delivered@.len(),
                forall|j: int| 0 <= j < i ==> self.delivered@[j] != token,
            decreases self.delivered@.len() - i,
        {
            if self.delivered[i] == token {
                assert(self.delivered@[i as int] == token);
                return true;
            }
            i += 1;
        }
        false
    }

    /// Delivers a cancellation to `token` if it is the registered operation.
    /// Repeating a delivery changes nothing.
    pub fn deliver(&mut self, token: OperationToken) -> (r: bool)
        ensures
            r == (old(self)@.registered == Some(token)),
            final(self)@ == if r {
                old(self)@.with_delivered(token)
            } else {
                old(self)@
            },
    {
        match self.registered {
            Some(registered) => if registered != token {
                return false;
            },
            None => return false,
        }
        let ghost before = self.delivered@;
        if self.has_reached(token) {
            assert(self@.delivered.insert(token) =~= self@.delivered);
        } else {
            self.delivered.push(token);
            assert(self.delivered@.to_set() =~= before.to_set().insert(token)) by {
                assert forall|t: OperationToken|
                    before.to_set().insert(token).contains(t) implies self.delivered@.contains(
                    t,
                ) by {
                    if t == token {
                        assert(self.delivered@[before.len() as int] == token);
                    } else {
                        let k = choose|k: int| 0 <= k < before.len() && before[k] == t;
                        assert(self.delivered@[k] == t);
                    }
                }
            }
        }
        true
    }

    /// Withdraws `token`'s registration for good, unless a cancellation has
    /// already reached it: from then on none can.
    pub fn close(&mut self, token: OperationToken) -> (r: bool)
        ensures
            r == (old(self)@.registered == Some(token) && !old(self)@.delivered.contains(token)),
            final(self)@ == if r {
                old(self)@.without(token)
            } else {
                old(self)@
            },
    {
        match self.registered {
            Some(registered) => if registered != token {
                return false;
            },
            None => return false,
        }
        if self.has_reached(token) {
            return false;
        }
        self.registered = None;
        true
    }

    /// Withdraws `token`'s registration if it is the registered operation.
    pub fn clear(&mut self, token: OperationToken)
        ensures
            final(self)@ == old(self)@.without(token),
    {
        if let Some(registered) = self.registered {
            if registered == token {
                self.registered = None;
            }
        }
    }
}

} // verus!
