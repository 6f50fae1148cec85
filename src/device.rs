//! The driver object. It does not talk to the bus itself: each operation
//! queues the register writes it needs, and whoever owns the bus takes them
//! out with `take_writes` and performs each as one transaction, in order.

use vstd::prelude::*;

use crate::register::RegisterWrite;

verus! {

/// The IIS3DWB driver: the register writes issued and not yet taken out.
pub struct IIS3DWB {
    writes: Vec<RegisterWrite>,
}

impl View for IIS3DWB {
    type V = Seq<RegisterWrite>;

    /// The writes waiting to be performed, oldest first.
    closed spec fn view(&self) -> Seq<RegisterWrite> {
        self.writes@
    }
}

impl IIS3DWB {
    /// A driver with no write waiting.
    pub fn new() -> (r: Self)
        ensures
            r@ == Seq::<RegisterWrite>::empty(),
    {
        IIS3DWB { writes: Vec::new() }
    }

    /// Issues a write of `value` to the register at `addr`.
    pub fn write_reg(&mut self, addr: u8, value: u8)
        ensures
            final(self)@ == old(self)@.push(RegisterWrite { addr, value }),
    {
        self.writes.push(RegisterWrite { addr, value });
    }

    /// Takes out the writes waiting, oldest first, and leaves none.
    pub fn take_writes(&mut self) -> (r: Vec<RegisterWrite>)
        ensures
            r@ == old(self)@,
            final(self)@ == Seq::<RegisterWrite>::empty(),
    {
        let mut taken: Vec<RegisterWrite> = Vec::new();
        core::mem::swap(&mut taken, &mut self.writes);
        taken
    }
}

} // verus!
