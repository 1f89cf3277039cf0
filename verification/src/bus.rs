use vstd::prelude::*;

use crate::error::EcError;
use crate::model::{pop_out, step_cmd, step_write, EcModel};

verus! {

/// A byte channel to an EC whose behaviour follows the command-level model.
///
/// An implementation is free to fail any call (the hardware analogue is a
/// handshake timeout); the contract constrains only what a successful call
/// did to the modelled EC.
pub trait EcBus: Sized {
    /// The command-level model of the EC this channel reaches. An
    /// implementation that does not say what it models leaves it
    /// arbitrary, and the engine's guarantees then pin nothing concrete.
    open spec fn model(&self) -> EcModel {
        arbitrary()
    }

    /// Send one byte to the command port.
    fn bus_cmd(&mut self, b: u8) -> (r: Result<(), EcError>)
        ensures
            r is Ok ==> final(self).model() == step_cmd(old(self).model(), b),
    ;

    /// Send one byte to the data port.
    fn bus_write(&mut self, b: u8) -> (r: Result<(), EcError>)
        ensures
            r is Ok ==> final(self).model() == step_write(old(self).model(), b),
    ;

    /// Read one byte from the data port.
    fn bus_read(&mut self) -> (r: Result<u8, EcError>)
        ensures
            r is Ok ==> old(self).model().out.len() > 0 && r->Ok_0 == old(
                self,
            ).model().out[0] && final(self).model() == pop_out(old(self).model()),
    ;
}

} // verus!
