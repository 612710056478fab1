use crate::common::numeros::{cifras, decimal};
use vstd::prelude::*;

verus! {

/// Why a message could not be taken off a connection.
#[derive(Debug, Clone, Copy, PartialEq, Eq, Structural)]
pub enum TipodeError {
    /// The connection failed or was closed before the whole message arrived.
    ErrorLectura,
    /// The first byte of the header names no kind of message.
    ErrorTipoDeMensaje,
}

impl TipodeError {
    /// The number under which the error is reported: the variant's position.
    pub open spec fn ordinal(self) -> u8 {
        match self {
            TipodeError::ErrorLectura => 0,
            TipodeError::ErrorTipoDeMensaje => 1,
        }
    }

    /// The number under which the error is reported.
    pub fn codigo(&self) -> (r: u8)
        ensures
            r == self.ordinal(),
    {
        match self {
            TipodeError::ErrorLectura => 0,
            TipodeError::ErrorTipoDeMensaje => 1,
        }
    }
}

/// A failure local to one connection. It ends that connection's exchange and
/// nothing else.
#[derive(Debug, Clone, Copy, PartialEq, Eq, Structural)]
pub struct ErrorSocket {
    pub error: TipodeError,
}

/// The identity of the node that coordinates the others.
pub const ID_LIDER: u32 = 1;

/// Whether a node with this identity is the coordinator.
pub fn get_cordinator_leader_value(id: u32) -> (r: bool)
    ensures
        r == (id == ID_LIDER),
{
    id == ID_LIDER
}

/// The address at which the store with this identity takes datagrams: the
/// local host, and as port the digits 1234 followed by the identity.
pub fn id_to_addr_local(id: usize) -> (r: String)
    ensures
        r@ == "127.0.0.1:1234"@ + cifras(id as nat),
{
    let mut r = "127.0.0.1:1234".to_owned();
    let numero = decimal(id);
    r.append(numero.as_str());
    r
}

} // verus!
