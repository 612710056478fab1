//! Order fulfilment across a network of stores: the wire protocol, the
//! coordinator's permit handshake, the per-store stock ledger and the
//! nearest-store dispatch policy, each with a machine-checked contract.

pub mod common;
pub mod despacho;
