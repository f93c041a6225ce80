//! Connection retry, characteristic lookup and command-line input reading for
//! a Bluetooth GATT client that drives bluetoothd.
use vstd::prelude::*;

pub mod connection;
pub mod gatt;
pub mod input;

verus! {

} // verus!
