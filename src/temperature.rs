//! Temperature: the sensor's bus address and register, and the decoding of
//! its reading.

use vstd::prelude::*;
use crate::bus::{BusOp, Transaction};

verus! {

/// Bus address of the temperature sensor.
pub const SENSOR_ADDR: u16 = 0x48;

/// Register holding the latest conversion.
pub const REG_TEMPERATURE: u8 = 0;

/// Temperature in sixteenths of a degree Celsius, from the word read out of
/// the temperature register. The sensor sends its most significant byte first,
/// which the bus delivers as the low half of the word; the reading is the top
/// thirteen bits of the sensor's 16-bit value.
pub open spec fn sixteenths_of(word: u16) -> int {
    ((word % 256) * 256 + word / 256) / 8
}

/// The transaction that reads the temperature register.
pub fn read_request() -> (r: Transaction)
    ensures
        r.address == SENSOR_ADDR,
        r.op == (BusOp::ReadWord { reg: REG_TEMPERATURE }),
{
    Transaction { address: SENSOR_ADDR, op: BusOp::ReadWord { reg: REG_TEMPERATURE } }
}

/// Decodes a temperature-register word into sixteenths of a degree Celsius.
pub fn decode(word: u16) -> (r: u16)
    ensures
        r == sixteenths_of(word),
        r < 8192,
{
    let high: u16 = word % 256;
    let low: u16 = word / 256;
    (high * 32) + low / 8
}

} // verus!
