//! The addresses probed when scanning an I2C bus for devices.

use vstd::prelude::*;

verus! {

/// The lowest address probed: 0x00 to 0x07 are reserved.
pub const FIRST_SCAN_ADDR: u8 = 0x08;

/// The highest address probed: 0x78 to 0x7F are reserved.
pub const LAST_SCAN_ADDR: u8 = 0x77;

/// The addresses that a scan probes, in increasing order: every
/// non-reserved 7-bit address from `FIRST_SCAN_ADDR` to `LAST_SCAN_ADDR`.
pub fn scan_addresses() -> (addrs: Vec<u8>)
    ensures
        addrs@.len() == LAST_SCAN_ADDR - FIRST_SCAN_ADDR + 1,
        forall|i: int| 0 <= i < addrs@.len() ==> addrs@[i] == FIRST_SCAN_ADDR + i,
{
    let mut addrs: Vec<u8> = Vec::new();
    let mut addr: u8 = FIRST_SCAN_ADDR;
    while addr <= LAST_SCAN_ADDR
        invariant
            FIRST_SCAN_ADDR <= addr <= LAST_SCAN_ADDR + 1,
            addrs@.len() == addr - FIRST_SCAN_ADDR,
            forall|i: int| 0 <= i < addrs@.len() ==> addrs@[i] == FIRST_SCAN_ADDR + i,
        decreases LAST_SCAN_ADDR + 1 - addr,
    {
        addrs.push(addr);
        addr = addr + 1;
    }
    addrs
}

} // verus!
