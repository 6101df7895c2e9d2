//! A closed interval of the 32-bit address space.

use vstd::prelude::*;
use crate::prefix::{prefix_mask, prefix_mask_spec};

verus! {

/// The addresses `address_start ..= address_end`; the end is inclusive so
/// that a range may reach `0xffff_ffff`.
#[derive(PartialEq, Eq, Structural, Debug, Clone, Copy)]
pub struct AddressRange {
    pub address_start: u32,
    pub address_end: u32,
}

impl AddressRange {
    pub open spec fn wf(&self) -> bool {
        self.address_start <= self.address_end
    }

    /// Whether the access `[address, address + size)` lies in the range.
    pub open spec fn holds_span(&self, address: u32, size: int) -> bool {
        self.address_start <= address && address + size <= self.address_end + 1
    }

    /// The window of prefix length `length` based at `address`.
    pub fn new_prefix(address: u32, length: u32) -> (r: AddressRange)
        requires
            length <= 32,
            address & !prefix_mask_spec(length) == 0,
        ensures
            r.address_start == address,
            r.address_end == address | !prefix_mask_spec(length),
            r.wf(),
    {
        let mask = prefix_mask(length);
        assert(address & !mask == 0 ==> address <= address | !mask) by (bit_vector);
        AddressRange { address_start: address, address_end: address | !mask }
    }

    pub fn new(address_start: u32, address_end: u32) -> (r: AddressRange)
        requires
            address_start <= address_end,
        ensures
            r.address_start == address_start,
            r.address_end == address_end,
    {
        AddressRange { address_start, address_end }
    }

    pub fn contains_value(&self, address: u32) -> (r: bool)
        ensures
            r == (self.address_start <= address <= self.address_end),
    {
        (address >= self.address_start) && (address <= self.address_end)
    }

    pub fn contains_range(&self, other: AddressRange) -> (r: bool)
        ensures
            r == (self.address_start <= other.address_start && other.address_end
                <= self.address_end),
    {
        (other.address_start >= self.address_start) && (other.address_end <= self.address_end)
    }

    /// Offset of `address` in the range, when the whole access of `size`
    /// bytes starting there lies in the range.
    pub fn map(&self, address: u32, size: usize) -> (r: Option<u32>)
        ensures
            self.holds_span(address, size as int) ==> r == Some((address - self.address_start) as u32),
            !self.holds_span(address, size as int) ==> r is None,
    {
        if address < self.address_start || address as u64 > self.address_end as u64 + 1 {
            None
        } else {
            let room: u64 = self.address_end as u64 + 1 - address as u64;
            if size as u64 <= room {
                Some(address - self.address_start)
            } else {
                None
            }
        }
    }

    pub fn start(&self) -> (r: u32)
        ensures
            r == self.address_start,
    {
        self.address_start
    }

    /// Number of addresses in the range.
    pub fn size(&self) -> (r: usize)
        requires
            self.wf(),
            self.address_end - self.address_start + 1 <= usize::MAX,
        ensures
            r == self.address_end - self.address_start + 1,
    {
        ((self.address_end - self.address_start) as u64 + 1) as usize
    }
}

} // verus!
