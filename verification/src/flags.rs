//! Per-tenant feature flags, kept as a bitset so that the durable store can
//! hold them in one integer column.

use vstd::prelude::*;

verus! {

pub type Flags = i32;

pub const ONLY_SUBSCRIBERS: Flags = 0b1;
pub const APPROVE_SUBSCRIBE: Flags = 0b10;
pub const WITHOUT_DONATE: Flags = 0b100;

/// True when every bit of `flag` is set in `bits`.
pub open spec fn flag_set(bits: Flags, flag: Flags) -> bool {
    bits | flag == bits
}

/// Bitset behaviour shared by every representation of a tenant's flags.
pub trait FeatureFlags: Sized {
    /// The flag word a value of the implementing type stands for.
    spec fn flag_bits(&self) -> Flags;

    fn check_flag(&self, flag: Flags) -> (r: bool)
        ensures
            r == flag_set(self.flag_bits(), flag),
    ;

    fn toggle_flag(&mut self, flag: Flags)
        ensures
            final(self).flag_bits() == old(self).flag_bits() ^ flag,
    ;
}

impl FeatureFlags for i32 {
    open spec fn flag_bits(&self) -> Flags {
        *self
    }

    fn check_flag(&self, flag: Flags) -> (r: bool) {
        *self | flag == *self
    }

    fn toggle_flag(&mut self, flag: Flags) {
        let result: i32 = *self ^ flag;
        *self = result;
    }
}

} // verus!
