//! The Windows calls the application's GUI logic reads through. The
//! application supplies an implementation over the real registry; tests
//! supply their own.
use vstd::prelude::*;

verus! {

/// Access to the registry values the GUI decisions read.
pub trait GuiAutomation {
    /// Whether `value` is a result a `REG_DWORD` read of `value_name`
    /// under `key` may give. The registry belongs to the machine, so by
    /// default any result may come back; an implementation that knows
    /// more says so.
    open spec fn dword_read_gives(&self, key: Seq<char>, value_name: Seq<char>, value: Option<u32>) -> bool {
        true
    }

    /// `RegRead(key, value_name)` of a `REG_DWORD`: `None` when the key
    /// or value is missing or cannot be read. The result is one that a
    /// read of exactly this key and value name may give.
    fn reg_read_dword(&mut self, key: &str, value_name: &str) -> (r: Option<u32>)
        ensures
            old(self).dword_read_gives(key@, value_name@, r),
    ;
}

} // verus!
