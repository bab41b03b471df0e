//! Access requests for the service control manager connection, and their
//! mapping to the fixed access-mask bits of the wire format.

use vstd::prelude::*;

verus! {

/// Access-mask value granting every right on the service control manager.
pub const SC_MANAGER_ALL_ACCESS: u32 = 0xF003F;
/// Access-mask bit for connecting to the service control manager.
pub const SC_MANAGER_CONNECT: u32 = 0x1;
/// Access-mask bit for creating services.
pub const SC_MANAGER_CREATE_SERVICE: u32 = 0x2;
/// Access-mask bit for enumerating services.
pub const SC_MANAGER_ENUMERATE_SERVICE: u32 = 0x4;

/// One access right requested on the service control manager.
#[derive(Debug, Clone, Copy, PartialEq, Eq, Hash, Structural)]
pub enum SCManagerAccess {
    All,
    Connect,
    CreateService,
    EnumerateService,
}

/// Access-mask value of one requested right.
pub open spec fn spec_scmanager_access_to_raw(access: SCManagerAccess) -> u32 {
    match access {
        SCManagerAccess::All => SC_MANAGER_ALL_ACCESS,
        SCManagerAccess::Connect => SC_MANAGER_CONNECT,
        SCManagerAccess::CreateService => SC_MANAGER_CREATE_SERVICE,
        SCManagerAccess::EnumerateService => SC_MANAGER_ENUMERATE_SERVICE,
    }
}

/// Combined access mask of a sequence of requested rights: the bitwise or
/// of their individual masks, in order.
pub open spec fn spec_scmanager_raw_mask(values: Seq<SCManagerAccess>) -> u32
    decreases values.len(),
{
    if values.len() == 0 {
        0u32
    } else {
        spec_scmanager_raw_mask(values.drop_last()) | spec_scmanager_access_to_raw(values.last())
    }
}

impl SCManagerAccess {
    /// Access-mask value of this right.
    pub fn to_raw(&self) -> (r: u32)
        ensures
            r == spec_scmanager_access_to_raw(*self),
    {
        match *self {
            SCManagerAccess::All => SC_MANAGER_ALL_ACCESS,
            SCManagerAccess::Connect => SC_MANAGER_CONNECT,
            SCManagerAccess::CreateService => SC_MANAGER_CREATE_SERVICE,
            SCManagerAccess::EnumerateService => SC_MANAGER_ENUMERATE_SERVICE,
        }
    }

    /// Combined access mask of the requested rights.
    pub fn raw_mask(values: &[SCManagerAccess]) -> (r: u32)
        ensures
            r == spec_scmanager_raw_mask(values@),
    {
        let mut mask: u32 = 0;
        let mut index: usize = 0;
        while index < values.len()
            invariant
                index <= values@.len(),
                mask == spec_scmanager_raw_mask(values@.take(index as int)),
            decreases values@.len() - index,
        {
            mask = mask | values[index].to_raw();
            proof {
                let prefix = values@.take(index + 1 as int);
                assert(prefix.drop_last() =~= values@.take(index as int));
                assert(prefix.last() == values@[index as int]);
            }
            index = index + 1;
        }
        proof {
            assert(values@.take(values@.len() as int) =~= values@);
        }
        mask
    }
}

} // verus!
