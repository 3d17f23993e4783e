//! Interface identity: 128-bit identifiers and their comparison.

use vstd::prelude::*;

verus! {

/// A 128-bit interface identifier, split into its four fields.
#[derive(Clone, Copy, Debug)]
pub struct Uuid {
    pub data1: u32,
    pub data2: u16,
    pub data3: u16,
    pub data4: [u8; 8],
}

/// Two identifiers name the same interface when all four fields agree.
pub open spec fn same_guid(a: Uuid, b: Uuid) -> bool {
    &&& a.data1 == b.data1
    &&& a.data2 == b.data2
    &&& a.data3 == b.data3
    &&& a.data4@ == b.data4@
}

/// Builds an identifier from its four fields.
pub fn uuid(data1: u32, data2: u16, data3: u16, data4: [u8; 8]) -> (id: Uuid)
    ensures
        id.data1 == data1,
        id.data2 == data2,
        id.data3 == data3,
        id.data4 == data4,
{
    Uuid { data1, data2, data3, data4 }
}

/// Compares two identifiers field by field.
pub fn eq_guid(a: &Uuid, b: &Uuid) -> (equal: bool)
    ensures
        equal == same_guid(*a, *b),
{
    if a.data1 != b.data1 || a.data2 != b.data2 || a.data3 != b.data3 {
        return false;
    }
    let mut i: usize = 0;
    while i < 8
        invariant
            i <= 8,
            forall|j: int| 0 <= j < i ==> a.data4@[j] == b.data4@[j],
        decreases 8 - i,
    {
        if a.data4[i] != b.data4[i] {
            return false;
        }
        i += 1;
    }
    assert(a.data4@ =~= b.data4@);
    true
}

/// Identifiers that agree in every field are the same value.
pub proof fn lemma_same_guid_is_equality(a: Uuid, b: Uuid)
    ensures
        same_guid(a, b) <==> a == b,
{
    if same_guid(a, b) {
        assert(a.data4 =~= b.data4);
    }
}

/// An interface type: it has one identifier, fixed for the whole program.
pub trait Interface {
    /// The interface's identifier.
    spec fn spec_iid() -> Uuid;

    /// Returns the interface's identifier.
    fn iid() -> (id: Uuid)
        ensures
            id == Self::spec_iid(),
    ;
}

/// The base lifetime interface, which every object implements.
pub struct IUnknown;

impl Interface for IUnknown {
    open spec fn spec_iid() -> Uuid {
        Uuid {
            data1: 0x00000000,
            data2: 0x0000,
            data3: 0x0000,
            data4: [0xC0, 0x00, 0x00, 0x00, 0x00, 0x00, 0x00, 0x46],
        }
    }

    fn iid() -> (id: Uuid) {
        uuid(0x00000000, 0x0000, 0x0000, [0xC0, 0x00, 0x00, 0x00, 0x00, 0x00, 0x00, 0x46])
    }
}

} // verus!
