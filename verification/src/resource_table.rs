//! The resource table shared with the host processor: the entry types the
//! host's loader understands.  The table instance itself lives in a
//! dedicated link section of the firmware image, placed by the build.

use vstd::prelude::*;

verus! {

/// The types of entry you can have in a resource table.
#[derive(Clone, Copy, Debug, PartialEq, Eq, Structural)]
pub enum ResourceType {
    /// Get the host to allocate you some memory.
    CARVEOUT,
    /// Map some MMIO registers in.
    DEVMEM,
    /// Point at a buffer where you can write strings.
    TRACE,
    /// Map a VirtIO device.
    VDEV,
}

impl ResourceType {
    /// The wire value of each entry type in the table the host parses.
    pub fn as_u32(&self) -> (r: u32)
        ensures
            (*self is CARVEOUT ==> r == 0),
            (*self is DEVMEM ==> r == 1),
            (*self is TRACE ==> r == 2),
            (*self is VDEV ==> r == 3),
    {
        match self {
            ResourceType::CARVEOUT => 0,
            ResourceType::DEVMEM => 1,
            ResourceType::TRACE => 2,
            ResourceType::VDEV => 3,
        }
    }
}

/// All resource tables start with this header, followed by the offset array.
pub struct Header {
    pub ver: u32,
    pub num: usize,
    pub reserved: [u32; 2],
}

/// The entry structure for [`ResourceType::TRACE`].
pub struct Trace {
    pub rtype: ResourceType,
    pub da: usize,
    pub len: usize,
    pub reserved: u32,
    pub name: [u8; 32],
}

/// The entry structure for [`ResourceType::VDEV`]; followed by the
/// appropriate number of [`VdevVring`] structures.
pub struct Vdev {
    pub rtype: ResourceType,
    pub id: u32,
    pub notifyid: u32,
    pub dfeatures: u32,
    pub gfeatures: u32,
    pub config_len: u32,
    pub status: u8,
    pub num_of_vrings: u8,
    pub reserved: [u8; 2],
}

/// The individual vrings follow on from their [`Vdev`].
pub struct VdevVring {
    pub da: usize,
    pub align: usize,
    pub num: usize,
    pub notifyid: u32,
    pub reserved: u32,
}

/// A resource table with one trace-buffer entry: the layout this firmware
/// shares with the host.
pub struct ResourceTable {
    pub base: Header,
    pub offsets: [usize; 1],
    pub trace: Trace,
}

} // verus!
