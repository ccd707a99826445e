use vstd::prelude::*;

verus! {

/// One audio input device, as reported by a single enumeration.
#[derive(Debug, Clone, PartialEq, Eq)]
pub struct DeviceDescriptor {
    pub id: String,
    pub name: String,
    pub sample_rate: u32,
    pub channels: u16,
}

/// Whether some device of the list carries the identifier `id`.
pub open spec fn has_device(devices: Seq<DeviceDescriptor>, id: Seq<char>) -> bool {
    exists|i: int| 0 <= i < devices.len() && (#[trigger] devices[i]).id@ == id
}

/// The position of the first device whose identifier is `id`.
pub fn find_device(devices: &Vec<DeviceDescriptor>, id: &String) -> (r: Option<usize>)
    ensures
        r is None <==> !has_device(devices@, id@),
        r matches Some(i) ==> {
            &&& i < devices@.len()
            &&& devices@[i as int].id@ == id@
            &&& forall|j: int| 0 <= j < i ==> (#[trigger] devices@[j]).id@ != id@
        },
{
    let mut i: usize = 0;
    while i < devices.len()
        invariant
            i <= devices@.len(),
            forall|j: int| 0 <= j < i ==> (#[trigger] devices@[j]).id@ != id@,
        decreases devices@.len() - i,
    {
        if devices[i].id == *id {
            return Some(i);
        }
        i = i + 1;
    }
    None
}

} // verus!
