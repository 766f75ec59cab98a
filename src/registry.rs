use vstd::prelude::*;

use crate::message::Property;

verus! {

/// A controlled endpoint and the values of its properties.
#[derive(Debug, PartialEq)]
pub struct Device {
    pub id: String,
    pub props: Vec<Property>,
}

/// A driver and the devices that it controls.
#[derive(Debug, PartialEq)]
pub struct Adapter {
    pub id: String,
    pub devices: Vec<Device>,
    /// The timeout of the pairing that is under way, if any.
    pub pairing: Option<serde_json::Number>,
}

/// No two properties share a name.
pub open spec fn names_unique(props: Seq<Property>) -> bool {
    forall|i: int, j: int| 0 <= i < j < props.len() ==> props[i].name@ != props[j].name@
}

/// `new` is `old` with `p` set: it takes the place of the property of the
/// same name, or comes last where there is none.
pub open spec fn property_set(old: Seq<Property>, new: Seq<Property>, p: Property) -> bool {
    if exists|i: int| 0 <= i < old.len() && old[i].name@ == p.name@ {
        exists|i: int| 0 <= i < old.len() && old[i].name@ == p.name@ && new == old.update(i, p)
    } else {
        new == old.push(p)
    }
}

/// `new` is the adapter `old` with `p` set on its device `device_id`.
pub open spec fn device_property_set(old: Adapter, new: Adapter, device_id: Seq<char>, p: Property) -> bool {
    &&& new.id == old.id
    &&& new.pairing == old.pairing
    &&& exists|j: int|
        0 <= j < old.devices@.len() && old.devices@[j].id@ == device_id
            && new.devices@ == old.devices@.update(j, new.devices@[j])
            && new.devices@[j].id == old.devices@[j].id
            && property_set(old.devices@[j].props@, new.devices@[j].props@, p)
}

/// The adapter has a device with this id.
pub open spec fn has_device(a: Adapter, device_id: Seq<char>) -> bool {
    exists|j: int| 0 <= j < a.devices@.len() && a.devices@[j].id@ == device_id
}

impl Device {
    /// Property names are unique.
    pub open spec fn wf(self) -> bool {
        names_unique(self.props@)
    }

    /// A device with no properties.
    pub fn new(id: &str) -> (r: Device)
        ensures
            r.id@ == id@,
            r.props@.len() == 0,
            r.wf(),
    {
        Device { id: id.to_string(), props: Vec::new() }
    }

    /// Sets a property: its value replaces that of the property of the same
    /// name, or it is added.
    pub fn set_property(&mut self, p: Property)
        requires
            old(self).wf(),
        ensures
            final(self).wf(),
            final(self).id == old(self).id,
            property_set(old(self).props@, final(self).props@, p),
    {
        let mut i: usize = 0;
        while i < self.props.len()
            invariant
                self.props@ == old(self).props@,
                self.id == old(self).id,
                names_unique(self.props@),
                i <= self.props.len(),
                forall|j: int| 0 <= j < i ==> self.props@[j].name@ != p.name@,
            decreases self.props.len() - i,
        {
            if self.props[i].name == p.name {
                let ghost k = i as int;
                self.props.set(i, p);
                assert(old(self).props@[k].name@ == p.name@);
                return;
            }
            i = i + 1;
        }
        self.props.push(p);
    }
}

impl Adapter {
    /// Device ids are unique, and so are the property names of each device.
    pub open spec fn wf(self) -> bool {
        &&& forall|i: int, j: int|
            0 <= i < j < self.devices@.len() ==> self.devices@[i].id@ != self.devices@[j].id@
        &&& forall|i: int| 0 <= i < self.devices@.len() ==> (#[trigger] self.devices@[i]).wf()
    }

    /// An adapter with no devices and no pairing under way.
    pub fn new(id: &str) -> (r: Adapter)
        ensures
            r.id@ == id@,
            r.devices@.len() == 0,
            r.pairing is None,
            r.wf(),
    {
        Adapter { id: id.to_string(), devices: Vec::new(), pairing: None }
    }

    /// The position of the device with this id.
    pub fn find_device(&self, device_id: &String) -> (r: Option<usize>)
        ensures
            match r {
                Some(j) => j < self.devices@.len() && self.devices@[j as int].id@ == device_id@,
                None => !has_device(*self, device_id@),
            },
    {
        let mut j: usize = 0;
        while j < self.devices.len()
            invariant
                j <= self.devices.len(),
                forall|k: int| 0 <= k < j ==> self.devices@[k].id@ != device_id@,
            decreases self.devices.len() - j,
        {
            if self.devices[j].id == *device_id {
                return Some(j);
            }
            j = j + 1;
        }
        None
    }

    /// Adds a device; `false`, with nothing changed, where one with its id is
    /// there already.
    pub fn add_device(&mut self, device: Device) -> (r: bool)
        requires
            old(self).wf(),
            device.wf(),
        ensures
            final(self).wf(),
            r == !has_device(*old(self), device.id@),
            r ==> final(self).devices@ == old(self).devices@.push(device),
            !r ==> *final(self) == *old(self),
            final(self).id == old(self).id,
            final(self).pairing == old(self).pairing,
    {
        match self.find_device(&device.id) {
            Some(_) => false,
            None => {
                self.devices.push(device);
                proof {
                    assert forall|i: int| 0 <= i < self.devices@.len() implies (#[trigger] self.devices@[i]).wf() by {
                        if i < old(self).devices@.len() {
                            assert(self.devices@[i] == old(self).devices@[i]);
                        }
                    }
                }
                true
            },
        }
    }

    /// Sets a property on one of the adapter's devices; `false`, with nothing
    /// changed, where the adapter has no device with that id.
    pub fn set_property(&mut self, device_id: &String, property: Property) -> (r: bool)
        requires
            old(self).wf(),
        ensures
            final(self).wf(),
            r == has_device(*old(self), device_id@),
            r ==> device_property_set(*old(self), *final(self), device_id@, property),
            !r ==> *final(self) == *old(self),
    {
        match self.find_device(device_id) {
            None => false,
            Some(j) => {
                let ghost before = self.devices@;
                let mut d = self.devices.remove(j);
                assert(d.wf());
                d.set_property(property);
                self.devices.insert(j, d);
                proof {
                    assert(self.devices@ =~= before.update(j as int, self.devices@[j as int]));
                    assert forall|i: int| 0 <= i < self.devices@.len() implies (#[trigger] self.devices@[i]).wf() by {
                        if i != j {
                            assert(self.devices@[i] == before[i]);
                        }
                    }
                }
                true
            },
        }
    }

    /// Starts pairing, for at most `timeout` seconds, which the adapter honours.
    pub fn start_pairing(&mut self, timeout: serde_json::Number)
        ensures
            final(self).id == old(self).id,
            final(self).devices == old(self).devices,
            final(self).pairing == Some(timeout),
    {
        self.pairing = Some(timeout);
    }

    /// Cancels the pairing under way, if any.
    pub fn cancel_pairing(&mut self)
        ensures
            final(self).id == old(self).id,
            final(self).devices == old(self).devices,
            final(self).pairing is None,
    {
        self.pairing = None;
    }
}

} // verus!
