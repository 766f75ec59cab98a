use vstd::prelude::*;

use crate::message::{GatewayMessage, PluginMessage};
use crate::registry::{device_property_set, has_device, Adapter};

verus! {

/// The plugin: its identity and its registry of adapters.
pub struct Plugin {
    pub id: String,
    pub adapters: Vec<Adapter>,
}

/// What became of one inbound command.
#[derive(Debug, PartialEq)]
pub enum Dispatch {
    /// Addressed to another plugin: nothing was done.
    Ignored,
    /// The adapter carried the command out.
    Done,
    /// Recognized, and left to the collaborators that own lifecycles.
    NoAction,
    /// No adapter has the id that the command names.
    AdapterNotFound,
    /// The adapter has no device with the id that the command names.
    DeviceNotFound,
    /// The plugin is to unload: this event goes out, and dispatching ends.
    Shutdown(PluginMessage),
}

/// The registry has an adapter with this id.
pub open spec fn has_adapter(adapters: Seq<Adapter>, id: Seq<char>) -> bool {
    exists|i: int| 0 <= i < adapters.len() && adapters[i].id@ == id
}

/// `new` is `old` with at most the adapter at `i`, whose id is `id`, changed.
pub open spec fn only_adapter_changed(old: Seq<Adapter>, new: Seq<Adapter>, id: Seq<char>, i: int) -> bool {
    0 <= i < old.len() && old[i].id@ == id && new == old.update(i, new[i])
}

impl Plugin {
    /// Adapter ids are unique, and every adapter is well formed.
    pub open spec fn wf(self) -> bool {
        &&& forall|i: int, j: int|
            0 <= i < j < self.adapters@.len() ==> self.adapters@[i].id@ != self.adapters@[j].id@
        &&& forall|i: int| 0 <= i < self.adapters@.len() ==> (#[trigger] self.adapters@[i]).wf()
    }

    /// A plugin with no adapters.
    pub fn new(id: &str) -> (r: Plugin)
        ensures
            r.id@ == id@,
            r.adapters@.len() == 0,
            r.wf(),
    {
        Plugin { id: id.to_string(), adapters: Vec::new() }
    }

    /// The position of the adapter with this id.
    pub fn find_adapter(&self, adapter_id: &String) -> (r: Option<usize>)
        ensures
            match r {
                Some(i) => i < self.adapters@.len() && self.adapters@[i as int].id@ == adapter_id@,
                None => !has_adapter(self.adapters@, adapter_id@),
            },
    {
        let mut i: usize = 0;
        while i < self.adapters.len()
            invariant
                i <= self.adapters.len(),
                forall|k: int| 0 <= k < i ==> self.adapters@[k].id@ != adapter_id@,
            decreases self.adapters.len() - i,
        {
            if self.adapters[i].id == *adapter_id {
                return Some(i);
            }
            i = i + 1;
        }
        None
    }

    /// Adds an adapter; `false`, with nothing changed, where one with its id
    /// is there already.
    pub fn add_adapter(&mut self, adapter: Adapter) -> (r: bool)
        requires
            old(self).wf(),
            adapter.wf(),
        ensures
            final(self).wf(),
            r == !has_adapter(old(self).adapters@, adapter.id@),
            r ==> final(self).adapters@ == old(self).adapters@.push(adapter),
            !r ==> *final(self) == *old(self),
            final(self).id == old(self).id,
    {
        match self.find_adapter(&adapter.id) {
            Some(_) => false,
            None => {
                self.adapters.push(adapter);
                proof {
                    assert forall|i: int| 0 <= i < self.adapters@.len() implies (#[trigger] self.adapters@[i]).wf() by {
                        if i < old(self).adapters@.len() {
                            assert(self.adapters@[i] == old(self).adapters@[i]);
                        }
                    }
                }
                true
            },
        }
    }

    /// Acts on one inbound command.
    ///
    /// A command for another plugin is ignored. A property is set on the named
    /// device of the named adapter; pairing is started or cancelled on the
    /// named adapter. An id that the registry lacks is reported and changes
    /// nothing. Unloading the plugin yields the event that shuts the bridge
    /// down; the other lifecycle commands change nothing.
    pub fn handle_msg(&mut self, msg: GatewayMessage) -> (r: Dispatch)
        requires
            old(self).wf(),
        ensures
            final(self).wf(),
            final(self).id == old(self).id,
            msg.target()@ != old(self).id@ ==> r == Dispatch::Ignored && *final(self) == *old(self),
            msg.target()@ == old(self).id@ ==> match msg {
                GatewayMessage::UnloadPlugin { plugin_id } => r == Dispatch::Shutdown(
                    PluginMessage::PluginUnloaded { plugin_id },
                ) && *final(self) == *old(self),
                GatewayMessage::SetProperty { adapter_id, device_id, property, .. } => {
                    if !has_adapter(old(self).adapters@, adapter_id@) {
                        r == Dispatch::AdapterNotFound && *final(self) == *old(self)
                    } else if !has_device(
                        old(self).adapters@[choose|i: int|
                            0 <= i < old(self).adapters@.len() && old(self).adapters@[i].id@ == adapter_id@],
                        device_id@,
                    ) {
                        r == Dispatch::DeviceNotFound && *final(self) == *old(self)
                    } else {
                        r == Dispatch::Done && exists|i: int|
                            #[trigger] only_adapter_changed(old(self).adapters@, final(self).adapters@, adapter_id@, i)
                                && device_property_set(old(self).adapters@[i], final(self).adapters@[i], device_id@, property)
                    }
                },
                GatewayMessage::StartPairing { adapter_id, timeout, .. } => {
                    if !has_adapter(old(self).adapters@, adapter_id@) {
                        r == Dispatch::AdapterNotFound && *final(self) == *old(self)
                    } else {
                        r == Dispatch::Done && exists|i: int|
                            #[trigger] only_adapter_changed(old(self).adapters@, final(self).adapters@, adapter_id@, i)
                                && final(self).adapters@[i].id == old(self).adapters@[i].id
                                && final(self).adapters@[i].devices == old(self).adapters@[i].devices
                                && final(self).adapters@[i].pairing == Some(timeout)
                    }
                },
                GatewayMessage::CancelPairing { adapter_id, .. } => {
                    if !has_adapter(old(self).adapters@, adapter_id@) {
                        r == Dispatch::AdapterNotFound && *final(self) == *old(self)
                    } else {
                        r == Dispatch::Done && exists|i: int|
                            #[trigger] only_adapter_changed(old(self).adapters@, final(self).adapters@, adapter_id@, i)
                                && final(self).adapters@[i].id == old(self).adapters@[i].id
                                && final(self).adapters@[i].devices == old(self).adapters@[i].devices
                                && final(self).adapters@[i].pairing is None
                    }
                },
                _ => r == Dispatch::NoAction && *final(self) == *old(self),
            },
    {
        let target = match &msg {
            GatewayMessage::UnloadPlugin { plugin_id } => plugin_id,
            GatewayMessage::UnloadAdapter { plugin_id, .. } => plugin_id,
            GatewayMessage::SetProperty { plugin_id, .. } => plugin_id,
            GatewayMessage::StartPairing { plugin_id, .. } => plugin_id,
            GatewayMessage::CancelPairing { plugin_id, .. } => plugin_id,
            GatewayMessage::RemoveThing { plugin_id, .. } => plugin_id,
            GatewayMessage::CancelRemoveThing { plugin_id, .. } => plugin_id,
        };
        if !(*target == self.id) {
            return Dispatch::Ignored;
        }
        match msg {
            GatewayMessage::UnloadPlugin { plugin_id } => {
                Dispatch::Shutdown(PluginMessage::PluginUnloaded { plugin_id })
            },
            GatewayMessage::SetProperty { adapter_id, device_id, property, .. } => {
                let i = match self.find_adapter(&adapter_id) {
                    Some(i) => i,
                    None => return Dispatch::AdapterNotFound,
                };
                let ghost before = self.adapters@;
                proof {
                    let c = choose|k: int| 0 <= k < before.len() && before[k].id@ == adapter_id@;
                    assert(c == i as int);
                }
                if self.adapters[i].find_device(&device_id).is_none() {
                    return Dispatch::DeviceNotFound;
                }
                let mut a = self.adapters.remove(i);
                assert(a.wf());
                a.set_property(&device_id, property);
                self.adapters.insert(i, a);
                proof {
                    self.lemma_replaced(before, i as int);
                    assert(only_adapter_changed(before, self.adapters@, adapter_id@, i as int));
                }
                Dispatch::Done
            },
            GatewayMessage::StartPairing { adapter_id, timeout, .. } => {
                let i = match self.find_adapter(&adapter_id) {
                    Some(i) => i,
                    None => return Dispatch::AdapterNotFound,
                };
                let ghost before = self.adapters@;
                let mut a = self.adapters.remove(i);
                a.start_pairing(timeout);
                self.adapters.insert(i, a);
                proof {
                    self.lemma_replaced(before, i as int);
                    assert(only_adapter_changed(before, self.adapters@, adapter_id@, i as int));
                }
                Dispatch::Done
            },
            GatewayMessage::CancelPairing { adapter_id, .. } => {
                let i = match self.find_adapter(&adapter_id) {
                    Some(i) => i,
                    None => return Dispatch::AdapterNotFound,
                };
                let ghost before = self.adapters@;
                let mut a = self.adapters.remove(i);
                a.cancel_pairing();
                self.adapters.insert(i, a);
                proof {
                    self.lemma_replaced(before, i as int);
                    assert(only_adapter_changed(before, self.adapters@, adapter_id@, i as int));
                }
                Dispatch::Done
            },
            _ => Dispatch::NoAction,
        }
    }

    /// Replacing one adapter by a well-formed one with the same id keeps the
    /// registry well formed.
    proof fn lemma_replaced(self, before: Seq<Adapter>, i: int)
        requires
            0 <= i < before.len(),
            self.adapters@.len() == before.len(),
            forall|k: int| 0 <= k < before.len() && k != i ==> self.adapters@[k] == before[k],
            self.adapters@[i].id@ == before[i].id@,
            self.adapters@[i].wf(),
            forall|k: int, l: int| 0 <= k < l < before.len() ==> before[k].id@ != before[l].id@,
            forall|k: int| 0 <= k < before.len() ==> (#[trigger] before[k]).wf(),
        ensures
            self.wf(),
            self.adapters@ == before.update(i, self.adapters@[i]),
    {
        assert(self.adapters@ =~= before.update(i, self.adapters@[i]));
        assert forall|k: int| 0 <= k < self.adapters@.len() implies (#[trigger] self.adapters@[k]).wf() by {
            if k != i {
                assert(self.adapters@[k] == before[k]);
            }
        }
        assert forall|k: int, l: int| 0 <= k < l < self.adapters@.len() implies self.adapters@[k].id@
            != self.adapters@[l].id@ by {
            if k != i {
                assert(self.adapters@[k] == before[k]);
            }
            if l != i {
                assert(self.adapters@[l] == before[l]);
            }
        }
    }
}

} // verus!
