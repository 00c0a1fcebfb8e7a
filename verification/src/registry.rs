//! The users a configuration script connected, grouped by device.
use vstd::prelude::*;

use crate::text::{opt_view, str_eq, strs_view};

verus! {

/// A device and the ids of its users.
#[derive(Debug, Clone, PartialEq, Eq)]
pub struct Device {
    pub hid: String,
    /// The id of its administrator.
    pub system: Option<String>,
    /// The ids of its other users.
    pub users: Vec<String>,
}

/// Abstract device: key, administrator and users.
pub struct DeviceView {
    pub hid: Seq<char>,
    pub system: Option<Seq<char>>,
    pub users: Seq<Seq<char>>,
}

impl Device {
    pub open spec fn view(&self) -> DeviceView {
        DeviceView { hid: self.hid@, system: opt_view(self.system), users: strs_view(self.users@) }
    }
}

/// Why a user cannot be added.
#[derive(Debug, Clone, Copy, PartialEq, Eq, Structural)]
pub enum RegistryError {
    /// A user with this id exists already.
    UserExists,
    /// The device has an administrator already.
    SystemExists,
}

/// A script named a user that is not connected: `user {uid} not found`.
#[derive(Debug, Clone, PartialEq, Eq)]
pub struct UserNotFound {
    pub uid: String,
}

impl UserNotFound {
    /// The message: `user {uid} not found`.
    pub fn message(&self) -> (m: String)
        ensures
            m@ == "user "@ + self.uid@ + " not found"@,
    {
        crate::copy::user_not_found(self.uid.as_str())
    }
}

/// Connected users and their devices.
#[derive(Debug, Clone, PartialEq, Eq)]
pub struct Registry {
    /// Ids of the users, in the order they were added.
    pub users: Vec<String>,
    /// The devices; no two have the same key.
    pub devices: Vec<Device>,
}

pub open spec fn spec_index_of(keys: Seq<Seq<char>>, k: Seq<char>) -> Option<int> {
    if exists|i: int| 0 <= i < keys.len() && keys[i] == k {
        Some(choose|i: int| 0 <= i < keys.len() && keys[i] == k)
    } else {
        None
    }
}

impl Registry {
    pub open spec fn user_ids(&self) -> Seq<Seq<char>> {
        strs_view(self.users@)
    }

    pub open spec fn device_views(&self) -> Seq<DeviceView> {
        Seq::new(self.devices@.len(), |i: int| self.devices@[i].view())
    }

    pub open spec fn device_keys(&self) -> Seq<Seq<char>> {
        Seq::new(self.devices@.len(), |i: int| self.devices@[i].hid@)
    }

    /// No user id and no device key occurs twice.
    pub open spec fn wf(&self) -> bool {
        &&& self.user_ids().no_duplicates()
        &&& self.device_keys().no_duplicates()
    }

    /// Whether a user with this id exists.
    pub open spec fn has_user(&self, id: Seq<char>) -> bool {
        self.user_ids().contains(id)
    }

    /// No user, no device.
    pub fn new() -> (r: Registry)
        ensures
            r.wf(),
            r.users@.len() == 0,
            r.devices@.len() == 0,
    {
        let r = Registry { users: Vec::new(), devices: Vec::new() };
        assert(r.user_ids() =~= Seq::<Seq<char>>::empty());
        assert(r.device_keys() =~= Seq::<Seq<char>>::empty());
        r
    }

    /// Whether a user with this id exists.
    pub fn contains_user(&self, id: &str) -> (r: bool)
        ensures
            r == self.has_user(id@),
    {
        let mut i: usize = 0;
        while i < self.users.len()
            invariant
                i <= self.users@.len(),
                forall|k: int| 0 <= k < i ==> self.users@[k]@ != id@,
            decreases self.users@.len() - i,
        {
            if str_eq(self.users[i].as_str(), id) {
                assert(self.user_ids()[i as int] == id@);
                return true;
            }
            i = i + 1;
        }
        assert(!self.user_ids().contains(id@)) by {
            if self.user_ids().contains(id@) {
                let k = choose|k: int| 0 <= k < self.user_ids().len() && self.user_ids()[k] == id@;
                assert(self.users@[k]@ == id@);
            }
        }
        false
    }

    /// Looks a user up by id: an unknown id is an error that names it.
    pub fn lookup(&self, uid: &str) -> (r: Result<(), UserNotFound>)
        ensures
            r is Ok <==> self.has_user(uid@),
            r matches Err(e) ==> e.uid@ == uid@,
    {
        if self.contains_user(uid) {
            Ok(())
        } else {
            Err(UserNotFound { uid: uid.to_owned() })
        }
    }

    /// The position of the device with this key.
    pub fn find_device(&self, hid: &str) -> (r: Option<usize>)
        ensures
            r matches Some(k) ==> k < self.devices@.len() && self.devices@[k as int].hid@ == hid@,
            r is None ==> !self.device_keys().contains(hid@),
    {
        let mut i: usize = 0;
        while i < self.devices.len()
            invariant
                i <= self.devices@.len(),
                forall|k: int| 0 <= k < i ==> self.devices@[k].hid@ != hid@,
            decreases self.devices@.len() - i,
        {
            if str_eq(self.devices[i].hid.as_str(), hid) {
                return Some(i);
            }
            i = i + 1;
        }
        assert(!self.device_keys().contains(hid@)) by {
            if self.device_keys().contains(hid@) {
                let k = choose|k: int| 0 <= k < self.device_keys().len() && self.device_keys()[k] == hid@;
                assert(self.devices@[k].hid@ == hid@);
            }
        }
        None
    }

    fn push_user(&mut self, id: &str)
        requires
            old(self).wf(),
            !old(self).has_user(id@),
        ensures
            final(self).wf(),
            final(self).user_ids() == old(self).user_ids().push(id@),
            final(self).devices == old(self).devices,
    {
        self.users.push(id.to_owned());
        assert(self.user_ids() =~= old(self).user_ids().push(id@));
    }

    /// Records a connected user. A user with the same id
    /// is an error. A user with a device key joins that device, as its
    /// administrator (replacing the former one) or as one of its users; a new key
    /// makes a new device. A user without a device key joins no device.
    pub fn add_user(&mut self, id: &str, hid: Option<&str>, is_system: bool) -> (r: Result<(), RegistryError>)
        requires
            old(self).wf(),
        ensures
            final(self).wf(),
            old(self).has_user(id@) ==> r == Err::<(), RegistryError>(RegistryError::UserExists) && *final(self) == *old(self),
            !old(self).has_user(id@) ==> {
                &&& r is Ok
                &&& final(self).user_ids() == old(self).user_ids().push(id@)
                &&& match hid {
                    None => final(self).device_views() == old(self).device_views(),
                    Some(h) => match spec_index_of(old(self).device_keys(), h@) {
                        Some(k) => final(self).device_views() == old(self).device_views().update(k, if is_system {
                            DeviceView { system: Some(id@), ..old(self).device_views()[k] }
                        } else {
                            DeviceView { users: old(self).device_views()[k].users.push(id@), ..old(self).device_views()[k] }
                        }),
                        None => final(self).device_views() == old(self).device_views().push(if is_system {
                            DeviceView { hid: h@, system: Some(id@), users: seq![] }
                        } else {
                            DeviceView { hid: h@, system: None, users: seq![id@] }
                        }),
                    },
                }
            },
    {
        if self.contains_user(id) {
            return Err(RegistryError::UserExists);
        }
        match hid {
            None => {},
            Some(h) => {
                match self.find_device(h) {
                    Some(k) => {
                        proof {
                            assert(self.device_keys()[k as int] == h@);
                            assert(spec_index_of(self.device_keys(), h@) == Some(k as int)) by {
                                let c = choose|i: int| 0 <= i < self.device_keys().len() && self.device_keys()[i] == h@;
                                assert(self.device_keys().no_duplicates());
                            }
                        }
                        let ghost before = self.device_views();
                        let ghost keys = self.device_keys();
                        if is_system {
                            self.devices[k].system = Some(id.to_owned());
                        } else {
                            let ghost us = self.devices@[k as int].users@;
                            self.devices[k].users.push(id.to_owned());
                            assert(strs_view(self.devices@[k as int].users@) =~= strs_view(us).push(id@));
                        }
                        assert(self.device_keys() =~= keys);
                        assert(self.device_views() =~= before.update(k as int, if is_system {
                            DeviceView { system: Some(id@), ..before[k as int] }
                        } else {
                            DeviceView { users: before[k as int].users.push(id@), ..before[k as int] }
                        }));
                    },
                    None => {
                        let ghost before = self.device_views();
                        let ghost keys = self.device_keys();
                        let d = if is_system {
                            Device { hid: h.to_owned(), system: Some(id.to_owned()), users: Vec::new() }
                        } else {
                            Device { hid: h.to_owned(), system: None, users: vec![id.to_owned()] }
                        };
                        self.devices.push(d);
                        assert(self.device_keys() =~= keys.push(h@));
                        assert(strs_view(self.devices@.last().users@) =~= if is_system { seq![] } else { seq![id@] });
                        assert(self.device_views() =~= before.push(if is_system {
                            DeviceView { hid: h@, system: Some(id@), users: seq![] }
                        } else {
                            DeviceView { hid: h@, system: None, users: seq![id@] }
                        }));
                    },
                }
            },
        }
        self.push_user(id);
        Ok(())
    }

    /// Records a user under a device named by the user's own id, as a script
    /// adds a local or a remote user. The id must be
    /// new, and a device has at most one administrator: the script stops
    /// otherwise.
    pub fn add_device_user(&mut self, id: &str, is_system: bool)
        requires
            old(self).wf(),
            !old(self).has_user(id@),
            is_system ==> match spec_index_of(old(self).device_keys(), id@) {
                Some(k) => old(self).device_views()[k].system is None,
                None => true,
            },
        ensures
            final(self).wf(),
            final(self).user_ids() == old(self).user_ids().push(id@),
            match spec_index_of(old(self).device_keys(), id@) {
                Some(k) => final(self).device_views() == old(self).device_views().update(k, if is_system {
                    DeviceView { system: Some(id@), ..old(self).device_views()[k] }
                } else {
                    DeviceView { users: old(self).device_views()[k].users.push(id@), ..old(self).device_views()[k] }
                }),
                None => final(self).device_views() == old(self).device_views().push(if is_system {
                    DeviceView { hid: id@, system: Some(id@), users: seq![] }
                } else {
                    DeviceView { hid: id@, system: None, users: seq![id@] }
                }),
            },
    {
        let r = self.add_user(id, Some(id), is_system);
    }
}

} // verus!
