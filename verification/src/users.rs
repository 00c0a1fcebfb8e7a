//! Users and devices: configurations of local and remote users, which of them
//! to connect, and the registry of connected users per device.
use vstd::prelude::*;

use crate::task::clone_opt;
use crate::text::str_eq;

verus! {

/// A user reached over SSH.
#[derive(Debug, Clone, PartialEq, Eq)]
pub struct SSHUserConfig {
    pub uid: String,
    pub host: String,
    pub passwd: Option<String>,
}

impl SSHUserConfig {
    pub fn new(uid: String, host: String) -> (c: SSHUserConfig)
        ensures
            c == (SSHUserConfig { uid, host, passwd: None }),
    {
        SSHUserConfig { uid, host, passwd: None }
    }

    /// The same user with a password.
    pub fn passwd(self, pw: String) -> (c: SSHUserConfig)
        ensures
            c == (SSHUserConfig { passwd: Some(pw), ..self }),
    {
        SSHUserConfig { passwd: Some(pw), ..self }
    }
}

/// A remote device and its users.
#[derive(Debug, Clone, PartialEq, Eq)]
pub struct SSHDeviceConfig {
    pub hid: String,
    pub os: Option<String>,
    pub system: Option<SSHUserConfig>,
    pub users: Vec<SSHUserConfig>,
}

/// How to connect one SSH user.
#[derive(Debug, Clone, PartialEq, Eq)]
pub struct SSHConnect {
    pub hid: String,
    pub host: String,
    pub is_system: bool,
    pub os: Option<String>,
    pub passwd: Option<String>,
}

/// How to connect the local user.
#[derive(Debug, Clone, PartialEq, Eq)]
pub struct LocalConnect {
    pub hid: String,
    pub mount: String,
}

/// Whether the filter lets the user `uid` through.
pub open spec fn spec_allowed(filter: Seq<String>, uid: Seq<char>) -> bool {
    exists|i: int| 0 <= i < filter.len() && (#[trigger] filter[i])@ == uid
}

/// Whether the filter lets the user `uid` through.
pub fn allowed(filter: &Vec<String>, uid: &String) -> (r: bool)
    ensures
        r == spec_allowed(filter@, uid@),
{
    let mut i: usize = 0;
    while i < filter.len()
        invariant
            i <= filter@.len(),
            forall|k: int| 0 <= k < i ==> (#[trigger] filter@[k])@ != uid@,
        decreases filter@.len() - i,
    {
        if str_eq(filter[i].as_str(), uid.as_str()) {
            return true;
        }
        i = i + 1;
    }
    false
}

/// The users of `users` that the filter lets through, each with how to connect it.
pub open spec fn spec_ssh_users(
    hid: String,
    os: Option<String>,
    users: Seq<SSHUserConfig>,
    filter: Seq<String>,
) -> Seq<(String, SSHConnect)>
    decreases users.len(),
{
    if users.len() == 0 {
        seq![]
    } else {
        let prev = spec_ssh_users(hid, os, users.drop_last(), filter);
        let u = users.last();
        if spec_allowed(filter, u.uid@) {
            prev.push(
                (u.uid, SSHConnect { hid, host: u.host, is_system: false, os, passwd: u.passwd }),
            )
        } else {
            prev
        }
    }
}

/// Every connection planned for the ordinary users of a device is to that
/// device (its `hid`), with the device's operating system, as an ordinary
/// user, and only for users the filter lets through; there is at most one per
/// configured user.
pub proof fn law_ssh_users_connect_to_their_device(
    hid: String,
    os: Option<String>,
    users: Seq<SSHUserConfig>,
    filter: Seq<String>,
)
    ensures
        spec_ssh_users(hid, os, users, filter).len() <= users.len(),
        forall|i: int|
            0 <= i < spec_ssh_users(hid, os, users, filter).len() ==> {
                let c = #[trigger] spec_ssh_users(hid, os, users, filter)[i];
                &&& c.1.hid == hid
                &&& c.1.os == os
                &&& !c.1.is_system
                &&& spec_allowed(filter, c.0@)
            },
    decreases users.len(),
{
    if users.len() > 0 {
        law_ssh_users_connect_to_their_device(hid, os, users.drop_last(), filter);
        let prev = spec_ssh_users(hid, os, users.drop_last(), filter);
        let r = spec_ssh_users(hid, os, users, filter);
        assert forall|i: int| 0 <= i < r.len() implies {
            let c = #[trigger] r[i];
            &&& c.1.hid == hid
            &&& c.1.os == os
            &&& !c.1.is_system
            &&& spec_allowed(filter, c.0@)
        } by {
            if i < prev.len() {
                assert(r[i] == prev[i]);
            }
        }
    }
}

impl SSHDeviceConfig {
    pub fn new(id: String, users: Vec<SSHUserConfig>) -> (c: SSHDeviceConfig)
        ensures
            c.hid == id,
            c.os is None,
            c.system_user() is None,
            c.user_list() == users@,
    {
        SSHDeviceConfig { hid: id, os: None, system: None, users }
    }

    pub open spec fn system_user(&self) -> Option<SSHUserConfig> {
        self.system
    }

    pub open spec fn user_list(&self) -> Seq<SSHUserConfig> {
        self.users@
    }

    /// The same device with its administrator.
    pub fn root(self, root: SSHUserConfig) -> (c: SSHDeviceConfig)
        ensures
            c.hid == self.hid,
            c.os == self.os,
            c.system_user() == Some(root),
            c.user_list() == self.user_list(),
    {
        let mut c = self;
        c.system = Some(root);
        c
    }

    /// The same device with its operating system.
    pub fn os(self, os: String) -> (c: SSHDeviceConfig)
        ensures
            c.hid == self.hid,
            c.os == Some(os),
            c.system_user() == self.system_user(),
            c.user_list() == self.user_list(),
    {
        let mut c = self;
        c.os = Some(os);
        c
    }

    /// The users to connect, before any connection is made:
    /// the administrator when the filter lets it through, and the users it lets
    /// through, in order. All connect to the device with its operating system.
    pub fn connect_plan(&self, filter: &Vec<String>) -> (r: (
        Option<(String, SSHConnect)>,
        Vec<(String, SSHConnect)>,
    ))
        ensures
            r.1@ == spec_ssh_users(self.hid, self.os, self.user_list(), filter@),
            forall|i: int|
                0 <= i < r.1@.len() ==> (#[trigger] r.1@[i]).1.hid == self.hid && r.1@[i].1.os == self.os
                    && !r.1@[i].1.is_system,
            match self.system_user() {
                Some(s) => if spec_allowed(filter@, s.uid@) {
                    r.0 == Some(
                        (
                            s.uid,
                            SSHConnect {
                                hid: self.hid,
                                host: s.host,
                                is_system: true,
                                os: self.os,
                                passwd: s.passwd,
                            },
                        ),
                    )
                } else {
                    r.0 is None
                },
                None => r.0 is None,
            },
    {
        let mut v: Vec<(String, SSHConnect)> = Vec::new();
        let mut i: usize = 0;
        while i < self.users.len()
            invariant
                i <= self.users@.len(),
                v@ == spec_ssh_users(self.hid, self.os, self.users@.take(i as int), filter@),
            decreases self.users@.len() - i,
        {
            let u = &self.users[i];
            proof {
                assert(self.users@.take(i + 1).drop_last() =~= self.users@.take(i as int));
            }
            if allowed(filter, &u.uid) {
                let c = SSHConnect {
                    hid: self.hid.clone(),
                    host: u.host.clone(),
                    is_system: false,
                    os: clone_opt(&self.os),
                    passwd: clone_opt(&u.passwd),
                };
                v.push((u.uid.clone(), c));
            }
            i = i + 1;
        }
        assert(self.users@.take(self.users@.len() as int) =~= self.users@);
        let system = match &self.system {
            Some(s) => {
                if allowed(filter, &s.uid) {
                    Some(
                        (
                            s.uid.clone(),
                            SSHConnect {
                                hid: self.hid.clone(),
                                host: s.host.clone(),
                                is_system: true,
                                os: clone_opt(&self.os),
                                passwd: clone_opt(&s.passwd),
                            },
                        ),
                    )
                } else {
                    None
                }
            },
            None => None,
        };
        proof {
            law_ssh_users_connect_to_their_device(self.hid, self.os, self.users@, filter@);
        }
        (system, v)
    }
}

/// The local user's settings.
#[derive(Debug, Clone, PartialEq, Eq)]
pub struct LocalConfig {
    pub uid: String,
    /// Where the user's files live.
    pub mount: String,
}

/// The local device: its user and, optionally, its administrator over SSH.
#[derive(Debug, Clone, PartialEq, Eq)]
pub struct LocalDeviceConfig {
    pub hid: String,
    pub user: LocalConfig,
    pub system: Option<SSHUserConfig>,
}

impl LocalDeviceConfig {
    /// The same device with its administrator.
    pub fn system(self, system: SSHUserConfig) -> (c: LocalDeviceConfig)
        ensures
            c == (LocalDeviceConfig { system: Some(system), ..self }),
    {
        LocalDeviceConfig { system: Some(system), ..self }
    }

    /// The users to connect: the administrator (over SSH, on this device, with
    /// no operating system given) when the filter lets it through, and the local
    /// user when the filter lets it through.
    pub fn connect_plan(&self, filter: &Vec<String>) -> (r: (
        Option<(String, SSHConnect)>,
        Option<(String, LocalConnect)>,
    ))
        ensures
            spec_allowed(filter@, self.user.uid@) ==> r.1 == Some(
                (self.user.uid, LocalConnect { hid: self.hid, mount: self.user.mount }),
            ),
            !spec_allowed(filter@, self.user.uid@) ==> r.1 is None,
            match self.system {
                Some(s) => if spec_allowed(filter@, s.uid@) {
                    r.0 == Some(
                        (
                            s.uid,
                            SSHConnect {
                                hid: self.hid,
                                host: s.host,
                                is_system: true,
                                os: None,
                                passwd: s.passwd,
                            },
                        ),
                    )
                } else {
                    r.0 is None
                },
                None => r.0 is None,
            },
    {
        let user = if allowed(filter, &self.user.uid) {
            Some(
                (
                    self.user.uid.clone(),
                    LocalConnect { hid: self.hid.clone(), mount: self.user.mount.clone() },
                ),
            )
        } else {
            None
        };
        let system = match &self.system {
            Some(s) => {
                if allowed(filter, &s.uid) {
                    Some(
                        (
                            s.uid.clone(),
                            SSHConnect {
                                hid: self.hid.clone(),
                                host: s.host.clone(),
                                is_system: true,
                                os: None,
                                passwd: clone_opt(&s.passwd),
                            },
                        ),
                    )
                } else {
                    None
                }
            },
            None => None,
        };
        (system, user)
    }
}

/// The local user as a configuration script gives it.
#[derive(Debug, Clone, PartialEq, Eq)]
pub struct CurrentUser {
    hid: String,
    mount: String,
}

impl CurrentUser {
    pub fn new(hid: &str, mount: &str) -> (u: CurrentUser)
        ensures
            u.spec_hid() == hid@,
            u.spec_mount() == mount@,
    {
        CurrentUser { hid: hid.to_owned(), mount: mount.to_owned() }
    }

    pub closed spec fn spec_hid(&self) -> Seq<char> {
        self.hid@
    }

    pub closed spec fn spec_mount(&self) -> Seq<char> {
        self.mount@
    }

    /// How to connect this user.
    pub fn cast(self) -> (c: LocalConnect)
        ensures
            c.hid@ == self.spec_hid(),
            c.mount@ == self.spec_mount(),
    {
        LocalConnect { hid: self.hid, mount: self.mount }
    }
}

/// A remote user as a configuration script gives it.
#[derive(Debug, Clone, PartialEq, Eq)]
pub struct SSHUser {
    hid: String,
    host: String,
    pub is_system: bool,
    os: Option<String>,
    passwd: Option<String>,
}

impl SSHUser {
    /// A user who is not an administrator, with no operating system or password given.
    pub fn new(hid: &str, host: &str) -> (u: SSHUser)
        ensures
            u.spec_connect() == (SSHConnect {
                hid: u.spec_connect().hid,
                host: u.spec_connect().host,
                is_system: false,
                os: None,
                passwd: None,
            }),
            u.spec_connect().hid@ == hid@,
            u.spec_connect().host@ == host@,
    {
        SSHUser { hid: hid.to_owned(), host: host.to_owned(), is_system: false, os: None, passwd: None }
    }

    pub closed spec fn spec_connect(&self) -> SSHConnect {
        SSHConnect {
            hid: self.hid,
            host: self.host,
            is_system: self.is_system,
            os: self.os,
            passwd: self.passwd,
        }
    }

    /// How to connect this user.
    pub fn cast(self) -> (c: SSHConnect)
        ensures
            c == self.spec_connect(),
    {
        SSHConnect {
            hid: self.hid,
            host: self.host,
            is_system: self.is_system,
            os: self.os,
            passwd: self.passwd,
        }
    }
}

} // verus!
