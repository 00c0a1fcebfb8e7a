//! A user's variables (`HID`, `MOUNT`, `OS`, `HOST`, `USER`, ...), as the
//! connection settings of a user.
use vstd::prelude::*;

use crate::text::str_eq;

verus! {

/// Variables of a user, each name with one value.
#[derive(Debug, PartialEq, Eq)]
pub struct Config {
    vars: Vec<(String, String)>,
}

pub open spec fn spec_map_of(s: Seq<(String, String)>) -> Map<Seq<char>, Seq<char>>
    decreases s.len(),
{
    if s.len() == 0 {
        Map::empty()
    } else {
        spec_map_of(s.drop_last()).insert(s.last().0@, s.last().1@)
    }
}

pub open spec fn spec_keys(s: Seq<(String, String)>) -> Seq<Seq<char>> {
    Seq::new(s.len(), |i: int| s[i].0@)
}

proof fn lemma_map_of_update(s: Seq<(String, String)>, i: int, kv: (String, String))
    requires
        spec_keys(s).no_duplicates(),
        0 <= i < s.len(),
        s[i].0@ == kv.0@,
    ensures
        spec_map_of(s.update(i, kv)) == spec_map_of(s).insert(kv.0@, kv.1@),
    decreases s.len(),
{
    let u = s.update(i, kv);
    if i == s.len() - 1 {
        assert(u.drop_last() =~= s.drop_last());
        assert(spec_map_of(u) =~= spec_map_of(s).insert(kv.0@, kv.1@));
    } else {
        let p = s.drop_last();
        assert(u.drop_last() =~= p.update(i, kv));
        assert(spec_keys(p) =~= spec_keys(s).drop_last());
        lemma_map_of_update(p, i, kv);
        assert(spec_keys(s)[i] != spec_keys(s)[s.len() - 1]);
        assert(spec_map_of(u) =~= spec_map_of(s).insert(kv.0@, kv.1@));
    }
}

proof fn lemma_map_of_get(s: Seq<(String, String)>, i: int)
    requires
        spec_keys(s).no_duplicates(),
        0 <= i < s.len(),
    ensures
        spec_map_of(s).contains_key(s[i].0@),
        spec_map_of(s)[s[i].0@] == s[i].1@,
    decreases s.len(),
{
    if i < s.len() - 1 {
        let p = s.drop_last();
        assert(spec_keys(p) =~= spec_keys(s).drop_last());
        lemma_map_of_get(p, i);
        assert(spec_keys(s)[i] != spec_keys(s)[s.len() - 1]);
    }
}

proof fn lemma_map_of_absent(s: Seq<(String, String)>, k: Seq<char>)
    requires
        forall|i: int| 0 <= i < s.len() ==> s[i].0@ != k,
    ensures
        !spec_map_of(s).contains_key(k),
    decreases s.len(),
{
    if s.len() > 0 {
        lemma_map_of_absent(s.drop_last(), k);
    }
}

impl Config {
    /// The variables as a map from names to values.
    pub closed spec fn view(&self) -> Map<Seq<char>, Seq<char>> {
        spec_map_of(self.vars@)
    }

    #[verifier::type_invariant]
    closed spec fn wf(&self) -> bool {
        spec_keys(self.vars@).no_duplicates()
    }

    /// No variable.
    pub fn new() -> (c: Config)
        ensures
            c@ == Map::<Seq<char>, Seq<char>>::empty(),
    {
        let c = Config { vars: Vec::new() };
        assert(spec_keys(c.vars@) =~= Seq::<Seq<char>>::empty());
        c
    }

    fn find(&self, key: &str) -> (r: Option<usize>)
        ensures
            r matches Some(i) ==> i < self.vars@.len() && self.vars@[i as int].0@ == key@,
            r is None ==> forall|i: int| 0 <= i < self.vars@.len() ==> self.vars@[i].0@ != key@,
    {
        let mut i: usize = 0;
        while i < self.vars.len()
            invariant
                i <= self.vars@.len(),
                forall|k: int| 0 <= k < i ==> self.vars@[k].0@ != key@,
            decreases self.vars@.len() - i,
        {
            if str_eq(self.vars[i].0.as_str(), key) {
                return Some(i);
            }
            i = i + 1;
        }
        None
    }

    /// The value of a variable.
    pub fn get(&self, key: &str) -> (r: Option<&String>)
        ensures
            match r {
                Some(v) => self@.contains_key(key@) && self@[key@] == v@,
                None => !self@.contains_key(key@),
            },
    {
        proof {
            use_type_invariant(self);
        }
        match self.find(key) {
            Some(i) => {
                proof {
                    lemma_map_of_get(self.vars@, i as int);
                }
                Some(&self.vars[i].1)
            },
            None => {
                proof {
                    lemma_map_of_absent(self.vars@, key@);
                }
                None
            },
        }
    }

    /// Sets a variable, replacing its former value.
    pub fn insert(&mut self, key: &str, value: &str)
        ensures
            final(self)@ == old(self)@.insert(key@, value@),
    {
        proof {
            use_type_invariant(&*self);
        }
        let kv = (key.to_owned(), value.to_owned());
        match self.find(key) {
            Some(i) => {
                proof {
                    lemma_map_of_update(self.vars@, i as int, kv);
                    assert(spec_keys(self.vars@.update(i as int, kv)) =~= spec_keys(self.vars@));
                }
                let mut vars: Vec<(String, String)> = Vec::new();
                std::mem::swap(&mut vars, &mut self.vars);
                vars.set(i, kv);
                self.vars = vars;
            },
            None => {
                let ghost before = self.vars@;
                proof {
                    assert(spec_keys(before.push(kv)) =~= spec_keys(before).push(key@));
                    assert(!spec_keys(before).contains(key@)) by {
                        if spec_keys(before).contains(key@) {
                            let k = choose|k: int| 0 <= k < before.len() && spec_keys(before)[k] == key@;
                            assert(before[k].0@ == key@);
                        }
                    }
                    assert(before.push(kv).drop_last() =~= before);
                }
                let mut vars: Vec<(String, String)> = Vec::new();
                std::mem::swap(&mut vars, &mut self.vars);
                vars.push(kv);
                self.vars = vars;
            },
        }
    }
}

/// The local user's settings as scripts get them: device `local`, files under
/// `~/.local/share/dv`, Linux.
pub fn current_user_config() -> (c: Config)
    ensures
        c@ == Map::<Seq<char>, Seq<char>>::empty().insert("HID"@, "local"@).insert(
            "MOUNT"@,
            "~/.local/share/dv"@,
        ).insert("OS"@, "linux"@),
{
    let mut c = Config::new();
    c.insert("HID", "local");
    c.insert("MOUNT", "~/.local/share/dv");
    c.insert("OS", "linux");
    c
}

/// A remote user's settings as scripts get them: the host, files under
/// `~/.local/share/dv`, Linux.
pub fn ssh_user_config(host: &str) -> (c: Config)
    ensures
        c@ == Map::<Seq<char>, Seq<char>>::empty().insert("HOST"@, host@).insert(
            "MOUNT"@,
            "~/.local/share/dv"@,
        ).insert("OS"@, "linux"@),
{
    let mut c = Config::new();
    c.insert("HOST", host);
    c.insert("MOUNT", "~/.local/share/dv");
    c.insert("OS", "linux");
    c
}

/// Reading a variable after setting it gives the value set, and setting a
/// variable leaves the others as they were (over the view that `get` and
/// `insert` speak of).
pub proof fn law_read_after_insert(m: Map<Seq<char>, Seq<char>>, k: Seq<char>, v: Seq<char>, other: Seq<char>)
    requires
        other != k,
    ensures
        m.insert(k, v).contains_key(k),
        m.insert(k, v)[k] == v,
        m.insert(k, v).contains_key(other) == m.contains_key(other),
        m.contains_key(other) ==> m.insert(k, v)[other] == m[other],
{
}

} // verus!
