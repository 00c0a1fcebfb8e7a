//! Package lists per package manager, as a configuration script builds them.
use vstd::prelude::*;

use crate::text::{chars_of, opt_view, push_char};

verus! {

/// A package manager.
#[derive(Debug, Clone, Copy, PartialEq, Eq, Structural)]
pub enum Pm {
    Apk,
    Apt,
    Pacman,
    Yay,
    Paru,
    Winget,
}

/// The name of a package manager.
pub open spec fn spec_pm_name(pm: Pm) -> Seq<char> {
    match pm {
        Pm::Apk => seq!['a', 'p', 'k'],
        Pm::Apt => seq!['a', 'p', 't'],
        Pm::Pacman => seq!['p', 'a', 'c', 'm', 'a', 'n'],
        Pm::Yay => seq!['y', 'a', 'y'],
        Pm::Paru => seq!['p', 'a', 'r', 'u'],
        Pm::Winget => seq!['w', 'i', 'n', 'g', 'e', 't'],
    }
}

/// The package manager with the given name, if any.
pub open spec fn spec_parse_pm(s: Seq<char>) -> Option<Pm> {
    if s == spec_pm_name(Pm::Apk) {
        Some(Pm::Apk)
    } else if s == spec_pm_name(Pm::Apt) {
        Some(Pm::Apt)
    } else if s == spec_pm_name(Pm::Pacman) {
        Some(Pm::Pacman)
    } else if s == spec_pm_name(Pm::Yay) {
        Some(Pm::Yay)
    } else if s == spec_pm_name(Pm::Paru) {
        Some(Pm::Paru)
    } else if s == spec_pm_name(Pm::Winget) {
        Some(Pm::Winget)
    } else {
        None
    }
}

fn name_is(cs: &Vec<char>, name: &[char]) -> (r: bool)
    ensures
        r == (cs@ == name@),
{
    if cs.len() != name.len() {
        return false;
    }
    let mut i: usize = 0;
    while i < cs.len()
        invariant
            cs@.len() == name@.len(),
            i <= cs@.len(),
            forall|k: int| 0 <= k < i ==> cs@[k] == name@[k],
        decreases cs@.len() - i,
    {
        if cs[i] != name[i] {
            return false;
        }
        i = i + 1;
    }
    assert(cs@ =~= name@);
    true
}

/// Reads a package manager's name (`FromStr`).
pub fn parse_pm(s: &str) -> (r: Option<Pm>)
    ensures
        r == spec_parse_pm(s@),
{
    let cs = chars_of(s);
    let apk = ['a', 'p', 'k'];
    let apt = ['a', 'p', 't'];
    let pacman = ['p', 'a', 'c', 'm', 'a', 'n'];
    let yay = ['y', 'a', 'y'];
    let paru = ['p', 'a', 'r', 'u'];
    let winget = ['w', 'i', 'n', 'g', 'e', 't'];
    assert(apk@ =~= spec_pm_name(Pm::Apk));
    assert(apt@ =~= spec_pm_name(Pm::Apt));
    assert(pacman@ =~= spec_pm_name(Pm::Pacman));
    assert(yay@ =~= spec_pm_name(Pm::Yay));
    assert(paru@ =~= spec_pm_name(Pm::Paru));
    assert(winget@ =~= spec_pm_name(Pm::Winget));
    if name_is(&cs, &apk) {
        Some(Pm::Apk)
    } else if name_is(&cs, &apt) {
        Some(Pm::Apt)
    } else if name_is(&cs, &pacman) {
        Some(Pm::Pacman)
    } else if name_is(&cs, &yay) {
        Some(Pm::Yay)
    } else if name_is(&cs, &paru) {
        Some(Pm::Paru)
    } else if name_is(&cs, &winget) {
        Some(Pm::Winget)
    } else {
        None
    }
}

/// Packages to install, per package manager.
#[derive(Debug, Clone, PartialEq, Eq, Default)]
pub struct Package {
    pub apk: Option<String>,
    pub apt: Option<String>,
    pub pacman: Option<String>,
    pub yay: Option<String>,
    pub paru: Option<String>,
    pub winget: Option<String>,
}

/// Error of [`Package::index_set`].
#[derive(Debug, Clone, Copy, PartialEq, Eq, Structural)]
pub enum PackageError {
    /// The key names no package manager.
    UnknownPm,
}

/// `r` merged into `l`: kept when `r` is absent, taken when `l` is absent,
/// else appended after a space.
pub open spec fn spec_merge(l: Option<Seq<char>>, r: Option<Seq<char>>) -> Option<Seq<char>> {
    match (l, r) {
        (None, Some(v)) => Some(v),
        (Some(a), Some(b)) => Some(a.push(' ') + b),
        _ => l,
    }
}

/// `r` added to `l` by `+=`: a space and `r` are appended, to an empty text
/// when `l` is absent.
pub open spec fn spec_add(l: Option<Seq<char>>, r: Option<Seq<char>>) -> Option<Seq<char>> {
    match r {
        Some(b) => Some(
            match l {
                Some(a) => a,
                None => Seq::<char>::empty(),
            }.push(' ') + b,
        ),
        None => l,
    }
}

fn merge_field(l: &mut Option<String>, r: &Option<String>)
    ensures
        opt_view(*final(l)) == spec_merge(opt_view(*old(l)), opt_view(*r)),
{
    match r {
        Some(v) => {
            match l {
                Some(a) => {
                    push_char(a, ' ');
                    a.append(v.as_str());
                },
                None => {
                    *l = Some(v.clone());
                },
            }
        },
        None => {},
    }
}

fn add_field(l: &mut Option<String>, r: &Option<String>)
    ensures
        opt_view(*final(l)) == spec_add(opt_view(*old(l)), opt_view(*r)),
{
    match r {
        Some(v) => {
            let mut a = match l.take() {
                Some(a) => a,
                None => String::new(),
            };
            push_char(&mut a, ' ');
            a.append(v.as_str());
            *l = Some(a);
        },
        None => {},
    }
}

impl Package {
    /// The packages for one manager.
    pub open spec fn field(self, pm: Pm) -> Option<Seq<char>> {
        opt_view(
            match pm {
                Pm::Apk => self.apk,
                Pm::Apt => self.apt,
                Pm::Pacman => self.pacman,
                Pm::Yay => self.yay,
                Pm::Paru => self.paru,
                Pm::Winget => self.winget,
            },
        )
    }

    /// No package for any manager.
    pub fn new() -> (p: Package)
        ensures
            forall|pm: Pm| p.field(pm) is None,
    {
        Package { apk: None, apt: None, pacman: None, yay: None, paru: None, winget: None }
    }

    /// Merges `value` into `self`, manager by manager (`+=` of scripts that use
    /// a package record).
    pub fn merge(&mut self, value: &Package)
        ensures
            forall|pm: Pm| #[trigger] final(self).field(pm) == spec_merge(old(self).field(pm), value.field(pm)),
    {
        merge_field(&mut self.apk, &value.apk);
        merge_field(&mut self.apt, &value.apt);
        merge_field(&mut self.pacman, &value.pacman);
        merge_field(&mut self.yay, &value.yay);
        merge_field(&mut self.paru, &value.paru);
        merge_field(&mut self.winget, &value.winget);
    }

    /// Adds `value` to `self`, manager by manager (`+=` on a package map): each
    /// list of `value` is appended after a space, also where `self` had none.
    pub fn add_assign(&mut self, value: &Package)
        ensures
            forall|pm: Pm| #[trigger] final(self).field(pm) == spec_add(old(self).field(pm), value.field(pm)),
    {
        add_field(&mut self.apk, &value.apk);
        add_field(&mut self.apt, &value.apt);
        add_field(&mut self.pacman, &value.pacman);
        add_field(&mut self.yay, &value.yay);
        add_field(&mut self.paru, &value.paru);
        add_field(&mut self.winget, &value.winget);
    }

    /// Sets the packages of the manager named `key`; another key changes nothing.
    pub fn set(&mut self, key: &str, value: &str)
        ensures
            match spec_parse_pm(key@) {
                Some(p) => forall|pm: Pm|
                    #[trigger] final(self).field(pm) == if pm == p {
                        Some(value@)
                    } else {
                        old(self).field(pm)
                    },
                None => *final(self) == *old(self),
            },
    {
        match parse_pm(key) {
            Some(pm) => self.put(pm, value),
            None => {},
        }
    }

    /// Sets the packages of the manager named `key` (`INDEX_SET`); an unknown
    /// key is an error and changes nothing.
    pub fn index_set(&mut self, key: &str, value: &str) -> (r: Result<(), PackageError>)
        ensures
            match spec_parse_pm(key@) {
                Some(p) => r is Ok && forall|pm: Pm|
                    #[trigger] final(self).field(pm) == if pm == p {
                        Some(value@)
                    } else {
                        old(self).field(pm)
                    },
                None => r == Err::<(), PackageError>(PackageError::UnknownPm) && *final(self)
                    == *old(self),
            },
    {
        match parse_pm(key) {
            Some(pm) => {
                self.put(pm, value);
                Ok(())
            },
            None => Err(PackageError::UnknownPm),
        }
    }

    /// How the packages are shown: `empty` when no manager has any, else
    /// `manager:packages ` for each manager that has some.
    pub fn display(&self) -> (m: String)
        ensures
            m@ == self.spec_display(),
    {
        if self.apk.is_none() && self.apt.is_none() && self.pacman.is_none() && self.yay.is_none()
            && self.paru.is_none() && self.winget.is_none() {
            let cs = vec!['e', 'm', 'p', 't', 'y'];
            let m = crate::text::string_of_chars(cs.as_slice());
            assert(m@ =~= seq!['e', 'm', 'p', 't', 'y']);
            return m;
        }
        let mut m = String::new();
        show_field(&mut m, Pm::Apk, &self.apk);
        show_field(&mut m, Pm::Apt, &self.apt);
        show_field(&mut m, Pm::Pacman, &self.pacman);
        show_field(&mut m, Pm::Yay, &self.yay);
        show_field(&mut m, Pm::Paru, &self.paru);
        show_field(&mut m, Pm::Winget, &self.winget);
        assert(m@ =~= self.spec_display());
        m
    }

    pub open spec fn spec_display(&self) -> Seq<char> {
        if self.apk is None && self.apt is None && self.pacman is None && self.yay is None
            && self.paru is None && self.winget is None {
            seq!['e', 'm', 'p', 't', 'y']
        } else {
            spec_show(Pm::Apk, self.field(Pm::Apk)) + spec_show(Pm::Apt, self.field(Pm::Apt)) + spec_show(
                Pm::Pacman,
                self.field(Pm::Pacman),
            ) + spec_show(Pm::Yay, self.field(Pm::Yay)) + spec_show(Pm::Paru, self.field(Pm::Paru))
                + spec_show(Pm::Winget, self.field(Pm::Winget))
        }
    }

    fn put(&mut self, pm: Pm, value: &str)
        ensures
            forall|q: Pm| #[trigger] final(self).field(q) == if q == pm {
                Some(value@)
            } else {
                old(self).field(q)
            },
    {
        let v = value.to_owned();
        match pm {
            Pm::Apk => self.apk = Some(v),
            Pm::Apt => self.apt = Some(v),
            Pm::Pacman => self.pacman = Some(v),
            Pm::Yay => self.yay = Some(v),
            Pm::Paru => self.paru = Some(v),
            Pm::Winget => self.winget = Some(v),
        }
    }
}

/// `+=` never loses a package already listed: where both sides list
/// packages, the result is the old list, a space, then the added list; where
/// only the added side does, a space and its list; where it lists none, the
/// old list stays.
pub proof fn law_add_appends_after_a_space(a: Seq<char>, b: Seq<char>, l: Option<Seq<char>>)
    ensures
        spec_add(Some(a), Some(b)) matches Some(res) && res.len() == a.len() + 1 + b.len()
            && res.subrange(0, a.len() as int) == a && res[a.len() as int] == ' '
            && res.subrange(a.len() as int + 1, res.len() as int) == b,
        spec_add(None, Some(b)) == Some(seq![' '] + b),
        spec_add(l, None) == l,
{
    let res = a.push(' ') + b;
    assert(res.subrange(0, a.len() as int) =~= a);
    assert(res.subrange(a.len() as int + 1, res.len() as int) =~= b);
    assert(Seq::<char>::empty().push(' ') + b =~= seq![' '] + b);
}

/// Merging keeps what was listed: where both sides list packages, the result
/// is the old list, a space, then the merged list.
pub proof fn law_merge_appends_after_a_space(a: Seq<char>, b: Seq<char>)
    ensures
        spec_merge(Some(a), Some(b)) matches Some(res) && res.len() == a.len() + 1 + b.len()
            && res.subrange(0, a.len() as int) == a && res[a.len() as int] == ' '
            && res.subrange(a.len() as int + 1, res.len() as int) == b,
{
    let res = a.push(' ') + b;
    assert(res.subrange(0, a.len() as int) =~= a);
    assert(res.subrange(a.len() as int + 1, res.len() as int) =~= b);
}

/// Merging a package without any list changes nothing.
pub proof fn law_merge_empty_is_identity(l: Option<Seq<char>>)
    ensures
        spec_merge(l, None) == l,
{
}

/// Merging into a package without any list gives the merged lists.
pub proof fn law_merge_into_empty(r: Option<Seq<char>>)
    ensures
        spec_merge(None, r) == r,
{
}

/// `manager:packages ` when the manager has packages, else nothing.
pub open spec fn spec_show(pm: Pm, v: Option<Seq<char>>) -> Seq<char> {
    match v {
        Some(p) => spec_pm_name(pm) + seq![':'] + p + seq![' '],
        None => seq![],
    }
}

/// The name of a package manager.
pub fn pm_name(pm: Pm) -> (s: String)
    ensures
        s@ == spec_pm_name(pm),
{
    let cs = match pm {
        Pm::Apk => vec!['a', 'p', 'k'],
        Pm::Apt => vec!['a', 'p', 't'],
        Pm::Pacman => vec!['p', 'a', 'c', 'm', 'a', 'n'],
        Pm::Yay => vec!['y', 'a', 'y'],
        Pm::Paru => vec!['p', 'a', 'r', 'u'],
        Pm::Winget => vec!['w', 'i', 'n', 'g', 'e', 't'],
    };
    let s = crate::text::string_of_chars(cs.as_slice());
    assert(s@ =~= spec_pm_name(pm));
    s
}

fn show_field(m: &mut String, pm: Pm, v: &Option<String>)
    ensures
        final(m)@ == old(m)@ + spec_show(pm, opt_view(*v)),
{
    match v {
        Some(p) => {
            let name = pm_name(pm);
            m.append(name.as_str());
            push_char(m, ':');
            m.append(p.as_str());
            push_char(m, ' ');
            assert(final(m)@ =~= old(m)@ + spec_show(pm, opt_view(*v)));
        },
        None => {
            assert(old(m)@ + spec_show(pm, opt_view(*v)) =~= old(m)@);
        },
    }
}

} // verus!
