//! The command line of the script runner and the paths it derives.
use vstd::prelude::*;

use crate::check::CheckInfo;
use crate::registry::Registry;
use crate::text::{ends_with_char, push_char, spec_ends_with, strs_view};

verus! {

/// Arguments of the script runner.
#[derive(Debug, Clone, PartialEq, Eq)]
pub struct Cli {
    /// The configuration directory.
    pub directory: String,
    /// The script to run; `config.rn` in the directory when absent.
    pub config: Option<String>,
    /// Where the cache database lives.
    pub dbpath: Option<String>,
    /// Report actions instead of performing them.
    pub dry_run: bool,
    /// The function of the script to call.
    pub entry: String,
    /// Arguments passed to the script.
    pub rargs: Vec<String>,
}

/// `base` joined with a relative path (`Path::join` on Unix): a separator goes
/// between them unless `base` is empty or ends with one.
pub open spec fn spec_path_join(base: Seq<char>, rel: Seq<char>) -> Seq<char> {
    if base.len() == 0 || spec_ends_with(base, '/') {
        base + rel
    } else {
        base.push('/') + rel
    }
}

/// Joins a relative path to `base`.
pub fn path_join(base: &str, rel: &str) -> (r: String)
    requires
        spec_relative(rel@),
    ensures
        r@ == spec_path_join(base@, rel@),
{
    let mut r = base.to_owned();
    if !base.is_empty() && !ends_with_char(base, '/') {
        push_char(&mut r, '/');
    }
    r.append(rel);
    r
}

/// The default configuration directory under a home directory: `.config/dv/`.
pub fn default_config(home: &str) -> (r: String)
    ensures
        r@ == spec_path_join(home@, ".config/dv/"@),
{
    proof {
        reveal_strlit(".config/dv/");
    }
    path_join(home, ".config/dv/")
}

impl Cli {
    /// The script to run.
    pub fn config_path(&self) -> (r: String)
        ensures
            r@ == match self.config {
                Some(c) => c@,
                None => spec_path_join(self.directory@, "config.rn"@),
            },
    {
        match &self.config {
            Some(c) => c.clone(),
            None => {
                proof {
                    reveal_strlit("config.rn");
                }
                path_join(self.directory.as_str(), "config.rn")
            },
        }
    }

    /// The cache database: the one given, else `.cache` in the directory.
    pub fn cache_path(&self) -> (r: String)
        ensures
            r@ == match self.dbpath {
                Some(p) => p@,
                None => spec_path_join(self.directory@, ".cache"@),
            },
    {
        match &self.dbpath {
            Some(p) => p.clone(),
            None => {
                proof {
                    reveal_strlit(".cache");
                }
                path_join(self.directory.as_str(), ".cache")
            },
        }
    }
}

/// Whether a path is relative (does not start with `/`).
pub open spec fn spec_relative(p: Seq<char>) -> bool {
    !(p.len() > 0 && p[0] == '/')
}

/// `base` with `p` pushed onto it (`PathBuf::push` on Unix): an absolute `p`
/// replaces `base`, a relative one is joined to it.
pub open spec fn spec_path_push(base: Seq<char>, p: Seq<char>) -> Seq<char> {
    if spec_relative(p) {
        spec_path_join(base, p)
    } else {
        p
    }
}

/// Pushes `p` onto `base` (see [`spec_path_push`]).
pub fn path_push(base: &str, p: &str) -> (r: String)
    ensures
        r@ == spec_path_push(base@, p@),
{
    if starts_with_slash(p) {
        p.to_owned()
    } else {
        path_join(base, p)
    }
}

fn starts_with_slash(p: &str) -> (r: bool)
    ensures
        r == !spec_relative(p@),
{
    p.unicode_len() > 0 && p.get_char(0) == '/'
}

/// The paths of the files of a directory: each name pushed onto the directory.
pub fn dir_file_paths(dir: &str, names: &Vec<String>) -> (v: Vec<String>)
    ensures
        v@.len() == names@.len(),
        forall|i: int| 0 <= i < names@.len() ==> (#[trigger] v@[i])@ == spec_path_push(dir@, names@[i]@),
{
    let mut v: Vec<String> = Vec::new();
    let mut i: usize = 0;
    while i < names.len()
        invariant
            i <= names@.len(),
            v@.len() == i,
            forall|k: int| 0 <= k < i ==> (#[trigger] v@[k])@ == spec_path_push(dir@, names@[k]@),
        decreases names@.len() - i,
    {
        v.push(path_push(dir, names[i].as_str()));
        i = i + 1;
    }
    v
}

/// Why a user's sources cannot be loaded: `missing user`.
#[derive(Debug, Clone, Copy, PartialEq, Eq, Structural)]
pub enum LoadSrcError {
    MissingUser,
}

/// The paths whose contents are loaded, in order, each into a local file of
/// its own: the file itself, or each file of the directory.
pub open spec fn spec_load_paths(info: CheckInfo) -> Seq<Seq<char>> {
    match info {
        CheckInfo::File(m) => seq![m.path@],
        CheckInfo::Dir { path, files } => Seq::new(
            files@.len(),
            |i: int| spec_path_push(path@, files@[i].path@),
        ),
    }
}

/// What loading the sources of user `id` reads: an unknown user is an error;
/// otherwise the file, or each file of the directory in order, that `info`
/// describes.
pub fn load_src_paths(users: &Registry, id: &str, info: &CheckInfo) -> (r: Result<Vec<String>, LoadSrcError>)
    ensures
        !users.has_user(id@) ==> r == Err::<Vec<String>, LoadSrcError>(LoadSrcError::MissingUser),
        users.has_user(id@) ==> (r matches Ok(v) && strs_view(v@) == spec_load_paths(*info)),
{
    if !users.contains_user(id) {
        return Err(LoadSrcError::MissingUser);
    }
    match info {
        CheckInfo::File(m) => {
            let v = vec![m.path.clone()];
            assert(strs_view(v@) =~= spec_load_paths(*info));
            Ok(v)
        },
        CheckInfo::Dir { path, files } => {
            let mut v: Vec<String> = Vec::new();
            let mut i: usize = 0;
            while i < files.len()
                invariant
                    i <= files@.len(),
                    v@.len() == i,
                    forall|k: int| 0 <= k < i ==> (#[trigger] v@[k])@ == spec_path_push(path@, files@[k].path@),
                decreases files@.len() - i,
            {
                v.push(path_push(path.as_str(), files[i].path.as_str()));
                i = i + 1;
            }
            assert(strs_view(v@) =~= spec_load_paths(*info));
            Ok(v)
        },
    }
}

} // verus!
