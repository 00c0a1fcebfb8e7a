//! Copying files between users: which way a file goes, whether it goes at
//! all, which user performs the copy, and what is recorded afterwards.
use vstd::prelude::*;

use crate::registry::{Registry, UserNotFound};
use crate::text::{
    after_last, chars_of, concat_str, ends_with_char, push_char, spec_after_last, spec_ends_with,
    spec_without_trailing, str_eq, without_trailing,
};

verus! {

/// How to settle a file whose destination changed on its own (the `confirm`
/// argument of a copy: `o`, `n` or `u`).
#[derive(Debug, Clone, Copy, PartialEq, Eq, Structural)]
pub enum CopyOption {
    /// `o`: overwrite the destination.
    Overwrite,
    /// `n`: leave both sides as they are.
    Skip,
    /// `u`: copy the destination back to the source.
    Update,
}

pub open spec fn spec_copy_option(s: Seq<char>) -> Option<CopyOption> {
    if s == seq!['o'] {
        Some(CopyOption::Overwrite)
    } else if s == seq!['n'] {
        Some(CopyOption::Skip)
    } else if s == seq!['u'] {
        Some(CopyOption::Update)
    } else {
        None
    }
}

/// The option named by `opt`, and whether `opt` was given but names none
/// (the copy then goes on as if none was given, after saying so).
pub fn parse_copy_option(opt: Option<&str>) -> (r: (Option<CopyOption>, bool))
    ensures
        match opt {
            None => r == (None::<CopyOption>, false),
            Some(s) => r == (spec_copy_option(s@), spec_copy_option(s@) is None),
        },
{
    match opt {
        None => (None, false),
        Some(s) => {
            let cs = chars_of(s);
            let o = if cs.len() == 1 {
                if cs[0] == 'o' {
                    Some(CopyOption::Overwrite)
                } else if cs[0] == 'n' {
                    Some(CopyOption::Skip)
                } else if cs[0] == 'u' {
                    Some(CopyOption::Update)
                } else {
                    None
                }
            } else {
                None
            };
            proof {
                if cs@.len() == 1 {
                    assert(cs@ == seq![cs@[0]]);
                }
            }
            let invalid = o.is_none();
            (o, invalid)
        },
    }
}

/// What to do with one file.
#[derive(Debug, Clone, Copy, PartialEq, Eq, Structural)]
pub enum CopyDecision {
    /// Copy or not, and in which direction (`reverse`: destination to source).
    Do { copy: bool, reverse: bool },
    /// The destination changed since the last copy: ask between `n/skip` and `u/update`.
    AskNewer,
    /// The two sides disagree with what was recorded: ask between
    /// `y/overwrite`, `n/skip` and `u/update`.
    AskConflict,
}

/// The decision for a file whose source has version `src_ts`, whose
/// destination has version `dst_ts` (none when it does not exist), given the
/// versions `(source, destination)` recorded after the last copy.
pub open spec fn spec_decide_copy(
    cache: Option<(i64, i64)>,
    src_ts: i64,
    dst_ts: Option<i64>,
    opt: Option<CopyOption>,
) -> CopyDecision {
    match (cache, dst_ts) {
        (Some((dst_ver, old_dst_ts)), Some(d)) if dst_ver == src_ts || old_dst_ts == d => {
            if old_dst_ts != d {
                match opt {
                    Some(CopyOption::Skip) => CopyDecision::Do { copy: false, reverse: false },
                    Some(CopyOption::Update) => CopyDecision::Do { copy: true, reverse: true },
                    _ => CopyDecision::AskNewer,
                }
            } else {
                CopyDecision::Do { copy: dst_ver != src_ts, reverse: false }
            }
        },
        (_, None) => CopyDecision::Do { copy: true, reverse: false },
        _ => match opt {
            Some(CopyOption::Overwrite) => CopyDecision::Do { copy: true, reverse: false },
            Some(CopyOption::Skip) => CopyDecision::Do { copy: false, reverse: false },
            Some(CopyOption::Update) => CopyDecision::Do { copy: true, reverse: true },
            None => CopyDecision::AskConflict,
        },
    }
}

/// Decides what to do with one file (the first half of `check_copy_file`).
pub fn decide_copy(
    cache: Option<(i64, i64)>,
    src_ts: i64,
    dst_ts: Option<i64>,
    opt: Option<CopyOption>,
) -> (d: CopyDecision)
    ensures
        d == spec_decide_copy(cache, src_ts, dst_ts, opt),
{
    match (cache, dst_ts) {
        (Some((dst_ver, old_dst_ts)), Some(d)) if dst_ver == src_ts || old_dst_ts == d => {
            if old_dst_ts != d {
                match opt {
                    Some(CopyOption::Skip) => CopyDecision::Do { copy: false, reverse: false },
                    Some(CopyOption::Update) => CopyDecision::Do { copy: true, reverse: true },
                    _ => CopyDecision::AskNewer,
                }
            } else {
                CopyDecision::Do { copy: dst_ver != src_ts, reverse: false }
            }
        },
        (_, None) => CopyDecision::Do { copy: true, reverse: false },
        _ => match opt {
            Some(CopyOption::Overwrite) => CopyDecision::Do { copy: true, reverse: false },
            Some(CopyOption::Skip) => CopyDecision::Do { copy: false, reverse: false },
            Some(CopyOption::Update) => CopyDecision::Do { copy: true, reverse: true },
            None => CopyDecision::AskConflict,
        },
    }
}

/// `(copy, reverse)` after the user chose option `sel` of `n/skip`, `u/update`:
/// the second option copies the destination back.
pub fn resolve_newer(sel: usize) -> (r: (bool, bool))
    ensures
        r == (sel == 1, true),
{
    (sel == 1, true)
}

/// `(copy, reverse)` after the user chose option `sel` of `y/overwrite`,
/// `n/skip`, `u/update`.
pub fn resolve_conflict(sel: usize) -> (r: (bool, bool))
    ensures
        r == (sel != 1, sel == 2),
{
    (sel != 1, sel == 2)
}

/// The options offered when the destination is newer.
pub fn newer_options() -> (v: Vec<String>)
    ensures
        v@.len() == 2,
        v@[0]@ == "n/skip"@,
        v@[1]@ == "u/update"@,
{
    vec!["n/skip".to_owned(), "u/update".to_owned()]
}

/// The options offered when both sides changed.
pub fn conflict_options() -> (v: Vec<String>)
    ensures
        v@.len() == 3,
        v@[0]@ == "y/overwrite"@,
        v@[1]@ == "n/skip"@,
        v@[2]@ == "u/update"@,
{
    vec!["y/overwrite".to_owned(), "n/skip".to_owned(), "u/update".to_owned()]
}

/// The question asked about a destination: `{dst} is newer, do what?`.
pub fn newer_question(dst_path: &str) -> (m: String)
    ensures
        m@ == dst_path@ + " is newer, do what?"@,
{
    concat_str(dst_path, " is newer, do what?")
}

/// A copy once made cannot be repeated for nothing: when the versions
/// recorded after it are still those of both sides, the next check copies
/// nothing, whatever the option.
pub proof fn law_copy_is_idempotent(s: i64, d: i64, opt: Option<CopyOption>)
    ensures
        spec_decide_copy(Some((s, d)), s, Some(d), opt) == (CopyDecision::Do {
            copy: false,
            reverse: false,
        }),
{
}

/// When both sides changed since the last recorded copy, the confirm option
/// settles the conflict: `n` leaves both files as they are (nothing is written),
/// `o` overwrites the destination from the source, `u` copies the destination
/// back, and without an option the user is asked.
pub proof fn law_conflict_follows_the_option(s0: i64, d0: i64, s1: i64, d1: i64)
    requires
        s1 != s0,
        d1 != d0,
    ensures
        spec_decide_copy(Some((s0, d0)), s1, Some(d1), Some(CopyOption::Skip)) == (CopyDecision::Do {
            copy: false,
            reverse: false,
        }),
        spec_decide_copy(Some((s0, d0)), s1, Some(d1), Some(CopyOption::Overwrite)) == (CopyDecision::Do {
            copy: true,
            reverse: false,
        }),
        spec_decide_copy(Some((s0, d0)), s1, Some(d1), Some(CopyOption::Update)) == (CopyDecision::Do {
            copy: true,
            reverse: true,
        }),
        spec_decide_copy(Some((s0, d0)), s1, Some(d1), None) == CopyDecision::AskConflict,
{
}

/// With the option `n`, an existing destination is written only where the
/// source alone changed since the last copy; a destination that changed is
/// never written, and nothing is ever copied back.
pub proof fn law_skip_option_keeps_changed_destinations(cache: Option<(i64, i64)>, src_ts: i64, d: i64)
    ensures
        spec_decide_copy(cache, src_ts, Some(d), Some(CopyOption::Skip)) == (CopyDecision::Do {
            copy: true,
            reverse: false,
        }) ==> (cache matches Some((s0, d0)) && s0 != src_ts && d0 == d),
        spec_decide_copy(cache, src_ts, Some(d), Some(CopyOption::Skip)) != (CopyDecision::Do {
            copy: true,
            reverse: true,
        }),
        spec_decide_copy(cache, src_ts, Some(d), Some(CopyOption::Skip)) is Do,
{
}

/// A destination that does not exist is always written from the source.
pub proof fn law_missing_destination_is_copied(
    cache: Option<(i64, i64)>,
    src_ts: i64,
    opt: Option<CopyOption>,
)
    ensures
        spec_decide_copy(cache, src_ts, None, opt) == (CopyDecision::Do {
            copy: true,
            reverse: false,
        }),
{
}

/// When only the source changed since the last copy, the source is copied
/// forward without a question.
pub proof fn law_source_change_goes_forward(s0: i64, s1: i64, d: i64, opt: Option<CopyOption>)
    requires
        s0 != s1,
    ensures
        spec_decide_copy(Some((s0, d)), s1, Some(d), opt) == (CopyDecision::Do {
            copy: true,
            reverse: false,
        }),
{
}

/// When only the destination changed since the last copy, it is never
/// overwritten without the user's consent: the copy is skipped, goes back to
/// the source, or the user is asked.
pub proof fn law_destination_change_is_never_overwritten(
    s: i64,
    d0: i64,
    d1: i64,
    opt: Option<CopyOption>,
)
    requires
        d0 != d1,
    ensures
        match spec_decide_copy(Some((s, d0)), s, Some(d1), opt) {
            CopyDecision::Do { copy, reverse } => !copy || reverse,
            CopyDecision::AskNewer => true,
            CopyDecision::AskConflict => false,
        },
{
}

/// Why the versions to record after a copy are unknown.
#[derive(Debug, Clone, Copy, PartialEq, Eq, Structural)]
pub enum MtimeError {
    /// The source's modification time could not be read.
    Source,
    /// The destination's modification time could not be read.
    Destination,
}

/// The versions `(source, destination)` to record after a copy: the side
/// that was written is read again (`fetched`), the other keeps the version it had.
pub fn versions_after_copy(reverse: bool, src_ts: i64, dst_ts: Option<i64>, fetched: Option<i64>) -> (r:
    Result<(i64, i64), MtimeError>)
    ensures
        !reverse ==> r == (match fetched {
            Some(d) => Ok::<(i64, i64), MtimeError>((src_ts, d)),
            None => Err(MtimeError::Destination),
        }),
        reverse ==> r == (match (fetched, dst_ts) {
            (Some(s), Some(d)) => Ok::<(i64, i64), MtimeError>((s, d)),
            (None, _) => Err(MtimeError::Source),
            (Some(_), None) => Err(MtimeError::Destination),
        }),
{
    if !reverse {
        match fetched {
            Some(d) => Ok((src_ts, d)),
            None => Err(MtimeError::Destination),
        }
    } else {
        match (fetched, dst_ts) {
            (Some(s), Some(d)) => Ok((s, d)),
            (None, _) => Err(MtimeError::Source),
            (Some(_), None) => Err(MtimeError::Destination),
        }
    }
}

/// What a destination path turned out to be.
#[derive(Debug, Clone, Copy, PartialEq, Eq, Structural)]
pub enum DstProbe {
    /// Nothing is there.
    Missing,
    /// It could not be examined.
    Failed,
    /// Something is there.
    Found { is_dir: bool, mtime: Option<u32> },
}

/// Why a destination cannot receive the copy.
#[derive(Debug, Clone, Copy, PartialEq, Eq, Structural)]
pub enum DestError {
    /// A directory was expected (`{dst} is not a directory`).
    NotADirectory,
    /// A file was expected (`{dst} is a directory`).
    IsADirectory,
    /// The destination could not be examined.
    Probe,
}

/// The destination's version (zero when it has no modification time), or
/// none when it does not exist; an error when it is not of the expected kind.
pub fn check_destination(probe: DstProbe, expect_dir: bool) -> (r: Result<Option<i64>, DestError>)
    ensures
        r == (match probe {
            DstProbe::Missing => Ok::<Option<i64>, DestError>(None),
            DstProbe::Failed => Err(DestError::Probe),
            DstProbe::Found { is_dir, mtime } => if is_dir != expect_dir {
                if expect_dir {
                    Err(DestError::NotADirectory)
                } else {
                    Err(DestError::IsADirectory)
                }
            } else {
                Ok(
                    Some(
                        match mtime {
                            Some(m) => m as i64,
                            None => 0,
                        },
                    ),
                )
            },
        }),
{
    match probe {
        DstProbe::Missing => Ok(None),
        DstProbe::Failed => Err(DestError::Probe),
        DstProbe::Found { is_dir, mtime } => {
            if is_dir != expect_dir {
                if expect_dir {
                    Err(DestError::NotADirectory)
                } else {
                    Err(DestError::IsADirectory)
                }
            } else {
                let m: i64 = match mtime {
                    Some(m) => m as i64,
                    None => 0,
                };
                Ok(Some(m))
            }
        },
    }
}

/// Where a single file goes: into a destination that ends with `/` under the
/// source's last path component, else to the destination itself.
pub open spec fn spec_copy_destination(src: Seq<char>, dst: Seq<char>) -> Seq<char> {
    if spec_ends_with(dst, '/') {
        dst + spec_after_last(src, '/')
    } else {
        dst
    }
}

/// A file copied into a destination directory (one ending with `/`) keeps
/// its own name: the result is the destination followed by the last path
/// component of the source, which holds no `/` and ends the source, right
/// after a `/` when the source has one. Another destination is used as it is.
pub proof fn law_copy_destination_keeps_the_name(src: Seq<char>, dst: Seq<char>)
    ensures
        !spec_ends_with(dst, '/') ==> spec_copy_destination(src, dst) == dst,
        spec_ends_with(dst, '/') ==> ({
            let r = spec_copy_destination(src, dst);
            let n = (r.len() - dst.len()) as int;
            &&& r.len() >= dst.len()
            &&& r.subrange(0, dst.len() as int) == dst
            &&& n <= src.len()
            &&& r.subrange(dst.len() as int, r.len() as int) == src.subrange(src.len() - n, src.len() as int)
            &&& forall|k: int| dst.len() <= k < r.len() ==> r[k] != '/'
            &&& n < src.len() ==> src[src.len() - n - 1] == '/'
        }),
{
    if spec_ends_with(dst, '/') {
        crate::text::lemma_last_index_of_bounds(src, '/');
        let r = spec_copy_destination(src, dst);
        let name = spec_after_last(src, '/');
        assert(r == dst + name);
        assert(r.subrange(0, dst.len() as int) =~= dst);
        assert(r.subrange(dst.len() as int, r.len() as int) =~= name);
        match crate::text::spec_last_index_of(src, '/') {
            Some(i) => {
                assert(name =~= src.subrange(src.len() - name.len(), src.len() as int));
                assert forall|k: int| dst.len() <= k < r.len() implies r[k] != '/' by {
                    assert(r[k] == src[i + 1 + (k - dst.len())]);
                }
            },
            None => {
                assert(name =~= src.subrange(0, src.len() as int));
                assert forall|k: int| dst.len() <= k < r.len() implies r[k] != '/' by {
                    assert(r[k] == src[k - dst.len()]);
                }
            },
        }
    }
}

/// Where a single file goes.
pub fn copy_destination(src_path: &str, dst_path: &str) -> (r: String)
    ensures
        r@ == spec_copy_destination(src_path@, dst_path@),
{
    if ends_with_char(dst_path, '/') {
        let name = after_last(src_path, '/');
        concat_str(dst_path, name.as_str())
    } else {
        dst_path.to_owned()
    }
}

/// A source path that ends with `/` names a directory whose files are copied.
pub fn is_dir_copy(src_path: &str) -> (r: bool)
    ensures
        r == spec_ends_with(src_path@, '/'),
{
    ends_with_char(src_path, '/')
}

/// `base/name`.
pub open spec fn spec_join_slash(base: Seq<char>, name: Seq<char>) -> Seq<char> {
    base.push('/') + name
}

/// `base/name` (the paths of the files of a copied directory).
pub fn join_slash(base: &str, name: &str) -> (r: String)
    ensures
        r@ == spec_join_slash(base@, name@),
{
    let mut r = base.to_owned();
    push_char(&mut r, '/');
    r.append(name);
    r
}

/// `[n]` for a dry run, `[a]` otherwise, then `exec` or `skip`, and a space.
pub open spec fn spec_action_prefix(dry_run: bool, done: bool) -> Seq<char> {
    seq!['['] + (if dry_run {
        seq!['n']
    } else {
        seq!['a']
    }) + seq![']', ' '] + (if done {
        seq!['e', 'x', 'e', 'c']
    } else {
        seq!['s', 'k', 'i', 'p']
    }) + seq![' ']
}

/// The prefix of the line that reports an action.
pub fn action_prefix(dry_run: bool, done: bool) -> (m: String)
    ensures
        m@ == spec_action_prefix(dry_run, done),
{
    let mut m = String::new();
    push_char(&mut m, '[');
    push_char(&mut m, if dry_run { 'n' } else { 'a' });
    push_char(&mut m, ']');
    push_char(&mut m, ' ');
    if done {
        push_char(&mut m, 'e');
        push_char(&mut m, 'x');
        push_char(&mut m, 'e');
        push_char(&mut m, 'c');
    } else {
        push_char(&mut m, 's');
        push_char(&mut m, 'k');
        push_char(&mut m, 'i');
        push_char(&mut m, 'p');
    }
    push_char(&mut m, ' ');
    assert(m@ =~= spec_action_prefix(dry_run, done));
    m
}

/// The line that reports an action: the prefix, then what was done.
pub fn action_line(dry_run: bool, done: bool, what: &str) -> (m: String)
    ensures
        m@ == spec_action_prefix(dry_run, done) + what@,
{
    let mut m = action_prefix(dry_run, done);
    m.append(what);
    m
}

/// The line that reports one file of a copy:
/// `[a] exec copy src:path -> dst:path`, or `update ... <-` when the destination
/// was copied back.
pub open spec fn spec_copy_report(
    dry_run: bool,
    done: bool,
    reverse: bool,
    src_uid: Seq<char>,
    src_path: Seq<char>,
    dst_uid: Seq<char>,
    dst_path: Seq<char>,
) -> Seq<char> {
    let back = done && reverse;
    spec_action_prefix(dry_run, done) + (if back {
        seq!['u', 'p', 'd', 'a', 't', 'e']
    } else {
        seq!['c', 'o', 'p', 'y']
    }) + seq![' '] + src_uid + seq![':'] + src_path + (if back {
        seq![' ', '<', '-', ' ']
    } else {
        seq![' ', '-', '>', ' ']
    }) + dst_uid + seq![':'] + dst_path
}

/// Builds the line that reports one file of a copy.
pub fn copy_report(
    dry_run: bool,
    done: bool,
    reverse: bool,
    src_uid: &str,
    src_path: &str,
    dst_uid: &str,
    dst_path: &str,
) -> (m: String)
    ensures
        m@ == spec_copy_report(dry_run, done, reverse, src_uid@, src_path@, dst_uid@, dst_path@),
{
    let back = done && reverse;
    let mut m = action_prefix(dry_run, done);
    if back {
        m.append("update ");
    } else {
        m.append("copy ");
    }
    m.append(src_uid);
    push_char(&mut m, ':');
    m.append(src_path);
    if back {
        m.append(" <- ");
    } else {
        m.append(" -> ");
    }
    m.append(dst_uid);
    push_char(&mut m, ':');
    m.append(dst_path);
    proof {
        reveal_strlit("update ");
        reveal_strlit("copy ");
        reveal_strlit(" <- ");
        reveal_strlit(" -> ");
    }
    assert(m@ =~= spec_copy_report(dry_run, done, reverse, src_uid@, src_path@, dst_uid@, dst_path@));
    m
}

/// What the copy path needs to know of a user.
#[derive(Debug, Clone, PartialEq, Eq)]
pub struct UserFacts {
    /// The `HID` variable: the device the user lives on.
    pub hid: Option<String>,
    /// Whether the user is the device's administrator.
    pub is_system: bool,
    /// Whether the device runs Linux.
    pub is_linux: bool,
    /// The `USER` variable: the account name.
    pub user: Option<String>,
}

/// Who performs a copy.
#[derive(Debug, Clone, PartialEq, Eq)]
pub enum CopyRoute {
    /// Source and destination are the same file: nothing to do.
    SamePath,
    /// One user copies within its device: the source user when `by_src`,
    /// else the destination user; `owner` is the account that receives the file
    /// (empty for the user's own).
    Within { by_src: bool, owner: String },
    /// The file is read from the source user and written by the destination user.
    Stream,
}

/// Why a copy cannot be routed.
#[derive(Debug, Clone, PartialEq, Eq)]
pub enum RouteError {
    /// The administrator should copy for a destination user without an account name.
    NoDstUser,
}

/// Two users share a device when both have a device id and the ids agree.
pub open spec fn spec_same_device(src: UserFacts, dst: UserFacts) -> bool {
    src.hid is Some && dst.hid is Some && src.hid.unwrap()@ == dst.hid.unwrap()@
}

pub open spec fn spec_route_ok(r: CopyRoute, by_src: bool, owner: Seq<char>) -> bool {
    r matches CopyRoute::Within { by_src: b, owner: o } && b == by_src && o@ == owner
}

/// How `try_copy` copies: the same user copies for itself; users of one
/// device copy within it (its administrator for another account, else the
/// destination user), provided one of them is an administrator or one device
/// runs Linux; otherwise the file is streamed.
pub fn copy_route(
    src_uid: &str,
    src_path: &str,
    src: &UserFacts,
    dst_uid: &str,
    dst_path: &str,
    dst: &UserFacts,
) -> (r: Result<CopyRoute, RouteError>)
    ensures
        src_uid@ == dst_uid@ ==> (if src_path@ == dst_path@ {
            r == Ok::<CopyRoute, RouteError>(CopyRoute::SamePath)
        } else {
            r matches Ok(route) && spec_route_ok(route, true, seq![])
        }),
        src_uid@ != dst_uid@ && spec_same_device(*src, *dst) && (src.is_system || dst.is_system
            || src.is_linux || dst.is_linux) ==> (if src.is_system {
            match dst.user {
                Some(u) => r matches Ok(route) && spec_route_ok(route, true, u@),
                None => r == Err::<CopyRoute, RouteError>(RouteError::NoDstUser),
            }
        } else {
            r matches Ok(route) && spec_route_ok(route, false, seq![])
        }),
        src_uid@ != dst_uid@ && !(spec_same_device(*src, *dst) && (src.is_system || dst.is_system
            || src.is_linux || dst.is_linux)) ==> r == Ok::<CopyRoute, RouteError>(
            CopyRoute::Stream,
        ),
{
    if str_eq(src_uid, dst_uid) {
        if str_eq(src_path, dst_path) {
            Ok(CopyRoute::SamePath)
        } else {
            Ok(CopyRoute::Within { by_src: true, owner: String::new() })
        }
    } else {
        let same_device = match (&src.hid, &dst.hid) {
            (Some(a), Some(b)) => str_eq(a.as_str(), b.as_str()),
            _ => false,
        };
        let allowed = if !src.is_system && !dst.is_system {
            src.is_linux || dst.is_linux
        } else {
            true
        };
        if same_device && allowed {
            if src.is_system {
                match &dst.user {
                    Some(u) => Ok(CopyRoute::Within { by_src: true, owner: u.clone() }),
                    None => Err(RouteError::NoDstUser),
                }
            } else {
                Ok(CopyRoute::Within { by_src: false, owner: String::new() })
            }
        } else {
            Ok(CopyRoute::Stream)
        }
    }
}

/// How the task layer copies one file: users of different devices stream it;
/// on one device the administrator copies when the source is the
/// administrator, else the destination user does.
pub fn task_copy_route(src_hid: &str, src_is_system: bool, dst_hid: &str) -> (r: CopyRoute)
    ensures
        src_hid@ != dst_hid@ ==> r == CopyRoute::Stream,
        src_hid@ == dst_hid@ ==> spec_route_ok(r, src_is_system, seq![]),
{
    if !str_eq(src_hid, dst_hid) {
        CopyRoute::Stream
    } else {
        CopyRoute::Within { by_src: src_is_system, owner: String::new() }
    }
}

/// Why a copy request is refused before any file is examined.
#[derive(Debug, Clone, PartialEq, Eq)]
pub enum PathError {
    /// `src_path is empty`.
    EmptySrc,
    /// `dst_path is empty`.
    EmptyDst,
    /// `src user {uid} not found`.
    SrcUserMissing(String),
    /// `dst user {uid} not found`.
    DstUserMissing(String),
}

impl PathError {
    /// The message that refuses the request.
    pub fn message(&self) -> (m: String)
        ensures
            m@ == match self {
                PathError::EmptySrc => "src_path is empty"@,
                PathError::EmptyDst => "dst_path is empty"@,
                PathError::SrcUserMissing(uid) => "src user "@ + uid@ + " not found"@,
                PathError::DstUserMissing(uid) => "dst user "@ + uid@ + " not found"@,
            },
    {
        match self {
            PathError::EmptySrc => "src_path is empty".to_owned(),
            PathError::EmptyDst => "dst_path is empty".to_owned(),
            PathError::SrcUserMissing(uid) => {
                let mut m = concat_str("src user ", uid.as_str());
                m.append(" not found");
                m
            },
            PathError::DstUserMissing(uid) => {
                let mut m = concat_str("dst user ", uid.as_str());
                m.append(" not found");
                m
            },
        }
    }
}

/// Both paths of a copy request must be non-empty (the source is checked first).
pub fn check_copy_paths(src_path: &str, dst_path: &str) -> (r: Result<(), PathError>)
    ensures
        r == (if src_path@.len() == 0 {
            Err::<(), PathError>(PathError::EmptySrc)
        } else if dst_path@.len() == 0 {
            Err(PathError::EmptyDst)
        } else {
            Ok(())
        }),
{
    if src_path.is_empty() {
        Err(PathError::EmptySrc)
    } else if dst_path.is_empty() {
        Err(PathError::EmptyDst)
    } else {
        Ok(())
    }
}

/// A copy request of the vault: both paths must be non-empty (the source is
/// checked first), then the source user must be connected.
pub fn check_copy_request(users: &Registry, src_uid: &str, src_path: &str, dst_path: &str) -> (r:
    Result<(), PathError>)
    ensures
        src_path@.len() == 0 ==> r == Err::<(), PathError>(PathError::EmptySrc),
        src_path@.len() != 0 && dst_path@.len() == 0 ==> r == Err::<(), PathError>(PathError::EmptyDst),
        src_path@.len() != 0 && dst_path@.len() != 0 && !users.has_user(src_uid@) ==> (r matches Err(
            PathError::SrcUserMissing(u),
        ) && u@ == src_uid@),
        src_path@.len() != 0 && dst_path@.len() != 0 && users.has_user(src_uid@) ==> r == Ok::<
            (),
            PathError,
        >(()),
{
    match check_copy_paths(src_path, dst_path) {
        Err(e) => Err(e),
        Ok(()) => match users.lookup(src_uid) {
            Ok(()) => Ok(()),
            Err(_) => Err(PathError::SrcUserMissing(src_uid.to_owned())),
        },
    }
}

/// Before the vault copies a file, its destination user must be connected.
pub fn check_vault_dst(users: &Registry, dst_uid: &str) -> (r: Result<(), PathError>)
    ensures
        users.has_user(dst_uid@) ==> r == Ok::<(), PathError>(()),
        !users.has_user(dst_uid@) ==> (r matches Err(PathError::DstUserMissing(u)) && u@ == dst_uid@),
{
    match users.lookup(dst_uid) {
        Ok(()) => Ok(()),
        Err(_) => Err(PathError::DstUserMissing(dst_uid.to_owned())),
    }
}

/// The files matched under a source directory (`src_dir`, ending with `/`) and
/// where each goes: `src_dir` + name is copied to `dst/name`. The destination
/// must not end with `/`: such a destination is not supported and the copy
/// stops there.
pub fn glob_pairs(src_dir: &str, dst_path: &str, names: &Vec<String>) -> (v: Vec<(String, String)>)
    requires
        !spec_ends_with(dst_path@, '/'),
    ensures
        v@.len() == names@.len(),
        forall|i: int|
            0 <= i < names@.len() ==> (#[trigger] v@[i]).0@ == src_dir@ + names@[i]@ && v@[i].1@
                == spec_join_slash(dst_path@, names@[i]@),
{
    let mut v: Vec<(String, String)> = Vec::new();
    let mut i: usize = 0;
    while i < names.len()
        invariant
            i <= names@.len(),
            v@.len() == i,
            forall|k: int|
                0 <= k < i ==> (#[trigger] v@[k]).0@ == src_dir@ + names@[k]@ && v@[k].1@
                    == spec_join_slash(dst_path@, names@[k]@),
        decreases names@.len() - i,
    {
        let src = concat_str(src_dir, names[i].as_str());
        let dst = join_slash(dst_path, names[i].as_str());
        v.push((src, dst));
        i = i + 1;
    }
    v
}

/// What the vault does with one file.
#[derive(Debug, Clone, Copy, PartialEq, Eq, Structural)]
pub enum VaultStep {
    /// The destination already holds this version.
    Skip,
    /// A dry run: report the copy, record the version, copy nothing.
    Pretend,
    /// Copy the file and record its version.
    Copy,
}

impl VaultStep {
    /// Whether the step records the file's version for its destination.
    pub open spec fn spec_records(self) -> bool {
        !(self is Skip)
    }

    /// Whether the step copies the file.
    pub open spec fn spec_copies(self) -> bool {
        self is Copy
    }

    /// Whether the step records the file's version for its destination.
    pub fn records(&self) -> (r: bool)
        ensures
            r == self.spec_records(),
    {
        !matches!(self, VaultStep::Skip)
    }

    /// Whether the step copies the file.
    pub fn copies(&self) -> (r: bool)
        ensures
            r == self.spec_copies(),
    {
        matches!(self, VaultStep::Copy)
    }

    /// Whether the step is reported as done (`exec`) rather than skipped.
    pub fn done(&self) -> (r: bool)
        ensures
            r == !(*self is Skip),
    {
        !matches!(self, VaultStep::Skip)
    }
}

/// The step for a file of version `ts` whose destination has the version
/// `recorded`: every step but `Skip` records `ts`, and only a step outside a
/// dry run copies.
pub fn vault_step(recorded: Option<u64>, ts: u64, dry_run: bool) -> (st: VaultStep)
    ensures
        st == (if recorded == Some(ts) {
            VaultStep::Skip
        } else if dry_run {
            VaultStep::Pretend
        } else {
            VaultStep::Copy
        }),
        st.spec_records() <==> recorded != Some(ts),
        st.spec_copies() <==> recorded != Some(ts) && !dry_run,
{
    let same = match recorded {
        Some(v) => v == ts,
        None => false,
    };
    if same {
        VaultStep::Skip
    } else if dry_run {
        VaultStep::Pretend
    } else {
        VaultStep::Copy
    }
}

/// The files of a copied directory: each name under both directories,
/// after a `/`.
pub fn slash_pairs(src_dir: &str, dst_dir: &str, names: &Vec<String>) -> (v: Vec<(String, String)>)
    ensures
        v@.len() == names@.len(),
        forall|i: int|
            0 <= i < names@.len() ==> (#[trigger] v@[i]).0@ == spec_join_slash(src_dir@, names@[i]@)
                && v@[i].1@ == spec_join_slash(dst_dir@, names@[i]@),
{
    let mut v: Vec<(String, String)> = Vec::new();
    let mut i: usize = 0;
    while i < names.len()
        invariant
            i <= names@.len(),
            v@.len() == i,
            forall|k: int|
                0 <= k < i ==> (#[trigger] v@[k]).0@ == spec_join_slash(src_dir@, names@[k]@)
                    && v@[k].1@ == spec_join_slash(dst_dir@, names@[k]@),
        decreases names@.len() - i,
    {
        let src = join_slash(src_dir, names[i].as_str());
        let dst = join_slash(dst_dir, names[i].as_str());
        v.push((src, dst));
        i = i + 1;
    }
    v
}

/// A directory copy did something when one of its files was copied.
pub fn any_done(results: &Vec<bool>) -> (r: bool)
    ensures
        r == exists|i: int| 0 <= i < results@.len() && results@[i],
{
    let mut r = false;
    let mut i: usize = 0;
    while i < results.len()
        invariant
            i <= results@.len(),
            r == exists|k: int| 0 <= k < i && results@[k],
        decreases results@.len() - i,
    {
        r = r || results[i];
        i = i + 1;
    }
    r
}

/// The outcome of a copy task: nothing to do when no file needed copying.
pub fn copy_task_status(selected: usize) -> (s: crate::task::TaskStatus)
    ensures
        selected == 0 ==> s == crate::task::TaskStatus::DoNothing,
        selected != 0 ==> s == crate::task::TaskStatus::Success,
{
    if selected == 0 {
        crate::task::TaskStatus::DoNothing
    } else {
        crate::task::TaskStatus::Success
    }
}

/// What a copy task does next.
#[derive(Debug, Clone, Copy, PartialEq, Eq, Structural)]
pub enum CopyTaskStep {
    /// Copy the selected item at this index, then record its version.
    Copy(usize),
    /// Every selected item was copied: the task ends with this status.
    Done(crate::task::TaskStatus),
    /// A copy failed: the task ends with that error, and no later item is copied.
    Stopped,
}

/// A copy task working through its selected items in order; it stops at the
/// first item whose copy fails.
#[derive(Debug, Clone, Copy, PartialEq, Eq, Structural)]
pub struct CopyTaskRun {
    /// How many items were selected.
    pub total: usize,
    /// How many were copied and recorded, from the first.
    pub copied: usize,
    /// Whether the copy of the next item failed.
    pub failed: bool,
}

impl CopyTaskRun {
    pub open spec fn wf(self) -> bool {
        self.copied <= self.total && (self.failed ==> self.copied < self.total)
    }

    /// The next step (see [`CopyTaskStep`]).
    pub open spec fn spec_step(self) -> CopyTaskStep {
        if self.failed {
            CopyTaskStep::Stopped
        } else if self.copied < self.total {
            CopyTaskStep::Copy(self.copied)
        } else if self.total == 0 {
            CopyTaskStep::Done(crate::task::TaskStatus::DoNothing)
        } else {
            CopyTaskStep::Done(crate::task::TaskStatus::Success)
        }
    }

    /// A task with `total` selected items, none copied yet.
    pub fn new(total: usize) -> (r: CopyTaskRun)
        ensures
            r == (CopyTaskRun { total, copied: 0, failed: false }),
            r.wf(),
    {
        CopyTaskRun { total, copied: 0, failed: false }
    }

    /// The next step: copy the next item while none failed, else end; a task
    /// with nothing selected has nothing to do.
    pub fn step(&self) -> (st: CopyTaskStep)
        requires
            self.wf(),
        ensures
            st == self.spec_step(),
    {
        if self.failed {
            CopyTaskStep::Stopped
        } else if self.copied < self.total {
            CopyTaskStep::Copy(self.copied)
        } else {
            CopyTaskStep::Done(copy_task_status(self.total))
        }
    }

    /// The copy asked for by the last step ended: `ok` when it succeeded and
    /// its version was recorded.
    pub fn report(&mut self, ok: bool)
        requires
            old(self).wf(),
            old(self).spec_step() is Copy,
        ensures
            final(self).wf(),
            final(self).total == old(self).total,
            ok ==> final(self).copied == old(self).copied + 1 && !final(self).failed,
            !ok ==> final(self).copied == old(self).copied && final(self).failed,
    {
        if ok {
            self.copied = self.copied + 1;
        } else {
            self.failed = true;
        }
    }
}

/// A copy task ends in success only once every selected item was copied, in
/// order; once a copy failed, it asks for no further copy.
pub proof fn law_copy_task_stops_at_first_failure(r: CopyTaskRun)
    requires
        r.wf(),
    ensures
        r.spec_step() == CopyTaskStep::Done(crate::task::TaskStatus::Success) ==> r.copied == r.total && r.total > 0,
        r.failed ==> r.spec_step() == CopyTaskStep::Stopped,
        r.spec_step() matches CopyTaskStep::Copy(i) ==> i == r.copied && i < r.total,
{
}

/// `user {uid} not found`, said when a script names an unknown user.
pub fn user_not_found(uid: &str) -> (m: String)
    ensures
        m@ == "user "@ + uid@ + " not found"@,
{
    let mut m = concat_str("user ", uid);
    m.append(" not found");
    m
}

/// A run-once block runs only when nothing is recorded for its key.
pub open spec fn spec_once_runs(recorded: bool) -> bool {
    !recorded
}

/// After a run-once block ran, its key is recorded when the block succeeded
/// and this is no dry run.
pub open spec fn spec_once_records(dry_run: bool, ok: bool) -> bool {
    ok && !dry_run
}

/// Whether a run-once block runs, and whether its key is to be recorded once
/// it succeeds: only when nothing is recorded for it, and not in a dry run.
pub fn once_plan(recorded: bool, dry_run: bool) -> (r: (bool, bool))
    ensures
        r == (spec_once_runs(recorded), spec_once_runs(recorded) && spec_once_records(dry_run, true)),
{
    (!recorded, !recorded && !dry_run)
}

/// The end of a run-once block that ran: whether to record its key (only when
/// it succeeded, outside a dry run) and what the call answers (the block's
/// own answer, or its error). A block that did not run answers `false`.
pub fn once_end<E>(dry_run: bool, block: Result<bool, E>) -> (r: (bool, Result<bool, E>))
    ensures
        r.0 == spec_once_records(dry_run, block is Ok),
        r.1 == block,
{
    let record = block.is_ok() && !dry_run;
    (record, block)
}

/// What a run-once call answers: `false` when its key is recorded (the block
/// does not run), else the block's own answer or error (`block`, what it
/// gave when it ran; `false` if it was not run).
pub open spec fn spec_once_answer<E>(recorded: bool, block: Option<Result<bool, E>>) -> Result<bool, E> {
    if !spec_once_runs(recorded) {
        Ok(false)
    } else {
        match block {
            Some(b) => b,
            None => Ok(false),
        }
    }
}

/// What a run-once call answers (see [`spec_once_answer`]).
pub fn once_answer<E>(recorded: bool, block: Option<Result<bool, E>>) -> (r: Result<bool, E>)
    ensures
        r == spec_once_answer(recorded, block),
{
    if recorded {
        Ok(false)
    } else {
        match block {
            Some(b) => b,
            None => Ok(false),
        }
    }
}

/// A call whose key is recorded answers `false`, whatever its block would do.
pub proof fn law_recorded_once_answers_false<E>(block: Option<Result<bool, E>>)
    ensures
        spec_once_answer(true, block) == Ok::<bool, E>(false),
{
}

/// A run-once block runs at most once: after it ran and succeeded outside a
/// dry run, its key is recorded and a later call does not run it; a block
/// that failed records nothing, so a later call runs it again.
pub proof fn law_once_runs_at_most_once(recorded: bool, dry_run: bool, ok: bool)
    ensures
        ({
            let after = recorded || (spec_once_runs(recorded) && spec_once_records(dry_run, ok));
            &&& (spec_once_runs(recorded) && ok && !dry_run) ==> !spec_once_runs(after)
            &&& !ok ==> after == recorded
            &&& recorded ==> !spec_once_runs(after)
        }),
{
}

/// Where the files of a copy go.
#[derive(Debug, Clone, PartialEq, Eq)]
pub enum CopyTarget {
    /// The source is a directory: each of its files goes from `src_dir/name`
    /// to `dst_dir/name`.
    Dir { src_dir: String, dst_dir: String },
    /// The source is a file, copied to `dst`.
    File { dst: String },
}

/// Where the files of a copy go: a source ending with `/` is a directory
/// copied into the destination; another directory goes where a single file
/// would (under its own name when the destination ends with `/`). The
/// directories are named without a trailing `/`.
pub open spec fn spec_copy_target(src: Seq<char>, dst: Seq<char>, src_is_dir: bool) -> (bool, Seq<char>, Seq<char>) {
    if spec_ends_with(src, '/') {
        (true, spec_without_trailing(src, '/'), spec_without_trailing(dst, '/'))
    } else if src_is_dir {
        (true, src, spec_without_trailing(spec_copy_destination(src, dst), '/'))
    } else {
        (false, src, spec_copy_destination(src, dst))
    }
}

/// A source ending with `/` copies its files into the destination itself:
/// both directories are the paths given, at most without their trailing `/`;
/// a file source goes where [`copy_destination`] sends it.
pub proof fn law_copy_target_directories(src: Seq<char>, dst: Seq<char>, src_is_dir: bool)
    ensures
        spec_ends_with(src, '/') ==> ({
            let (is_dir, s, d) = spec_copy_target(src, dst, src_is_dir);
            &&& is_dir
            &&& s.push('/') == src
            &&& (d == dst || d.push('/') == dst)
        }),
        !spec_ends_with(src, '/') && !src_is_dir ==> spec_copy_target(src, dst, src_is_dir) == (
            false,
            src,
            spec_copy_destination(src, dst),
        ),
        !spec_ends_with(src, '/') && src_is_dir ==> spec_copy_target(src, dst, src_is_dir).0
            && spec_copy_target(src, dst, src_is_dir).1 == src,
{
    if spec_ends_with(src, '/') {
        assert(src.drop_last().push('/') =~= src);
        if spec_ends_with(dst, '/') {
            assert(dst.drop_last().push('/') =~= dst);
        }
    }
}

/// Where the files of a copy go (see [`spec_copy_target`]); `src_is_dir`
/// tells whether the source turned out to be a directory.
pub fn copy_target(src_path: &str, dst_path: &str, src_is_dir: bool) -> (t: CopyTarget)
    ensures
        ({
            let (is_dir, s, d) = spec_copy_target(src_path@, dst_path@, src_is_dir);
            &&& is_dir ==> (t matches CopyTarget::Dir { src_dir, dst_dir } && src_dir@ == s && dst_dir@ == d)
            &&& !is_dir ==> (t matches CopyTarget::File { dst } && dst@ == d)
        }),
{
    if ends_with_char(src_path, '/') {
        CopyTarget::Dir { src_dir: without_trailing(src_path, '/'), dst_dir: without_trailing(dst_path, '/') }
    } else if src_is_dir {
        let d = copy_destination(src_path, dst_path);
        CopyTarget::Dir { src_dir: src_path.to_owned(), dst_dir: without_trailing(d.as_str(), '/') }
    } else {
        CopyTarget::File { dst: copy_destination(src_path, dst_path) }
    }
}

/// A copy between two users, as a script asks for it.
#[derive(Debug, Clone, PartialEq, Eq)]
pub struct CopyContext {
    pub dry_run: bool,
    pub src_uid: String,
    pub dst_uid: String,
    /// How to settle changed destinations; asked each time when absent.
    pub opt: Option<CopyOption>,
}

impl CopyContext {
    /// A copy from `src_uid` to `dst_uid`, both connected users of `users`
    /// (an unknown one, the source first, is an error that names it); also
    /// whether `opt` was given but names no option (it is then dropped, after
    /// saying so).
    pub fn new(users: &Registry, dry_run: bool, src_uid: &str, dst_uid: &str, opt: Option<&str>) -> (r:
        Result<(CopyContext, bool), UserNotFound>)
        ensures
            !users.has_user(src_uid@) ==> (r matches Err(e) && e.uid@ == src_uid@),
            users.has_user(src_uid@) && !users.has_user(dst_uid@) ==> (r matches Err(e) && e.uid@ == dst_uid@),
            users.has_user(src_uid@) && users.has_user(dst_uid@) ==> (r matches Ok((c, invalid)) && {
                &&& c.dry_run == dry_run
                &&& c.src_uid@ == src_uid@
                &&& c.dst_uid@ == dst_uid@
                &&& match opt {
                    None => c.opt is None && !invalid,
                    Some(s) => c.opt == spec_copy_option(s@) && invalid == (spec_copy_option(s@) is None),
                }
            }),
    {
        match users.lookup(src_uid) {
            Err(e) => {
                return Err(e);
            },
            Ok(()) => {},
        }
        match users.lookup(dst_uid) {
            Err(e) => {
                return Err(e);
            },
            Ok(()) => {},
        }
        let (o, invalid) = parse_copy_option(opt);
        Ok((CopyContext { dry_run, src_uid: src_uid.to_owned(), dst_uid: dst_uid.to_owned(), opt: o }, invalid))
    }

    /// What to perform for a file once decided (`copy`, `reverse`): nothing
    /// when it is not copied or in a dry run (no copy, no version read, no
    /// record); else the copy from the first path to the second, after which
    /// the versions are read and recorded (see [`versions_after_copy`]).
    pub fn copy_step(&self, copy: bool, reverse: bool, src_path: &str, dst_path: &str) -> (r: Option<
        (String, String),
    >)
        ensures
            r is None <==> (!copy || self.dry_run),
            r matches Some(p) ==> if reverse {
                p.0@ == dst_path@ && p.1@ == src_path@
            } else {
                p.0@ == src_path@ && p.1@ == dst_path@
            },
    {
        if !copy || self.dry_run {
            None
        } else if reverse {
            Some((dst_path.to_owned(), src_path.to_owned()))
        } else {
            Some((src_path.to_owned(), dst_path.to_owned()))
        }
    }

    /// What to do with one file (see [`decide_copy`]).
    pub fn check_copy_file(&self, cache: Option<(i64, i64)>, src_ts: i64, dst_ts: Option<i64>) -> (d:
        CopyDecision)
        ensures
            d == spec_decide_copy(cache, src_ts, dst_ts, self.opt),
    {
        decide_copy(cache, src_ts, dst_ts, self.opt)
    }

    /// The line that reports one file.
    pub fn report(&self, done: bool, reverse: bool, src_path: &str, dst_path: &str) -> (m: String)
        ensures
            m@ == spec_copy_report(
                self.dry_run,
                done,
                reverse,
                self.src_uid@,
                src_path@,
                self.dst_uid@,
                dst_path@,
            ),
    {
        copy_report(
            self.dry_run,
            done,
            reverse,
            self.src_uid.as_str(),
            src_path,
            self.dst_uid.as_str(),
            dst_path,
        )
    }
}

} // verus!
