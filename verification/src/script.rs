//! Scripts run in a pseudo terminal: the window size, the interpreters and
//! how a script becomes a command line.
use vstd::prelude::*;

use crate::registry::{Registry, UserNotFound};
use crate::text::{chars_of, push_char, string_of_chars, strs_view};

verus! {

/// Size of a pseudo terminal window.
#[derive(Debug, Clone, Copy, PartialEq, Eq, Structural)]
pub struct WindowSize {
    pub rows: u16,
    pub cols: u16,
}

impl Default for WindowSize {
    /// A one by one window: a size of zero is refused by some consoles.
    fn default() -> (ws: Self)
        ensures
            ws.rows == 1,
            ws.cols == 1,
    {
        WindowSize { rows: 1, cols: 1 }
    }
}

/// The interpreter that runs a script file.
#[derive(Debug, Clone, Copy, PartialEq, Eq, Structural)]
pub enum ScriptExecutor {
    Sh,
    Powershell,
}

/// Bytes appended to a script file so that the script removes itself when it ends.
pub open spec fn spec_clean_suffix(e: ScriptExecutor) -> Seq<u8> {
    match e {
        // "\ntrap 'rm -f -- \"$0\"' EXIT;"
        ScriptExecutor::Sh => seq![
            10u8, 116, 114, 97, 112, 32, 39, 114, 109, 32, 45, 102, 32, 45, 45, 32, 34, 36, 48,
            34, 39, 32, 69, 88, 73, 84, 59,
        ],
        // "\r\nRemove-Item $MyInvocation.MyCommand.Path"
        ScriptExecutor::Powershell => seq![
            13u8, 10, 82, 101, 109, 111, 118, 101, 45, 73, 116, 101, 109, 32, 36, 77, 121, 73, 110,
            118, 111, 99, 97, 116, 105, 111, 110, 46, 77, 121, 67, 111, 109, 109, 97, 110, 100,
            46, 80, 97, 116, 104,
        ],
    }
}

/// Name of the interpreter's program.
pub open spec fn spec_program_name(e: ScriptExecutor) -> Seq<char> {
    match e {
        ScriptExecutor::Sh => seq!['s', 'h'],
        ScriptExecutor::Powershell => seq!['p', 'o', 'w', 'e', 'r', 's', 'h', 'e', 'l', 'l'],
    }
}

impl ScriptExecutor {
    /// The bytes that make a script file delete itself when it ends.
    pub fn prepare_clean(&self) -> (v: Vec<u8>)
        ensures
            v@ == spec_clean_suffix(*self),
    {
        match self {
            ScriptExecutor::Sh => {
                let v = vec![
                    10u8, 116, 114, 97, 112, 32, 39, 114, 109, 32, 45, 102, 32, 45, 45, 32, 34, 36,
                    48, 34, 39, 32, 69, 88, 73, 84, 59,
                ];
                assert(v@ =~= spec_clean_suffix(*self));
                v
            },
            ScriptExecutor::Powershell => {
                let v = vec![
                    13u8, 10, 82, 101, 109, 111, 118, 101, 45, 73, 116, 101, 109, 32, 36, 77, 121,
                    73, 110, 118, 111, 99, 97, 116, 105, 111, 110, 46, 77, 121, 67, 111, 109, 109,
                    97, 110, 100, 46, 80, 97, 116, 104,
                ];
                assert(v@ =~= spec_clean_suffix(*self));
                v
            },
        }
    }

    /// The program that runs the script (`sh` or `powershell`); this is also
    /// how the interpreter is displayed.
    pub fn program(&self) -> (s: String)
        ensures
            s@ == spec_program_name(*self),
    {
        match self {
            ScriptExecutor::Sh => {
                let cs = vec!['s', 'h'];
                let s = string_of_chars(cs.as_slice());
                assert(s@ =~= spec_program_name(*self));
                s
            },
            ScriptExecutor::Powershell => {
                let cs = vec!['p', 'o', 'w', 'e', 'r', 's', 'h', 'e', 'l', 'l'];
                let s = string_of_chars(cs.as_slice());
                assert(s@ =~= spec_program_name(*self));
                s
            },
        }
    }
}

/// What to run.
#[derive(Debug, Clone, PartialEq, Eq)]
pub enum Script {
    /// A whole command line, split at white space.
    Whole(String),
    /// A program and its arguments.
    Split { program: String, args: Vec<String> },
    /// Lines of a script, written to a file and run by an interpreter.
    Script { executor: ScriptExecutor, input: Vec<String> },
}

impl Script {
    /// A shell script made of the given lines.
    pub fn sh(input: Vec<String>) -> (s: Script)
        ensures
            s == (Script::Script { executor: ScriptExecutor::Sh, input }),
    {
        Script::Script { executor: ScriptExecutor::Sh, input }
    }

    /// A PowerShell script made of the given lines.
    pub fn powershell(input: Vec<String>) -> (s: Script)
        ensures
            s == (Script::Script { executor: ScriptExecutor::Powershell, input }),
    {
        Script::Script { executor: ScriptExecutor::Powershell, input }
    }

    /// A program with its arguments.
    pub fn new(program: String, args: Vec<String>) -> (s: Script)
        ensures
            s == (Script::Split { program, args }),
    {
        Script::Split { program, args }
    }

    /// A whole command line (`From<&str>`).
    pub fn whole(cmd: &str) -> (s: Script)
        ensures
            s matches Script::Whole(c) && c@ == cmd@,
    {
        Script::Whole(cmd.to_owned())
    }

    /// The first word is the program, the others its arguments (`From<&[&str]>`).
    pub fn from_words(words: Vec<String>) -> (s: Script)
        requires
            words@.len() > 0,
        ensures
            s matches Script::Split { program, args } && program == words@[0] && args@
                == words@.subrange(1, words@.len() as int),
    {
        let mut words = words;
        let ghost w = words@;
        let program = words.remove(0);
        assert(words@ =~= w.subrange(1, w.len() as int));
        Script::Split { program, args: words }
    }

    /// How to start the script: a program with arguments, or an interpreter
    /// that runs a file with the given contents (the file's path then comes
    /// as the last argument).
    pub fn launch(self) -> (l: Launch)
        requires
            self matches Script::Whole(c) ==> spec_split_whitespace(c@).len() > 0,
        ensures
            spec_launch(self, l),
    {
        match self {
            Script::Whole(cmd) => {
                let words = split_whitespace(cmd.as_str());
                let ghost w = words@;
                let mut words = words;
                let program = words.remove(0);
                assert(strs_view(words@) =~= strs_view(w).subrange(1, w.len() as int));
                Launch::Direct { program, args: words }
            },
            Script::Split { program, args } => Launch::Direct { program, args },
            Script::Script { executor, input } => {
                let contents = script_file_contents(executor, &input);
                Launch::File { program: executor.program(), contents }
            },
        }
    }
}

/// How a script is started.
#[derive(Debug, Clone, PartialEq, Eq)]
pub enum Launch {
    /// Run `program` with `args`.
    Direct { program: String, args: Vec<String> },
    /// Write `contents` to a new file and run `program` with the file's path.
    File { program: String, contents: Vec<u8> },
}

/// `l` is how `s` is started.
pub open spec fn spec_launch(s: Script, l: Launch) -> bool {
    match s {
        Script::Whole(c) => {
            let words = spec_split_whitespace(c@);
            l matches Launch::Direct { program, args } && program@ == words[0] && strs_view(
                args@,
            ) == words.subrange(1, words.len() as int)
        },
        Script::Split { program, args } => l == (Launch::Direct { program, args }),
        Script::Script { executor, input } => l matches Launch::File { program, contents }
            && program@ == spec_program_name(executor) && contents@ == spec_script_bytes(
            executor,
            strs_view(input@),
        ),
    }
}

/// The UTF-8 bytes of all lines, one after the other, then the clean-up suffix.
pub open spec fn spec_script_bytes(e: ScriptExecutor, lines: Seq<Seq<char>>) -> Seq<u8> {
    spec_lines_bytes(lines) + spec_clean_suffix(e)
}

pub open spec fn spec_lines_bytes(lines: Seq<Seq<char>>) -> Seq<u8>
    decreases lines.len(),
{
    if lines.len() == 0 {
        seq![]
    } else {
        spec_lines_bytes(lines.drop_last()) + vstd::utf8::encode_utf8(lines.last())
    }
}

/// The contents of the file that runs `input` with `executor`.
pub fn script_file_contents(executor: ScriptExecutor, input: &Vec<String>) -> (v: Vec<u8>)
    ensures
        v@ == spec_script_bytes(executor, strs_view(input@)),
{
    let mut v: Vec<u8> = Vec::new();
    let mut i: usize = 0;
    while i < input.len()
        invariant
            i <= input@.len(),
            v@ == spec_lines_bytes(strs_view(input@.subrange(0, i as int))),
        decreases input@.len() - i,
    {
        let bytes = input[i].as_str().as_bytes();
        let ghost before = v@;
        v.extend_from_slice(bytes);
        proof {
            assert(v@ =~= before + bytes@);
            let p = strs_view(input@.subrange(0, i + 1));
            assert(p.drop_last() =~= strs_view(input@.subrange(0, i as int)));
        }
        i = i + 1;
    }
    assert(input@.subrange(0, input@.len() as int) =~= input@);
    let clean = executor.prepare_clean();
    let ghost before = v@;
    v.extend_from_slice(clean.as_slice());
    assert(v@ =~= before + clean@);
    v
}

/// Unicode white space (`char::is_whitespace`).
pub open spec fn spec_is_whitespace(c: char) -> bool {
    let u = c as u32;
    (0x9 <= u <= 0xd) || u == 0x20 || u == 0x85 || u == 0xa0 || u == 0x1680 || (0x2000 <= u
        <= 0x200a) || u == 0x2028 || u == 0x2029 || u == 0x202f || u == 0x205f || u == 0x3000
}

/// Whether `c` is white space (`char::is_whitespace`).
pub fn is_whitespace(c: char) -> (r: bool)
    ensures
        r == spec_is_whitespace(c),
{
    let u = c as u32;
    (0x9 <= u && u <= 0xd) || u == 0x20 || u == 0x85 || u == 0xa0 || u == 0x1680 || (0x2000 <= u
        && u <= 0x200a) || u == 0x2028 || u == 0x2029 || u == 0x202f || u == 0x205f || u == 0x3000
}

/// Words read so far and the word being read, after reading `s` from left to right.
pub open spec fn spec_split_state(s: Seq<char>) -> (Seq<Seq<char>>, Seq<char>)
    decreases s.len(),
{
    if s.len() == 0 {
        (seq![], seq![])
    } else {
        let (words, cur) = spec_split_state(s.drop_last());
        let c = s.last();
        if spec_is_whitespace(c) {
            if cur.len() > 0 {
                (words.push(cur), seq![])
            } else {
                (words, cur)
            }
        } else {
            (words, cur.push(c))
        }
    }
}

/// The maximal runs of non-white-space characters of `s` (`str::split_whitespace`).
pub open spec fn spec_split_whitespace(s: Seq<char>) -> Seq<Seq<char>> {
    let (words, cur) = spec_split_state(s);
    if cur.len() > 0 {
        words.push(cur)
    } else {
        words
    }
}

/// Splits `s` at white space, dropping empty words.
pub fn split_whitespace(s: &str) -> (words: Vec<String>)
    ensures
        strs_view(words@) == spec_split_whitespace(s@),
{
    let cs = chars_of(s);
    let mut words: Vec<String> = Vec::new();
    let mut cur = String::new();
    let mut i: usize = 0;
    while i < cs.len()
        invariant
            i <= cs@.len(),
            cs@ == s@,
            (strs_view(words@), cur@) == spec_split_state(s@.subrange(0, i as int)),
        decreases cs@.len() - i,
    {
        let c = cs[i];
        proof {
            assert(s@.subrange(0, i + 1).drop_last() =~= s@.subrange(0, i as int));
        }
        if is_whitespace(c) {
            if !cur.as_str().is_empty() {
                let w = cur;
                cur = String::new();
                let ghost before = words@;
                words.push(w);
                assert(strs_view(words@) =~= strs_view(before).push(w@));
            }
        } else {
            push_char(&mut cur, c);
        }
        i = i + 1;
    }
    assert(s@.subrange(0, cs@.len() as int) =~= s@);
    if !cur.as_str().is_empty() {
        let ghost before = words@;
        let w = cur;
        words.push(w);
        assert(strs_view(words@) =~= strs_view(before).push(w@));
    }
    words
}

/// The script that runs `commands` for a user: fed to `sh` when a shell is
/// asked for (whichever it is), else run as a whole command line.
pub fn user_script(shell_given: bool, commands: &str) -> (s: Script)
    ensures
        shell_given ==> (s matches Script::Script { executor: ScriptExecutor::Sh, input } && input@.len() == 1 && input@[0]@ == commands@),
        !shell_given ==> (s matches Script::Whole(c) && c@ == commands@),
{
    if shell_given {
        Script::sh(vec![commands.to_owned()])
    } else {
        Script::whole(commands)
    }
}

/// What running commands for a user comes to.
#[derive(Debug)]
pub enum ExecPlan {
    /// A dry run: nothing is started, and the run answers `true`.
    DryRun,
    /// The script to start in a pseudo terminal; a non-zero exit status is an
    /// error (see `exit_outcome`).
    Run(Script),
}

/// What running `commands` for user `uid` comes to: an unknown user is an
/// error that names it; a dry run starts nothing; otherwise the commands are
/// started as [`user_script`] makes them.
pub fn exec_plan(users: &Registry, uid: &str, dry_run: bool, shell_given: bool, commands: &str) -> (r:
    Result<ExecPlan, UserNotFound>)
    ensures
        !users.has_user(uid@) ==> (r matches Err(e) && e.uid@ == uid@),
        users.has_user(uid@) && dry_run ==> r matches Ok(ExecPlan::DryRun),
        users.has_user(uid@) && !dry_run && shell_given ==> (r matches Ok(ExecPlan::Run(Script::Script { executor: ScriptExecutor::Sh, input })) && input@.len() == 1 && input@[0]@ == commands@),
        users.has_user(uid@) && !dry_run && !shell_given ==> (r matches Ok(ExecPlan::Run(Script::Whole(c))) && c@ == commands@),
{
    match users.lookup(uid) {
        Err(e) => Err(e),
        Ok(()) => {
            if dry_run {
                Ok(ExecPlan::DryRun)
            } else {
                Ok(ExecPlan::Run(user_script(shell_given, commands)))
            }
        },
    }
}

/// The UTF-16 code units of one character.
pub open spec fn spec_utf16_units(c: char) -> Seq<u16> {
    let u = c as u32;
    if u < 0x10000 {
        seq![u as u16]
    } else {
        let v = (u - 0x10000) as u32;
        seq![(0xD800 + v / 1024) as u16, (0xDC00 + v % 1024) as u16]
    }
}

/// The UTF-16 encoding of a text.
pub open spec fn spec_utf16(s: Seq<char>) -> Seq<u16>
    decreases s.len(),
{
    if s.len() == 0 {
        seq![]
    } else {
        spec_utf16(s.drop_last()) + spec_utf16_units(s.last())
    }
}

/// A text as the Windows API takes it: UTF-16 code units ending with a zero
/// (`win32_string`).
fn utf16_of(s: &str) -> (v: Vec<u16>)
    ensures
        v@ == spec_utf16(s@),
{
    let cs = chars_of(s);
    let mut v: Vec<u16> = Vec::new();
    let mut i: usize = 0;
    while i < cs.len()
        invariant
            i <= cs@.len(),
            cs@ == s@,
            v@ == spec_utf16(s@.subrange(0, i as int)),
        decreases cs@.len() - i,
    {
        let c = cs[i];
        let u = c as u32;
        let ghost before = v@;
        if u < 0x10000 {
            v.push(u as u16);
        } else {
            let w = u - 0x10000;
            v.push((0xD800 + w / 1024) as u16);
            v.push((0xDC00 + w % 1024) as u16);
        }
        proof {
            assert(s@.subrange(0, i + 1).drop_last() =~= s@.subrange(0, i as int));
            assert(v@ =~= before + spec_utf16_units(c));
        }
        i = i + 1;
    }
    assert(s@.subrange(0, cs@.len() as int) =~= s@);
    v
}

pub fn win32_string(s: &str) -> (v: Vec<u16>)
    ensures
        v@ == spec_utf16(s@).push(0u16),
{
    let mut v = utf16_of(s);
    v.push(0);
    v
}

/// Each argument after a space, in UTF-16.
pub open spec fn spec_args_utf16(args: Seq<Seq<char>>) -> Seq<u16>
    decreases args.len(),
{
    if args.len() == 0 {
        seq![]
    } else {
        spec_args_utf16(args.drop_last()).push(32u16) + spec_utf16(args.last())
    }
}

fn append_units(v: &mut Vec<u16>, w: &Vec<u16>)
    ensures
        final(v)@ == old(v)@ + w@,
{
    let mut i: usize = 0;
    let ghost start = v@;
    while i < w.len()
        invariant
            i <= w@.len(),
            v@ == start + w@.subrange(0, i as int),
        decreases w@.len() - i,
    {
        v.push(w[i]);
        proof {
            assert(w@.subrange(0, i + 1) =~= w@.subrange(0, i as int).push(w@[i as int]));
        }
        i = i + 1;
    }
    assert(w@.subrange(0, w@.len() as int) =~= w@);
}

/// The Windows command line of a program and its arguments: the program's
/// full path (`program`, in UTF-16, as the search for it gave it), each
/// argument after a space, and a terminating zero.
pub fn windows_command_line(program: &Vec<u16>, args: &Vec<String>) -> (v: Vec<u16>)
    ensures
        v@ == (program@ + spec_args_utf16(strs_view(args@))).push(0u16),
{
    let mut v: Vec<u16> = Vec::new();
    append_units(&mut v, program);
    let mut i: usize = 0;
    while i < args.len()
        invariant
            i <= args@.len(),
            v@ == program@ + spec_args_utf16(strs_view(args@.subrange(0, i as int))),
        decreases args@.len() - i,
    {
        v.push(32u16);
        let w = utf16_of(args[i].as_str());
        append_units(&mut v, &w);
        proof {
            let p = strs_view(args@.subrange(0, i + 1));
            assert(p.drop_last() =~= strs_view(args@.subrange(0, i as int)));
            assert(p.last() == args@[i as int]@);
        }
        i = i + 1;
    }
    assert(args@.subrange(0, args@.len() as int) =~= args@);
    v.push(0);
    v
}

/// The Windows command line that runs a script file: the interpreter's full
/// path (`program`, in UTF-16), ` -f `, the script's path, and a terminating
/// zero.
pub fn windows_script_command_line(program: &Vec<u16>, path: &str) -> (v: Vec<u16>)
    ensures
        v@ == (program@ + seq![32u16, 45u16, 102u16, 32u16] + spec_utf16(path@)).push(0u16),
{
    let mut v: Vec<u16> = Vec::new();
    append_units(&mut v, program);
    v.push(32);
    v.push(45);
    v.push(102);
    v.push(32);
    let w = utf16_of(path);
    append_units(&mut v, &w);
    v.push(0);
    assert(v@ =~= (program@ + seq![32u16, 45u16, 102u16, 32u16] + spec_utf16(path@)).push(0u16));
    v
}

/// The contents of a PowerShell script file on Windows: the lines as they
/// are, then the line that removes the file when it ends, then a line end.
pub fn ps1_file_contents(input: &Vec<String>) -> (v: Vec<u8>)
    ensures
        v@ == spec_script_bytes(ScriptExecutor::Powershell, strs_view(input@)) + seq![13u8, 10u8],
{
    let mut v = script_file_contents(ScriptExecutor::Powershell, input);
    v.push(13);
    v.push(10);
    assert(v@ =~= spec_script_bytes(ScriptExecutor::Powershell, strs_view(input@)) + seq![13u8, 10u8]);
    v
}

/// A window size as a console coordinate: columns, then rows, as signed
/// sixteen-bit numbers (`From<WindowSize> for COORD`).
pub fn console_coord(ws: WindowSize) -> (c: (i16, i16))
    ensures
        c == (ws.cols as i16, ws.rows as i16),
{
    (ws.cols as i16, ws.rows as i16)
}

/// The window size asked for by a resize to `width` columns and `height`
/// rows: each is cut to its low sixteen bits, as the terminal takes them.
pub fn resized_window(width: u32, height: u32) -> (ws: WindowSize)
    ensures
        ws.rows == height as u16,
        ws.cols == width as u16,
{
    WindowSize { rows: height as u16, cols: width as u16 }
}

/// The exit code of a finished program: its own code, else 128 plus the
/// number of the signal that ended it, else 1.
pub fn exit_code(code: Option<i32>, signal: Option<i32>) -> (ec: i32)
    requires
        signal matches Some(v) ==> v <= i32::MAX - 128,
    ensures
        ec == (match (code, signal) {
            (Some(c), _) => c as int,
            (None, Some(v)) => 128 + v,
            (None, None) => 1,
        }),
{
    match code {
        Some(c) => c,
        None => match signal {
            Some(v) => 128 + v,
            None => 1,
        },
    }
}

} // verus!
