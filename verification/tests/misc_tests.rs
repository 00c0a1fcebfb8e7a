use dv4rune::cli::{default_config, dir_file_paths, path_join, Cli};
use dv4rune::interact::{
    ask_action, confirm_options, confirm_selection, select_option, AskAction, KeyCode, Modifiers,
    TermEvent,
};
use dv4rune::package::{parse_pm, Package, PackageError, Pm};
use dv4rune::registry::{Registry, RegistryError};
use dv4rune::script::{
    console_coord, exit_code, resized_window, script_file_contents, split_whitespace, user_script, win32_string, Launch,
    Script, ScriptExecutor, WindowSize,
};
use dv4rune::text::{after_last, chars_of, ends_with_char, ensure_trailing, string_of_chars};
use dv4rune::users::{
    CurrentUser, LocalConfig, LocalDeviceConfig, SSHConnect, SSHDeviceConfig, SSHUser,
    SSHUserConfig,
};
use dv4rune::vars::{current_user_config, ssh_user_config, Config};

fn s(x: &str) -> String {
    x.to_string()
}

#[test]
fn confirm_options_and_selection() {
    let o = confirm_options(&vec![s("n/skip"), s("u/update")]);
    assert_eq!(o, vec![('n', s("skip")), ('u', s("update"))]);
    let o2 = confirm_options(&vec![s("y/overwrite"), s("plain"), s("/x")]);
    assert_eq!(o2, vec![('y', s("overwrite")), ('2', s("plain")), ('3', s("/x"))]);
    assert_eq!(select_option(&o, 'u'), Some(1));
    assert_eq!(select_option(&o, 'q'), None);
    // the last option with a key wins
    let dup = vec![('a', s("x")), ('a', s("y"))];
    assert_eq!(select_option(&dup, 'a'), Some(1));
    let key = |c| TermEvent::Key { code: KeyCode::Char(c), modifiers: Modifiers::NoModifier };
    assert_eq!(confirm_selection(&o, key('n')), Some(0));
    assert_eq!(
        confirm_selection(&o, TermEvent::Key { code: KeyCode::Char('n'), modifiers: Modifiers::Control }),
        None
    );
    assert_eq!(confirm_selection(&o, TermEvent::Resize { cols: 1, rows: 1 }), None);
    // digits select options by position
    let plain = confirm_options(&vec![s("a"), s("b"), s("c")]);
    assert_eq!(confirm_selection(&plain, key('2')), Some(1));
}

#[test]
fn keys_become_bytes() {
    let k = |code, modifiers| ask_action(TermEvent::Key { code, modifiers });
    assert_eq!(k(KeyCode::Char('c'), Modifiers::Control), AskAction::Send(vec![3]));
    assert_eq!(k(KeyCode::Char('d'), Modifiers::Control), AskAction::Send(vec![4]));
    assert_eq!(k(KeyCode::Char('x'), Modifiers::Control), AskAction::Send(vec![b'x']));
    assert_eq!(k(KeyCode::Char('c'), Modifiers::NoModifier), AskAction::Send(vec![b'c']));
    assert_eq!(k(KeyCode::Char('é'), Modifiers::NoModifier), AskAction::Send(vec![0xe9]));
    assert_eq!(k(KeyCode::Char('€'), Modifiers::NoModifier), AskAction::Send(vec![0xac]));
    assert_eq!(k(KeyCode::Left, Modifiers::Other), AskAction::Send(b"\x1b[D".to_vec()));
    assert_eq!(k(KeyCode::Right, Modifiers::NoModifier), AskAction::Send(b"\x1b[C".to_vec()));
    assert_eq!(k(KeyCode::Up, Modifiers::NoModifier), AskAction::Send(b"\x1b[A".to_vec()));
    assert_eq!(k(KeyCode::Down, Modifiers::NoModifier), AskAction::Send(b"\x1b[B".to_vec()));
    assert_eq!(k(KeyCode::Backspace, Modifiers::NoModifier), AskAction::Send(vec![0x7f]));
    assert_eq!(k(KeyCode::Enter, Modifiers::NoModifier), AskAction::Send(vec![b'\r']));
    assert_eq!(k(KeyCode::Esc, Modifiers::NoModifier), AskAction::Send(vec![0x1b]));
    assert_eq!(k(KeyCode::Other, Modifiers::NoModifier), AskAction::Ignore);
    assert_eq!(ask_action(TermEvent::Resize { cols: 80, rows: 24 }), AskAction::Resize { cols: 80, rows: 24 });
    assert_eq!(ask_action(TermEvent::Other), AskAction::Ignore);
}

#[test]
fn packages() {
    let mut a = Package::new();
    a.set("apt", "git");
    a.set("nope", "x");
    let mut b = Package::new();
    b.set("apt", "vim");
    b.set("yay", "paru-bin");
    a.merge(&b);
    assert_eq!(a.apt, Some(s("git vim")));
    assert_eq!(a.yay, Some(s("paru-bin")));
    assert_eq!(a.apk, None);
    let mut c = Package::new();
    c.add_assign(&b);
    assert_eq!(c.apt, Some(s(" vim")));
    assert_eq!(c.index_set("winget", "Git.Git"), Ok(()));
    assert_eq!(c.winget, Some(s("Git.Git")));
    assert_eq!(c.index_set("brew", "x"), Err(PackageError::UnknownPm));
    assert_eq!(Package::new().display(), "empty");
    assert_eq!(b.display(), "apt:vim yay:paru-bin ");
    assert_eq!(parse_pm("pacman"), Some(Pm::Pacman));
    assert_eq!(parse_pm("Pacman"), None);
    let before = a.clone();
    a.merge(&Package::new());
    assert_eq!(a, before);
}

#[test]
fn scripts() {
    assert_eq!(split_whitespace("  ls  -la\t/tmp \n"), vec![s("ls"), s("-la"), s("/tmp")]);
    assert_eq!(split_whitespace("a\u{3000}b"), vec![s("a"), s("b")]);
    assert_eq!(split_whitespace(" "), Vec::<String>::new());
    assert_eq!(
        Script::whole("echo hi there").launch(),
        Launch::Direct { program: s("echo"), args: vec![s("hi"), s("there")] }
    );
    assert_eq!(
        Script::new(s("git"), vec![s("pull")]).launch(),
        Launch::Direct { program: s("git"), args: vec![s("pull")] }
    );
    assert_eq!(
        Script::from_words(vec![s("ls"), s("-l")]),
        Script::Split { program: s("ls"), args: vec![s("-l")] }
    );
    let mut expect = b"echo 1\n".to_vec();
    expect.extend_from_slice(b"\ntrap 'rm -f -- \"$0\"' EXIT;");
    assert_eq!(
        Script::sh(vec![s("echo 1\n")]).launch(),
        Launch::File { program: s("sh"), contents: expect }
    );
    assert_eq!(
        script_file_contents(ScriptExecutor::Powershell, &vec![s("a"), s("é")]),
        "aé\r\nRemove-Item $MyInvocation.MyCommand.Path".as_bytes().to_vec()
    );
    assert_eq!(ScriptExecutor::Powershell.program(), "powershell");
    assert_eq!(ScriptExecutor::Sh.prepare_clean(), b"\ntrap 'rm -f -- \"$0\"' EXIT;".to_vec());
    assert_eq!(Script::powershell(vec![]), Script::Script { executor: ScriptExecutor::Powershell, input: vec![] });
    assert_eq!(user_script(true, "ls"), Script::Script { executor: ScriptExecutor::Sh, input: vec![s("ls")] });
    assert_eq!(user_script(false, "ls -l"), Script::Whole(s("ls -l")));
    let ws = WindowSize::default();
    assert_eq!((ws.rows, ws.cols), (1, 1));
    assert_eq!(console_coord(WindowSize { rows: 24, cols: 80 }), (80, 24));
    assert_eq!(win32_string("a😀"), vec![0x61, 0xD83D, 0xDE00, 0]);
    assert_eq!(win32_string(""), vec![0]);
}

#[test]
fn text_helpers() {
    assert_eq!(after_last("a/b/c", '/'), "c");
    assert_eq!(after_last("abc", '/'), "abc");
    assert_eq!(after_last("abc/", '/'), "");
    assert!(ends_with_char("x/", '/'));
    assert!(!ends_with_char("", '/'));
    let mut t = s("d");
    ensure_trailing(&mut t, '/');
    ensure_trailing(&mut t, '/');
    assert_eq!(t, "d/");
    assert_eq!(string_of_chars(&chars_of("héllo")), "héllo");
}

#[test]
fn user_configs() {
    let dev = SSHDeviceConfig::new(s("box"), vec![
        SSHUserConfig::new(s("alice"), s("box.lan")).passwd(s("pw")),
        SSHUserConfig::new(s("bob"), s("box.lan")),
    ])
    .root(SSHUserConfig::new(s("root"), s("box.lan")))
    .os(s("linux"));
    let (sys, users) = dev.connect_plan(&vec![s("bob"), s("root")]);
    assert_eq!(
        sys,
        Some((s("root"), SSHConnect { hid: s("box"), host: s("box.lan"), is_system: true, os: Some(s("linux")), passwd: None }))
    );
    assert_eq!(users.len(), 1);
    assert_eq!(users[0].0, "bob");
    assert!(!users[0].1.is_system);
    let (sys, users) = dev.connect_plan(&vec![s("alice")]);
    assert_eq!(sys, None);
    assert_eq!(users[0].1.passwd, Some(s("pw")));
    let local = LocalDeviceConfig {
        hid: s("local"),
        user: LocalConfig { uid: s("me"), mount: s("/home/me/.config/dv") },
        system: None,
    }
    .system(SSHUserConfig::new(s("root"), s("localhost")));
    let (sys, me) = local.connect_plan(&vec![s("me"), s("root")]);
    assert_eq!(sys.unwrap().1.os, None);
    assert_eq!(me.unwrap().1.mount, "/home/me/.config/dv");
    let c = CurrentUser::new("local", "~/.config/dv").cast();
    assert_eq!((c.hid.as_str(), c.mount.as_str()), ("local", "~/.config/dv"));
    let mut u = SSHUser::new("box", "box.lan");
    u.is_system = true;
    let c = u.cast();
    assert!(c.is_system);
    assert_eq!(c.host, "box.lan");
}

#[test]
fn registry_groups_users_by_device() {
    let mut r = Registry::new();
    assert_eq!(r.add_user("alice", Some("box"), false), Ok(()));
    assert_eq!(r.add_user("root", Some("box"), true), Ok(()));
    assert_eq!(r.add_user("me", None, false), Ok(()));
    assert_eq!(r.add_user("alice", Some("other"), false), Err(RegistryError::UserExists));
    assert_eq!(r.users, vec![s("alice"), s("root"), s("me")]);
    assert_eq!(r.devices.len(), 1);
    assert_eq!(r.devices[0].system, Some(s("root")));
    assert_eq!(r.devices[0].users, vec![s("alice")]);
    assert!(r.contains_user("me"));
    assert_eq!(r.find_device("box"), Some(0));
    assert_eq!(r.find_device("nope"), None);
    r.add_device_user("laptop", false);
    assert_eq!(r.devices[1].hid, "laptop");
    assert_eq!(r.devices[1].users, vec![s("laptop")]);
}

#[test]
fn variables() {
    let mut c = Config::new();
    assert_eq!(c.get("HID"), None);
    c.insert("HID", "a");
    c.insert("HID", "b");
    c.insert("USER", "me");
    assert_eq!(c.get("HID"), Some(&s("b")));
    assert_eq!(c.get("USER"), Some(&s("me")));
    let cur = current_user_config();
    assert_eq!(cur.get("HID"), Some(&s("local")));
    assert_eq!(cur.get("MOUNT"), Some(&s("~/.local/share/dv")));
    assert_eq!(cur.get("OS"), Some(&s("linux")));
    let ssh = ssh_user_config("box.lan");
    assert_eq!(ssh.get("HOST"), Some(&s("box.lan")));
    assert_eq!(ssh.get("HID"), None);
}

#[test]
fn command_line_paths() {
    let cli = Cli {
        directory: s("/home/me/.config/dv/"),
        config: None,
        dbpath: None,
        dry_run: false,
        entry: s("main"),
        rargs: vec![],
    };
    assert_eq!(cli.config_path(), "/home/me/.config/dv/config.rn");
    assert_eq!(cli.cache_path(), "/home/me/.config/dv/.cache");
    let cli2 = Cli { directory: s("/etc/dv"), config: Some(s("x.rn")), dbpath: Some(s("/tmp/db")), ..cli };
    assert_eq!(cli2.config_path(), "x.rn");
    assert_eq!(cli2.cache_path(), "/tmp/db");
    assert_eq!(path_join("/etc/dv", "config.rn"), "/etc/dv/config.rn");
    assert_eq!(path_join("", "a"), "a");
    assert_eq!(default_config("/home/me"), "/home/me/.config/dv/");
}

#[test]
fn directory_listing_paths() {
    let names = vec![s("a.rn"), s("sub/b.rn")];
    assert_eq!(dir_file_paths("/src", &names), vec![s("/src/a.rn"), s("/src/sub/b.rn")]);
    assert_eq!(dir_file_paths("/src/", &names), vec![s("/src/a.rn"), s("/src/sub/b.rn")]);
    assert!(dir_file_paths("/src", &vec![]).is_empty());
}

#[test]
fn window_resize_and_exit_codes() {
    let ws = resized_window(80, 24);
    assert_eq!((ws.cols, ws.rows), (80, 24));
    let wide = resized_window(70000, 65537);
    assert_eq!((wide.cols, wide.rows), (4464, 1));
    assert_eq!(exit_code(Some(3), Some(9)), 3);
    assert_eq!(exit_code(Some(0), None), 0);
    assert_eq!(exit_code(None, Some(9)), 137);
    assert_eq!(exit_code(None, None), 1);
}
