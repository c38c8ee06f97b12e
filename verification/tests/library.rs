use conveyorbelt::browser::{TargetInfo, TargetsError, newtab_target};
use conveyorbelt::cli::{CliError, parse};
use conveyorbelt::control::Control;
use conveyorbelt::fswatch::{
    CreateKind, DataChange, FsChange, FsChangeKind, FsWatchWatchingEvent, ModifyKind,
    NotifyEventKind, NotifyModifyKind, RemoveKind, RenameMode, WatchError, change_kind,
    changes_for_answers,
};
use conveyorbelt::project_path::{ResolveError, git_toplevel};

fn target(id: &str, url: &str) -> TargetInfo {
    TargetInfo { target_id: id.to_string(), url: url.to_string() }
}

#[test]
fn newtab_target_is_found() {
    let targets = vec![target("A1", "chrome://newtab/")];
    assert_eq!(newtab_target(&targets).unwrap(), "A1");
}

#[test]
fn newtab_target_needs_exactly_one_page() {
    assert!(matches!(newtab_target(&vec![]), Err(TargetsError::NotOnePage)));
    let two = vec![target("A1", "chrome://newtab/"), target("B2", "chrome://newtab/")];
    assert!(matches!(newtab_target(&two), Err(TargetsError::NotOnePage)));
}

#[test]
fn newtab_target_needs_newtab_page() {
    let targets = vec![target("A1", "about:blank")];
    assert!(matches!(newtab_target(&targets), Err(TargetsError::UnexpectedPage)));
}

#[test]
fn git_toplevel_trims_trailing_newline() {
    let root = git_toplevel(true, b"/home/me/project\n".to_vec()).unwrap();
    assert_eq!(root, "/home/me/project");
}

#[test]
fn git_toplevel_keeps_inner_and_leading_space() {
    let root = git_toplevel(true, " /a b/\u{00e9}t\u{00e9} \t\r\n\u{3000}".as_bytes().to_vec()).unwrap();
    assert_eq!(root, " /a b/\u{00e9}t\u{00e9}");
}

#[test]
fn git_toplevel_failure() {
    assert!(matches!(git_toplevel(false, b"/x\n".to_vec()), Err(ResolveError::GitFailed)));
}

#[test]
fn git_toplevel_not_utf8() {
    assert!(matches!(git_toplevel(true, vec![0x2f, 0xff, 0xfe]), Err(ResolveError::NotUtf8)));
}

fn argv(args: &[&str]) -> Vec<String> {
    args.iter().map(|arg| arg.to_string()).collect()
}

#[test]
fn parse_takes_build_command() {
    let args = parse(&argv(&["conveyorbelt", "./build.sh"])).unwrap();
    assert_eq!(args.build_command, "./build.sh");
}

#[test]
fn parse_needs_build_command() {
    match parse(&argv(&["conveyorbelt"])) {
        Err(CliError::Clap(failure)) => {
            assert_eq!(failure.exit_code, 2);
            assert!(failure.use_stderr);
            assert!(failure.message.contains("BUILD_COMMAND"));
        }
        _ => panic!("expected a usage error"),
    }
}

#[test]
fn parse_refuses_extra_argument() {
    match parse(&argv(&["conveyorbelt", "a", "b"])) {
        Err(CliError::Clap(failure)) => {
            assert_eq!(failure.exit_code, 2);
            assert!(failure.use_stderr);
        }
        _ => panic!("expected a refusal"),
    }
}

#[test]
fn parse_refuses_empty_build_command() {
    assert!(matches!(parse(&argv(&["conveyorbelt", ""])), Err(CliError::Clap(_))));
}

#[test]
fn parse_help() {
    match parse(&argv(&["conveyorbelt", "--help"])) {
        Err(CliError::Clap(failure)) => {
            assert_eq!(failure.exit_code, 0);
            assert!(!failure.use_stderr);
            assert!(failure.message.contains("The build command"));
        }
        _ => panic!("expected help"),
    }
}

#[test]
fn control_from_result() {
    assert!(matches!(Control::<u8>::from(Ok::<u8, ()>(5)), Control::Happy(5)));
    assert!(matches!(Control::<u8>::from(Err::<u8, ()>(())), Control::Exit(1)));
}

#[test]
fn change_kinds() {
    assert_eq!(change_kind(NotifyEventKind::Create(CreateKind::File)), Some(FsChangeKind::Create(CreateKind::File)));
    assert_eq!(change_kind(NotifyEventKind::Remove(RemoveKind::Folder)), Some(FsChangeKind::Remove(RemoveKind::Folder)));
    assert_eq!(
        change_kind(NotifyEventKind::Modify(NotifyModifyKind::Data(DataChange::Content))),
        Some(FsChangeKind::Modify(ModifyKind::Data(DataChange::Content)))
    );
    assert_eq!(
        change_kind(NotifyEventKind::Modify(NotifyModifyKind::Name(RenameMode::Both))),
        Some(FsChangeKind::Modify(ModifyKind::Name(RenameMode::Both)))
    );
    assert_eq!(change_kind(NotifyEventKind::Modify(NotifyModifyKind::Any)), Some(FsChangeKind::Modify(ModifyKind::Any)));
    assert_eq!(change_kind(NotifyEventKind::Modify(NotifyModifyKind::Metadata)), None);
    assert_eq!(change_kind(NotifyEventKind::Access), None);
    assert_eq!(change_kind(NotifyEventKind::Any), None);
    assert_eq!(change_kind(NotifyEventKind::Other), None);
}

#[test]
fn changes_marked_with_git_answers() {
    let events = changes_for_answers::<()>(
        NotifyEventKind::Create(CreateKind::File),
        vec!["foo".into(), "bar".into()],
        vec![Ok(true), Ok(false)],
    );
    assert_eq!(events.len(), 2);
    match (&events[0], &events[1]) {
        (FsWatchWatchingEvent::Change(foo), FsWatchWatchingEvent::Change(bar)) => {
            assert_eq!(foo.path, std::path::PathBuf::from("foo"));
            assert!(foo.is_ignored);
            assert_eq!(bar.path, std::path::PathBuf::from("bar"));
            assert!(!bar.is_ignored);
            assert_eq!(bar.kind, FsChangeKind::Create(CreateKind::File));
        }
        _ => panic!("expected two changes"),
    }
}

#[test]
fn git_error_ends_the_changes() {
    let events = changes_for_answers::<()>(
        NotifyEventKind::Remove(RemoveKind::File),
        vec!["foo".into(), "bar".into(), "baz".into()],
        vec![Ok(false), Err(git2::Error::from_str("boom"))],
    );
    assert_eq!(events.len(), 2);
    assert!(matches!(&events[0], FsWatchWatchingEvent::Change(c) if !c.is_ignored));
    assert!(matches!(&events[1], FsWatchWatchingEvent::Error(WatchError::Git(e)) if e.message() == "boom"));
}

#[test]
fn nothing_follows_a_git_error() {
    let events = changes_for_answers::<()>(
        NotifyEventKind::Create(CreateKind::File),
        vec!["foo".into(), "bar".into()],
        vec![Err(git2::Error::from_str("boom")), Ok(true)],
    );
    assert_eq!(events.len(), 1);
    assert!(matches!(&events[0], FsWatchWatchingEvent::Error(WatchError::Git(_))));
}

#[test]
fn access_notifications_are_not_changes() {
    let events = changes_for_answers::<()>(NotifyEventKind::Access, vec!["foo".into()], vec![]);
    assert!(events.is_empty());
}

#[test]
fn change_text_shows_path_ignore_and_kind() {
    let ignored = FsChange {
        path: "/src/foo".into(),
        kind: FsChangeKind::Create(CreateKind::File),
        is_ignored: true,
    };
    assert_eq!(ignored.to_string(), "\"/src/foo\" (git ignored) create File");
    let changed = FsChange {
        path: "/src/bar".into(),
        kind: FsChangeKind::Modify(ModifyKind::Data(DataChange::Content)),
        is_ignored: false,
    };
    assert_eq!(changed.to_string(), "\"/src/bar\" modify Data(Content)");
    assert_eq!(FsChangeKind::Modify(ModifyKind::Name(RenameMode::Both)).to_string(), "modify Name(Both)");
    assert_eq!(FsChangeKind::Modify(ModifyKind::Any).to_string(), "modify Any");
    assert_eq!(FsChangeKind::Remove(RemoveKind::Folder).to_string(), "remove Folder");
}
