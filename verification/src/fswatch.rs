//! What a file system notification means for the build: which notifications
//! count as a change of the sources, how each changed path is reported with
//! git's answer on whether it is ignored, and the text under which a change
//! is shown.

use std::path::PathBuf;
use vstd::prelude::*;
use vstd::string::*;

verus! {

/// `git2::Error`, held as an opaque value.
#[verifier::external_type_specification]
#[verifier::external_body]
pub struct ExGitError(git2::Error);

/// What was created.
#[derive(Debug, Clone, Copy, PartialEq, Eq)]
pub enum CreateKind {
    Any,
    File,
    Folder,
    Other,
}

/// What was removed.
#[derive(Debug, Clone, Copy, PartialEq, Eq)]
pub enum RemoveKind {
    Any,
    File,
    Folder,
    Other,
}

/// Which part of a file's data changed.
#[derive(Debug, Clone, Copy, PartialEq, Eq)]
pub enum DataChange {
    Any,
    Size,
    Content,
    Other,
}

/// Which side of a rename a notification reports.
#[derive(Debug, Clone, Copy, PartialEq, Eq)]
pub enum RenameMode {
    Any,
    To,
    From,
    Both,
    Other,
}

/// The kind of a modification as the file watcher reports it.
#[derive(Debug, Clone, Copy, PartialEq, Eq)]
pub enum NotifyModifyKind {
    Any,
    Data(DataChange),
    Metadata,
    Name(RenameMode),
    Other,
}

/// The kind of a notification as the file watcher reports it.
#[derive(Debug, Clone, Copy, PartialEq, Eq)]
pub enum NotifyEventKind {
    Any,
    Access,
    Create(CreateKind),
    Modify(NotifyModifyKind),
    Remove(RemoveKind),
    Other,
}

/// A modification that counts as a change of the sources.
#[derive(Debug, Clone, Copy, PartialEq, Eq)]
pub enum ModifyKind {
    Any,
    Data(DataChange),
    Name(RenameMode),
    Other,
}

/// The kinds of notification that count as a change of the sources.
#[derive(Debug, Clone, Copy, PartialEq, Eq)]
pub enum FsChangeKind {
    Create(CreateKind),
    Modify(ModifyKind),
    Remove(RemoveKind),
}

/// One changed path.
#[derive(Debug)]
pub struct FsChange {
    pub path: PathBuf,
    pub kind: FsChangeKind,
    pub is_ignored: bool,
}

/// Why a notification could not be turned into changes.
#[derive(Debug)]
pub enum WatchError<E> {
    /// The file watcher reported an error in place of a notification.
    Notify(E),
    /// Asking git whether a path is ignored failed.
    Git(git2::Error),
}

/// What the watcher reports while it watches.
#[derive(Debug)]
pub enum FsWatchWatchingEvent<E> {
    Error(WatchError<E>),
    Change(FsChange),
}

/// The change kind that a notification kind stands for: creations, removals
/// and modifications other than of metadata count; nothing else does.
pub open spec fn change_kind_of(kind: NotifyEventKind) -> Option<FsChangeKind> {
    match kind {
        NotifyEventKind::Create(k) => Some(FsChangeKind::Create(k)),
        NotifyEventKind::Modify(NotifyModifyKind::Any) => Some(FsChangeKind::Modify(ModifyKind::Any)),
        NotifyEventKind::Modify(NotifyModifyKind::Other) => Some(FsChangeKind::Modify(ModifyKind::Other)),
        NotifyEventKind::Modify(NotifyModifyKind::Data(d)) => Some(FsChangeKind::Modify(ModifyKind::Data(d))),
        NotifyEventKind::Modify(NotifyModifyKind::Name(r)) => Some(FsChangeKind::Modify(ModifyKind::Name(r))),
        NotifyEventKind::Remove(k) => Some(FsChangeKind::Remove(k)),
        _ => None,
    }
}

/// Classifies a notification kind; `None` means the notification is not a
/// change of the sources.
pub fn change_kind(kind: NotifyEventKind) -> (r: Option<FsChangeKind>)
    ensures
        r == change_kind_of(kind),
{
    match kind {
        NotifyEventKind::Create(k) => Some(FsChangeKind::Create(k)),
        NotifyEventKind::Modify(NotifyModifyKind::Any) => Some(FsChangeKind::Modify(ModifyKind::Any)),
        NotifyEventKind::Modify(NotifyModifyKind::Other) => Some(FsChangeKind::Modify(ModifyKind::Other)),
        NotifyEventKind::Modify(NotifyModifyKind::Data(d)) => Some(FsChangeKind::Modify(ModifyKind::Data(d))),
        NotifyEventKind::Modify(NotifyModifyKind::Name(r)) => Some(FsChangeKind::Modify(ModifyKind::Name(r))),
        NotifyEventKind::Remove(k) => Some(FsChangeKind::Remove(k)),
        _ => None,
    }
}

/// Only notifications of an unknown kind, accesses and changes of metadata
/// are no changes of the sources. Every creation, removal, rename and write of
/// data is one, under the same kind that the watcher reported.
pub proof fn which_notifications_are_changes(
    kind: NotifyEventKind,
    created: CreateKind,
    removed: RemoveKind,
    data: DataChange,
    renamed: RenameMode,
)
    ensures
        change_kind_of(kind) is None <==> (kind == NotifyEventKind::Any || kind == NotifyEventKind::Access
            || kind == NotifyEventKind::Other || kind == NotifyEventKind::Modify(
            NotifyModifyKind::Metadata,
        )),
        change_kind_of(NotifyEventKind::Create(created)) == Some(FsChangeKind::Create(created)),
        change_kind_of(NotifyEventKind::Remove(removed)) == Some(FsChangeKind::Remove(removed)),
        change_kind_of(NotifyEventKind::Modify(NotifyModifyKind::Data(data))) == Some(
            FsChangeKind::Modify(ModifyKind::Data(data)),
        ),
        change_kind_of(NotifyEventKind::Modify(NotifyModifyKind::Name(renamed))) == Some(
            FsChangeKind::Modify(ModifyKind::Name(renamed)),
        ),
        change_kind_of(NotifyEventKind::Modify(NotifyModifyKind::Any)) == Some(
            FsChangeKind::Modify(ModifyKind::Any),
        ),
        change_kind_of(NotifyEventKind::Modify(NotifyModifyKind::Other)) == Some(
            FsChangeKind::Modify(ModifyKind::Other),
        ),
{
}

/// The change reported for one path, given git's answer on whether the path
/// is ignored.
pub fn change_for_path(path: PathBuf, kind: FsChangeKind, ignored: Result<bool, git2::Error>) -> (r: Result<
    FsChange,
    git2::Error,
>)
    ensures
        match ignored {
            Ok(b) => r matches Ok(c) && c.path == path && c.kind == kind && c.is_ignored == b,
            Err(e) => r == Err::<FsChange, git2::Error>(e),
        },
{
    match ignored {
        Ok(is_ignored) => Ok(FsChange { path, kind, is_ignored }),
        Err(error) => Err(error),
    }
}

/// The event reported for `path`, changed as `kind`, given git's answer on
/// whether the path is ignored.
pub open spec fn answer_event<E>(
    path: PathBuf,
    kind: FsChangeKind,
    answer: Result<bool, git2::Error>,
) -> FsWatchWatchingEvent<E> {
    match answer {
        Ok(b) => FsWatchWatchingEvent::Change(FsChange { path, kind, is_ignored: b }),
        Err(e) => FsWatchWatchingEvent::Error(WatchError::Git(e)),
    }
}

/// `events` are the events for git's `answers` on `paths`, changed as
/// `kind`: one per answer, in order, up to and including the first failed
/// answer, and nothing after it.
pub open spec fn answers_reported<E>(
    events: Seq<FsWatchWatchingEvent<E>>,
    paths: Seq<PathBuf>,
    kind: FsChangeKind,
    answers: Seq<Result<bool, git2::Error>>,
) -> bool {
    &&& events.len() <= answers.len()
    &&& forall|i: int|
        0 <= i < events.len() ==> #[trigger] events[i] == answer_event::<E>(paths[i], kind, answers[i])
    &&& forall|i: int| 0 <= i < events.len() - 1 ==> #[trigger] answers[i] is Ok
    &&& events.len() < answers.len() ==> events.len() > 0 && answers[events.len() - 1] is Err
}

/// Turns a notification of kind `kind` about `paths` into the events to pass
/// on, given git's answers on whether each path is ignored (`answers[i]` for
/// `paths[i]`): nothing for a notification that is not a change of the
/// sources; otherwise, in order, the change of each path marked with git's
/// answer, up to the first failed answer, whose error is the last event.
pub fn changes_for_answers<E>(
    kind: NotifyEventKind,
    paths: Vec<PathBuf>,
    answers: Vec<Result<bool, git2::Error>>,
) -> (events: Vec<FsWatchWatchingEvent<E>>)
    requires
        answers@.len() <= paths@.len(),
    ensures
        match change_kind_of(kind) {
            None => events@.len() == 0,
            Some(k) => answers_reported(events@, paths@, k, answers@),
        },
{
    let mut events: Vec<FsWatchWatchingEvent<E>> = Vec::new();
    let change = match change_kind(kind) {
        Some(change) => change,
        None => return events,
    };
    let ghost all_paths = paths@;
    let ghost all_answers = answers@;
    let mut rest_paths = paths;
    let mut rest_answers = answers;
    while rest_answers.len() > 0
        invariant
            change_kind_of(kind) == Some(change),
            paths@ == all_paths,
            answers@ == all_answers,
            all_answers.len() <= all_paths.len(),
            events@.len() + rest_answers@.len() == all_answers.len(),
            rest_answers@ == all_answers.subrange(events@.len() as int, all_answers.len() as int),
            rest_paths@ == all_paths.subrange(events@.len() as int, all_paths.len() as int),
            forall|i: int|
                0 <= i < events@.len() ==> #[trigger] events@[i] == answer_event::<E>(
                    all_paths[i],
                    change,
                    all_answers[i],
                ),
            forall|i: int| 0 <= i < events@.len() ==> #[trigger] all_answers[i] is Ok,
        decreases rest_answers@.len(),
    {
        let ghost before = events@;
        let path = rest_paths.remove(0);
        let answer = rest_answers.remove(0);
        let failed = answer.is_err();
        let event = match change_for_path(path, change, answer) {
            Ok(found) => FsWatchWatchingEvent::Change(found),
            Err(error) => FsWatchWatchingEvent::Error(WatchError::Git(error)),
        };
        events.push(event);
        proof {
            assert(events@[before.len() as int] == answer_event::<E>(
                all_paths[before.len() as int],
                change,
                all_answers[before.len() as int],
            ));
            assert forall|i: int| 0 <= i < events@.len() implies #[trigger] events@[i]
                == answer_event::<E>(all_paths[i], change, all_answers[i]) by {
                if i < before.len() {
                    assert(events@[i] == before[i]);
                }
            }
            assert(rest_answers@ =~= all_answers.subrange(events@.len() as int, all_answers.len() as int));
            assert(rest_paths@ =~= all_paths.subrange(events@.len() as int, all_paths.len() as int));
        }
        if failed {
            proof {
                assert(answers_reported(events@, all_paths, change, all_answers));
            }
            return events;
        }
    }
    events
}

/// The text under which `path` is shown: its `Debug` form, a quoted string.
pub uninterp spec fn path_debug_text(path: PathBuf) -> Seq<char>;

/// `<PathBuf as Debug>::fmt` through `format!`: the `Debug` text of `path`,
/// which depends on the path alone and is named by [`path_debug_text`].
#[verifier::external_body]
fn path_text(path: &PathBuf) -> (r: String)
    ensures
        r@ == path_debug_text(*path),
{
    format!("{:?}", path)
}

/// The name of the variant, as `Debug` shows it.
pub open spec fn create_kind_text(kind: CreateKind) -> Seq<char> {
    match kind {
        CreateKind::Any => "Any"@,
        CreateKind::File => "File"@,
        CreateKind::Folder => "Folder"@,
        CreateKind::Other => "Other"@,
    }
}

/// The name of the variant, as `Debug` shows it.
pub open spec fn remove_kind_text(kind: RemoveKind) -> Seq<char> {
    match kind {
        RemoveKind::Any => "Any"@,
        RemoveKind::File => "File"@,
        RemoveKind::Folder => "Folder"@,
        RemoveKind::Other => "Other"@,
    }
}

/// The name of the variant, as `Debug` shows it.
pub open spec fn data_change_text(change: DataChange) -> Seq<char> {
    match change {
        DataChange::Any => "Any"@,
        DataChange::Size => "Size"@,
        DataChange::Content => "Content"@,
        DataChange::Other => "Other"@,
    }
}

/// The name of the variant, as `Debug` shows it.
pub open spec fn rename_mode_text(mode: RenameMode) -> Seq<char> {
    match mode {
        RenameMode::Any => "Any"@,
        RenameMode::To => "To"@,
        RenameMode::From => "From"@,
        RenameMode::Both => "Both"@,
        RenameMode::Other => "Other"@,
    }
}

/// The text of a change kind, such as `create File` or `modify Data(Content)`:
/// the verb, then the inner kind as `Debug` shows it.
pub open spec fn change_kind_text(kind: FsChangeKind) -> Seq<char> {
    match kind {
        FsChangeKind::Create(k) => "create "@ + create_kind_text(k),
        FsChangeKind::Modify(ModifyKind::Any) => "modify Any"@,
        FsChangeKind::Modify(ModifyKind::Data(d)) => "modify Data("@ + data_change_text(d) + ")"@,
        FsChangeKind::Modify(ModifyKind::Name(r)) => "modify Name("@ + rename_mode_text(r) + ")"@,
        FsChangeKind::Modify(ModifyKind::Other) => "modify Other"@,
        FsChangeKind::Remove(k) => "remove "@ + remove_kind_text(k),
    }
}

/// The text of a change: the path, ` (git ignored)` where git ignores it,
/// then a space and the kind.
pub open spec fn change_text(change: FsChange) -> Seq<char> {
    path_debug_text(change.path) + (if change.is_ignored {
        " (git ignored)"@
    } else {
        Seq::empty()
    }) + " "@ + change_kind_text(change.kind)
}

fn create_kind_str(kind: CreateKind) -> (r: &'static str)
    ensures
        r@ == create_kind_text(kind),
{
    match kind {
        CreateKind::Any => "Any",
        CreateKind::File => "File",
        CreateKind::Folder => "Folder",
        CreateKind::Other => "Other",
    }
}

fn remove_kind_str(kind: RemoveKind) -> (r: &'static str)
    ensures
        r@ == remove_kind_text(kind),
{
    match kind {
        RemoveKind::Any => "Any",
        RemoveKind::File => "File",
        RemoveKind::Folder => "Folder",
        RemoveKind::Other => "Other",
    }
}

fn data_change_str(change: DataChange) -> (r: &'static str)
    ensures
        r@ == data_change_text(change),
{
    match change {
        DataChange::Any => "Any",
        DataChange::Size => "Size",
        DataChange::Content => "Content",
        DataChange::Other => "Other",
    }
}

fn rename_mode_str(mode: RenameMode) -> (r: &'static str)
    ensures
        r@ == rename_mode_text(mode),
{
    match mode {
        RenameMode::Any => "Any",
        RenameMode::To => "To",
        RenameMode::From => "From",
        RenameMode::Both => "Both",
        RenameMode::Other => "Other",
    }
}

impl FsChangeKind {
    /// The text of this change kind.
    pub fn to_string(&self) -> (r: String)
        ensures
            r@ == change_kind_text(*self),
    {
        match *self {
            FsChangeKind::Create(k) => String::from_str("create ").concat(create_kind_str(k)),
            FsChangeKind::Modify(ModifyKind::Any) => String::from_str("modify Any"),
            FsChangeKind::Modify(ModifyKind::Data(d)) => String::from_str("modify Data(").concat(
                data_change_str(d),
            ).concat(")"),
            FsChangeKind::Modify(ModifyKind::Name(r)) => String::from_str("modify Name(").concat(
                rename_mode_str(r),
            ).concat(")"),
            FsChangeKind::Modify(ModifyKind::Other) => String::from_str("modify Other"),
            FsChangeKind::Remove(k) => String::from_str("remove ").concat(remove_kind_str(k)),
        }
    }
}

impl FsChange {
    /// The text under which this change is reported.
    pub fn to_string(&self) -> (r: String)
        ensures
            r@ == change_text(*self),
    {
        let mut text = path_text(&self.path);
        let ghost path_part = text@;
        if self.is_ignored {
            text.append(" (git ignored)");
        }
        let ghost ignored_part = if self.is_ignored {
            " (git ignored)"@
        } else {
            Seq::<char>::empty()
        };
        proof {
            assert(text@ =~= path_part + ignored_part);
        }
        text.append(" ");
        let kind = self.kind.to_string();
        text.append(kind.as_str());
        text
    }
}

} // verus!
