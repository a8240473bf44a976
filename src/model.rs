//! A model of the file system that a load talks to, and what a whole load
//! yields on it.
use vstd::prelude::*;
use crate::failure::FailureKind;
use crate::loader::{Action, Event, Loader, Policy, Stage};

verus! {

/// A file: its text, and whether the caller may open it.
pub struct FileModel {
    pub content: Seq<char>,
    pub readable: bool,
}

/// The files by path.
pub type Disk = Map<Seq<char>, FileModel>;

/// The file that a creation leaves behind.
pub open spec fn empty_file() -> FileModel {
    FileModel { content: Seq::empty(), readable: true }
}

/// Whether a file system holding `disk` may answer `action` on `path` with
/// `event`: opening fails as not found on an absent file and as not permitted
/// on an unreadable one, creating leaves an empty file, and reading yields the
/// file's text.
pub open spec fn may_answer(disk: Disk, path: Seq<char>, action: Action, event: Event) -> bool {
    match action {
        Action::Open => match event {
            Event::Opened(Ok(())) => disk.contains_key(path) && disk[path].readable,
            Event::Opened(Err(f)) => {
                if !disk.contains_key(path) {
                    f.kind == FailureKind::NotFound
                } else {
                    !disk[path].readable && f.kind == FailureKind::PermissionDenied
                }
            },
            _ => false,
        },
        Action::Create => event == Event::Created(Ok(())),
        Action::Read => {
            &&& event matches Event::Read(Ok(s))
            &&& disk.contains_key(path)
            &&& s@ == disk[path].content
        },
        _ => false,
    }
}

/// The disk after `action` on `path`.
pub open spec fn disk_after(disk: Disk, path: Seq<char>, action: Action) -> Disk {
    if action is Create {
        disk.insert(path, empty_file())
    } else {
        disk
    }
}

/// `loader`, which asks for `action`, comes to ask for `end`, with the disk at
/// `end_disk`, when the file system holding `disk` answers with `events` in
/// turn.
pub open spec fn runs(
    loader: Loader,
    action: Action,
    disk: Disk,
    path: Seq<char>,
    events: Seq<Event>,
    end: Action,
    end_disk: Disk,
) -> bool
    decreases events.len(),
{
    if events.len() == 0 {
        end == action && end_disk == disk
    } else {
        &&& loader.awaits(events[0])
        &&& may_answer(disk, path, action, events[0])
        &&& runs(
            loader.after(events[0]),
            loader.next_action(events[0]),
            disk_after(disk, path, action),
            path,
            events.drop_first(),
            end,
            end_disk,
        )
    }
}

/// A whole load of `path` under `policy`, from the start to the end of the
/// session, with the answers `events`: it ends in `end` and leaves `end_disk`.
pub open spec fn load(
    policy: Policy,
    disk: Disk,
    path: Seq<char>,
    events: Seq<Event>,
    end: Action,
    end_disk: Disk,
) -> bool {
    &&& runs(Loader { policy, stage: Stage::Opening }, Action::Open, disk, path, events, end, end_disk)
    &&& end.is_final()
}

/// A readable file loads as its text under either policy, and the disk is
/// left as it was.
pub proof fn lemma_existing_file_loads(
    policy: Policy,
    disk: Disk,
    path: Seq<char>,
    events: Seq<Event>,
    end: Action,
    end_disk: Disk,
)
    requires
        disk.contains_key(path),
        disk[path].readable,
        load(policy, disk, path, events, end, end_disk),
    ensures
        end matches Action::Finish(Ok(s)) && s@ == disk[path].content,
        end_disk == disk,
{
    reveal_with_fuel(runs, 4);
}

/// A missing file, under the policy that creates it, is created empty and
/// loads as the empty text; a second load of the same path then loads the
/// empty text again and changes nothing.
pub proof fn lemma_missing_file_created(
    disk: Disk,
    path: Seq<char>,
    events: Seq<Event>,
    end: Action,
    end_disk: Disk,
    again: Seq<Event>,
    again_end: Action,
    again_disk: Disk,
)
    requires
        !disk.contains_key(path),
        load(Policy::CreateIfMissing, disk, path, events, end, end_disk),
        load(Policy::CreateIfMissing, end_disk, path, again, again_end, again_disk),
    ensures
        end matches Action::Finish(Ok(s)) && s@.len() == 0,
        end_disk == disk.insert(path, empty_file()),
        again_end matches Action::Finish(Ok(s)) && s@.len() == 0,
        again_disk == end_disk,
{
    reveal_with_fuel(runs, 4);
    lemma_existing_file_loads(Policy::CreateIfMissing, end_disk, path, again, again_end, again_disk);
}

/// A missing file, under the strict policy, fails as not found and is not
/// created.
pub proof fn lemma_strict_missing_not_found(
    disk: Disk,
    path: Seq<char>,
    events: Seq<Event>,
    end: Action,
    end_disk: Disk,
)
    requires
        !disk.contains_key(path),
        load(Policy::Strict, disk, path, events, end, end_disk),
    ensures
        end matches Action::Finish(Err(f)) && f.kind == FailureKind::NotFound,
        end_disk == disk,
{
    reveal_with_fuel(runs, 4);
}

/// A file that the caller may not open fails as not permitted: the strict
/// policy hands the failure back, the other terminates with it. The disk is
/// left as it was.
pub proof fn lemma_unreadable_file_denied(
    policy: Policy,
    disk: Disk,
    path: Seq<char>,
    events: Seq<Event>,
    end: Action,
    end_disk: Disk,
)
    requires
        disk.contains_key(path),
        !disk[path].readable,
        load(policy, disk, path, events, end, end_disk),
    ensures
        policy == Policy::Strict ==> (end matches Action::Finish(Err(f)) && f.kind
            == FailureKind::PermissionDenied),
        policy == Policy::CreateIfMissing ==> (end matches Action::Terminate(f) && f.kind
            == FailureKind::PermissionDenied),
        end_disk == disk,
{
    reveal_with_fuel(runs, 4);
}

} // verus!
