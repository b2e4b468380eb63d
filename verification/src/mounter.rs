//! Mounting a file system for the migration, and keeping track of it.
//!
//! The mount point is created where it is missing, with its parents, before
//! the mount is tried. A mount that succeeded is written down in the
//! [`MigrateInfo`], so that it can be undone later; nothing is written down
//! before that.

use vstd::prelude::*;
use vstd::string::StringExecFns;
use crate::effect::{texts, Reply, ReplyView, Request, RequestView, Step, StepView};
use crate::error::{ProbeError, ProbeErrorView};

verus! {

broadcast use vstd::seq::group_seq_axioms;

/// What the migration has mounted so far.
#[derive(Debug, Clone)]
pub struct MigrateInfo {
    mounts: Vec<String>,
}

impl View for MigrateInfo {
    type V = Seq<Seq<char>>;

    /// The mount points, oldest first.
    closed spec fn view(&self) -> Seq<Seq<char>> {
        texts(self.mounts@)
    }
}

impl MigrateInfo {
    /// A record with no mounts.
    pub fn new() -> (info: MigrateInfo)
        ensures
            info@ == Seq::<Seq<char>>::empty(),
    {
        MigrateInfo { mounts: Vec::new() }
    }

    /// Writes down that `mount_dir` is mounted.
    pub fn add_mount(&mut self, mount_dir: &str)
        ensures
            final(self)@ == old(self)@.push(mount_dir@),
    {
        self.mounts.push(String::from_str(mount_dir));
    }

    /// The mount points written down so far, oldest first.
    pub fn get_mounts(&self) -> (mounts: &Vec<String>)
        ensures
            texts(mounts@) == self@,
    {
        &self.mounts
    }
}

/// How far the mounting has come.
#[derive(Debug, Clone, Copy, PartialEq, Eq, Structural)]
pub enum MountState {
    /// Asked whether the mount point is there.
    CheckingDir,
    /// Asked for the mount point to be created.
    CreatingDir,
    /// Asked for the mount.
    Mounting,
    /// Over: the result has been handed out.
    Finished,
}

impl MountState {
    /// How many requests the mounting can still make.
    pub open spec fn requests_left(self) -> nat {
        match self {
            MountState::CheckingDir => 3,
            MountState::CreatingDir => 2,
            MountState::Mounting => 1,
            MountState::Finished => 0,
        }
    }
}

/// The mount of `fs` on `mount_dir` as `fs_type`.
pub open spec fn mount_query(
    mount_dir: Seq<char>,
    fs: Seq<char>,
    fs_type: Seq<char>,
) -> RequestView {
    RequestView::Mount { source: fs, target: mount_dir, fs_type }
}

/// The first step of the mounting.
pub open spec fn mount_first(mount_dir: Seq<char>) -> (MountState, StepView<()>) {
    (MountState::CheckingDir, StepView::Ask(RequestView::DirExists { path: mount_dir }))
}

/// The step that follows `reply` in `state`.
pub open spec fn mount_next(
    mount_dir: Seq<char>,
    fs: Seq<char>,
    fs_type: Seq<char>,
    state: MountState,
    reply: ReplyView,
) -> (MountState, StepView<()>) {
    match (state, reply) {
        (MountState::CheckingDir, ReplyView::Exists(Err(why))) => (
            MountState::Finished,
            StepView::Done(Err(ProbeErrorView::IoError { path: mount_dir, message: why })),
        ),
        (MountState::CheckingDir, ReplyView::Exists(Ok(found))) => if found {
            (MountState::Mounting, StepView::Ask(mount_query(mount_dir, fs, fs_type)))
        } else {
            (MountState::CreatingDir, StepView::Ask(RequestView::CreateDirAll { path: mount_dir }))
        },
        (MountState::CreatingDir, ReplyView::Created(Err(why))) => (
            MountState::Finished,
            StepView::Done(Err(ProbeErrorView::IoError { path: mount_dir, message: why })),
        ),
        (MountState::CreatingDir, ReplyView::Created(Ok(_))) => (
            MountState::Mounting,
            StepView::Ask(mount_query(mount_dir, fs, fs_type)),
        ),
        (MountState::Mounting, ReplyView::Mounted(Err(e))) => (
            MountState::Finished,
            StepView::Done(
                Err(
                    ProbeErrorView::MountError {
                        source: fs,
                        target: mount_dir,
                        fs_type,
                        errno: e.0,
                        message: e.1,
                    },
                ),
            ),
        ),
        (MountState::Mounting, ReplyView::Mounted(Ok(_))) => (
            MountState::Finished,
            StepView::Done(Ok(())),
        ),
        _ => (MountState::Finished, StepView::Done(Err(ProbeErrorView::UnexpectedReply))),
    }
}

/// What is written down after `reply` in `state`: the mount point more
/// where the mount has just succeeded, else what was there before.
pub open spec fn mounts_after(
    mounts: Seq<Seq<char>>,
    mount_dir: Seq<char>,
    state: MountState,
    reply: ReplyView,
) -> Seq<Seq<char>> {
    if state == MountState::Mounting && reply matches ReplyView::Mounted(Ok(_)) {
        mounts.push(mount_dir)
    } else {
        mounts
    }
}

/// The request for the mount of `fs` on `mount_dir` as `fs_type`.
fn mount_request(mount_dir: &str, fs: &str, fs_type: &str) -> (request: Request)
    ensures
        request@ == mount_query(mount_dir@, fs@, fs_type@),
{
    Request::Mount {
        source: String::from_str(fs),
        target: String::from_str(mount_dir),
        fs_type: String::from_str(fs_type),
    }
}

/// Starts the mounting on `mount_dir`.
pub fn mount_fs_start(mount_dir: &str) -> (res: (MountState, Step<()>))
    ensures
        (res.0, res.1@) == mount_first(mount_dir@),
{
    (MountState::CheckingDir, Step::Ask(Request::DirExists { path: String::from_str(mount_dir) }))
}

/// Goes on with the mounting of `fs` on `mount_dir` as `fs_type` in `state`,
/// now that `reply` has come. A mount that succeeded is written down in
/// `mig_info`.
pub fn mount_fs(
    mount_dir: &str,
    fs: &str,
    fs_type: &str,
    mig_info: &mut MigrateInfo,
    state: MountState,
    reply: Reply,
) -> (res: (MountState, Step<()>))
    ensures
        (res.0, res.1@) == mount_next(mount_dir@, fs@, fs_type@, state, reply@),
        final(mig_info)@ == mounts_after(old(mig_info)@, mount_dir@, state, reply@),
{
    match (state, reply) {
        (MountState::CheckingDir, Reply::Exists(Err(why))) => (
            MountState::Finished,
            Step::Done(
                Err(ProbeError::IoError { path: String::from_str(mount_dir), message: why }),
            ),
        ),
        (MountState::CheckingDir, Reply::Exists(Ok(found))) => {
            if found {
                (MountState::Mounting, Step::Ask(mount_request(mount_dir, fs, fs_type)))
            } else {
                (
                    MountState::CreatingDir,
                    Step::Ask(Request::CreateDirAll { path: String::from_str(mount_dir) }),
                )
            }
        },
        (MountState::CreatingDir, Reply::Created(Err(why))) => (
            MountState::Finished,
            Step::Done(
                Err(ProbeError::IoError { path: String::from_str(mount_dir), message: why }),
            ),
        ),
        (MountState::CreatingDir, Reply::Created(Ok(_))) => (
            MountState::Mounting,
            Step::Ask(mount_request(mount_dir, fs, fs_type)),
        ),
        (MountState::Mounting, Reply::Mounted(Err(e))) => (
            MountState::Finished,
            Step::Done(
                Err(
                    ProbeError::MountError {
                        source: String::from_str(fs),
                        target: String::from_str(mount_dir),
                        fs_type: String::from_str(fs_type),
                        errno: e.0,
                        message: e.1,
                    },
                ),
            ),
        ),
        (MountState::Mounting, Reply::Mounted(Ok(_))) => {
            mig_info.add_mount(mount_dir);
            (MountState::Finished, Step::Done(Ok(())))
        },
        _ => (MountState::Finished, Step::Done(Err(ProbeError::UnexpectedReply))),
    }
}

/// The mount point comes before the mount: a mount is asked for only on the
/// reply that the directory is there or that it has been created, and a
/// directory that is missing is created, with its parents, before anything
/// else happens.
pub proof fn lemma_mount_waits_for_directory(
    mount_dir: Seq<char>,
    fs: Seq<char>,
    fs_type: Seq<char>,
    state: MountState,
    reply: ReplyView,
)
    ensures
        mount_first(mount_dir).1 == StepView::<()>::Ask(RequestView::DirExists { path: mount_dir }),
        mount_next(mount_dir, fs, fs_type, state, reply).1 is Ask ==> {
            ||| state == MountState::CheckingDir && reply matches ReplyView::Exists(Ok(_))
            ||| state == MountState::CreatingDir && reply matches ReplyView::Created(Ok(_))
        },
        mount_next(mount_dir, fs, fs_type, state, reply).1 == StepView::<()>::Ask(
            mount_query(mount_dir, fs, fs_type),
        ) <==> {
            ||| state == MountState::CheckingDir && reply == ReplyView::Exists(Ok(true))
            ||| state == MountState::CreatingDir && reply matches ReplyView::Created(Ok(_))
        },
        state == MountState::CheckingDir && reply == ReplyView::Exists(Ok(false)) ==> mount_next(
            mount_dir,
            fs,
            fs_type,
            state,
            reply,
        ) == (
            MountState::CreatingDir,
            StepView::<()>::Ask(RequestView::CreateDirAll { path: mount_dir }),
        ),
{
}

/// The mounting comes to an end, and tries the mount once: every request
/// uses up one of the three that a mounting has at its start, and the reply
/// to the mount is followed by the result, whatever it says.
pub proof fn lemma_mounting_ends(
    mount_dir: Seq<char>,
    fs: Seq<char>,
    fs_type: Seq<char>,
    state: MountState,
    reply: ReplyView,
)
    ensures
        mount_first(mount_dir).0.requests_left() == 3,
        mount_next(mount_dir, fs, fs_type, state, reply).1 is Ask ==> mount_next(
            mount_dir,
            fs,
            fs_type,
            state,
            reply,
        ).0.requests_left() < state.requests_left(),
        mount_next(mount_dir, fs, fs_type, state, reply).1 is Done ==> mount_next(
            mount_dir,
            fs,
            fs_type,
            state,
            reply,
        ).0 == MountState::Finished,
        state == MountState::Mounting ==> mount_next(
            mount_dir,
            fs,
            fs_type,
            state,
            reply,
        ).1 is Done,
{
}

/// The mount is written down after it has succeeded and never before: the
/// record grows, by the mount point, exactly in the step that ends the
/// mounting with success, and stays as it is in every other step.
pub proof fn lemma_mount_recorded_only_after_success(
    mounts: Seq<Seq<char>>,
    mount_dir: Seq<char>,
    fs: Seq<char>,
    fs_type: Seq<char>,
    state: MountState,
    reply: ReplyView,
)
    ensures
        mount_next(mount_dir, fs, fs_type, state, reply).1 matches StepView::Done(Ok(_)) <==> state
            == MountState::Mounting && reply matches ReplyView::Mounted(Ok(_)),
        mount_next(mount_dir, fs, fs_type, state, reply).1 matches StepView::Done(Ok(_))
            ==> mounts_after(mounts, mount_dir, state, reply) == mounts.push(mount_dir),
        !(mount_next(mount_dir, fs, fs_type, state, reply).1 matches StepView::Done(Ok(_)))
            ==> mounts_after(mounts, mount_dir, state, reply) == mounts,
{
}

} // verus!
