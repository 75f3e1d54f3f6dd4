use crate::error::{AppError, AppErrorView};
use crate::filesystem::FilesystemType;
use crate::iscsi::{disk_timeout, disk_timeout_error, test_block_cmd, test_block_command};
use crate::mount::{
    mkdir, mkdir_command, mount_cmd, mount_command, mount_result, mount_succeeded, umount_cmd,
    umount_command, umount_result, umount_succeeded, BlockDevice,
};
use vstd::prelude::*;

verus! {

/// What the driver asks of the shell next.
#[derive(Debug)]
pub enum Action {
    /// Run a command to completion; answer with [`Event::Finished`].
    Exec(String),
    /// Start an interactive command and read up to its first prompt; answer with [`Event::Prompt`].
    Open(String),
    /// Send a line to the interactive command and read up to its next prompt; answer with [`Event::Prompt`].
    Send(String),
    /// Send `exit` to the interactive command and wait for it to end; answer with [`Event::Finished`].
    Close,
    /// Wait this many milliseconds; answer with [`Event::Slept`].
    Sleep(u64),
    /// Decode the JSON document that `lsblk -J` printed; answer with [`Event::Devices`].
    DecodeBlockDevices(String),
    /// The operation is over, with this result.
    Done(Result<String, AppError>),
}

/// What the shell reports back.
#[derive(Debug)]
pub enum Event {
    /// The operation begins.
    Start,
    /// A command ended, with its output and exit code.
    Finished { output: String, code: u32 },
    /// The interactive command printed its prompt, after this output.
    Prompt { output: String },
    /// The wait is over.
    Slept,
    /// The block devices decoded from `lsblk`, or why they could not be.
    Devices(Result<Vec<BlockDevice>, String>),
}

pub enum ActionView {
    Exec(Seq<char>),
    Open(Seq<char>),
    Send(Seq<char>),
    Close,
    Sleep(u64),
    DecodeBlockDevices(Seq<char>),
    Done(Result<Seq<char>, AppErrorView>),
}

pub enum EventView {
    Start,
    Finished { output: Seq<char>, code: u32 },
    Prompt { output: Seq<char> },
    Slept,
    /// The filesystem of each device.
    Devices(Result<Seq<Option<Seq<char>>>, Seq<char>>),
}

/// The filesystem found on a device, if any.
pub open spec fn fs_found(d: BlockDevice) -> Option<Seq<char>> {
    match d.fstype {
        Some(s) => Some(s@),
        None => None,
    }
}

impl View for Action {
    type V = ActionView;

    open spec fn view(&self) -> ActionView {
        match self {
            Action::Exec(c) => ActionView::Exec(c@),
            Action::Open(c) => ActionView::Open(c@),
            Action::Send(c) => ActionView::Send(c@),
            Action::Close => ActionView::Close,
            Action::Sleep(ms) => ActionView::Sleep(*ms),
            Action::DecodeBlockDevices(o) => ActionView::DecodeBlockDevices(o@),
            Action::Done(r) => ActionView::Done(
                match r {
                    Ok(v) => Ok(v@),
                    Err(e) => Err(e@),
                },
            ),
        }
    }
}

impl View for Event {
    type V = EventView;

    open spec fn view(&self) -> EventView {
        match self {
            Event::Start => EventView::Start,
            Event::Finished { output, code } => EventView::Finished { output: output@, code: *code },
            Event::Prompt { output } => EventView::Prompt { output: output@ },
            Event::Slept => EventView::Slept,
            Event::Devices(r) => EventView::Devices(
                match r {
                    Ok(v) => Ok(v@.map_values(|d: BlockDevice| fs_found(d))),
                    Err(m) => Err(m@),
                },
            ),
        }
    }
}

/// The error for an event that the operation does not expect in its state.
pub open spec fn unexpected() -> AppErrorView {
    AppErrorView::Generic("unexpected event"@)
}

pub fn unexpected_error() -> (r: AppError)
    ensures
        r@ == unexpected(),
{
    AppError::generic("unexpected event")
}

/// The end of an operation that failed with `e`.
pub open spec fn fail(e: AppErrorView) -> ActionView {
    ActionView::Done(Err(e))
}

/// The end of an operation that succeeded and returns nothing.
pub open spec fn succeed() -> ActionView {
    ActionView::Done(Ok(Seq::empty()))
}

pub fn done_ok() -> (r: Action)
    ensures
        r@ == succeed(),
{
    Action::Done(Ok(String::new()))
}

/// A command that must exit with 0 failed.
pub open spec fn command_failed(output: Seq<char>, code: u32) -> ActionView {
    fail(AppErrorView::CommandFailed { code, output })
}

#[derive(Clone, Copy, Debug, PartialEq, Eq, Structural)]
pub enum MountPhase {
    Ready,
    Mkdir,
    Mount,
    Over,
}

/// Mounting `device` with `fs` at `path`: create the path, then mount.
#[derive(Debug)]
pub struct MountOp {
    pub fs: FilesystemType,
    pub device: String,
    pub path: String,
    pub phase: MountPhase,
}

impl MountOp {
    pub fn new(fs: FilesystemType, device: String, path: String) -> (r: MountOp)
        ensures
            r == (MountOp { fs, device, path, phase: MountPhase::Ready }),
    {
        MountOp { fs, device, path, phase: MountPhase::Ready }
    }

    pub open spec fn next(self, ev: EventView) -> (MountPhase, ActionView) {
        match (self.phase, ev) {
            (MountPhase::Ready, EventView::Start) => (
                MountPhase::Mkdir,
                ActionView::Exec(mkdir_command(self.path@)),
            ),
            (MountPhase::Mkdir, EventView::Finished { output, code }) => if code != 0 {
                (MountPhase::Over, command_failed(output, code))
            } else {
                (
                    MountPhase::Mount,
                    ActionView::Exec(mount_command(self.fs, self.device@, self.path@)),
                )
            },
            (MountPhase::Mount, EventView::Finished { output, code }) => (
                MountPhase::Over,
                if mount_succeeded(output, code) {
                    succeed()
                } else {
                    command_failed(output, code)
                },
            ),
            _ => (MountPhase::Over, fail(unexpected())),
        }
    }

    pub fn step(&mut self, ev: Event) -> (a: Action)
        ensures
            final(self).phase == old(self).next(ev@).0,
            a@ == old(self).next(ev@).1,
            final(self).fs == old(self).fs,
            final(self).device == old(self).device,
            final(self).path == old(self).path,
    {
        match (self.phase, ev) {
            (MountPhase::Ready, Event::Start) => {
                self.phase = MountPhase::Mkdir;
                Action::Exec(mkdir(self.path.as_str()))
            },
            (MountPhase::Mkdir, Event::Finished { output, code }) => {
                if code != 0 {
                    self.phase = MountPhase::Over;
                    Action::Done(Err(AppError::CommandFailed { code, output }))
                } else {
                    self.phase = MountPhase::Mount;
                    Action::Exec(mount_cmd(&self.fs, self.device.as_str(), self.path.as_str()))
                }
            },
            (MountPhase::Mount, Event::Finished { output, code }) => {
                self.phase = MountPhase::Over;
                match mount_result(output, code) {
                    Ok(()) => done_ok(),
                    Err(e) => Action::Done(Err(e)),
                }
            },
            _ => {
                self.phase = MountPhase::Over;
                Action::Done(Err(unexpected_error()))
            },
        }
    }
}

#[derive(Clone, Copy, Debug, PartialEq, Eq, Structural)]
pub enum UnmountPhase {
    Ready,
    Umount,
    Over,
}

/// Unmounting `path`.
#[derive(Debug)]
pub struct UnmountOp {
    pub path: String,
    pub phase: UnmountPhase,
}

impl UnmountOp {
    pub fn new(path: String) -> (r: UnmountOp)
        ensures
            r == (UnmountOp { path, phase: UnmountPhase::Ready }),
    {
        UnmountOp { path, phase: UnmountPhase::Ready }
    }

    pub open spec fn next(self, ev: EventView) -> (UnmountPhase, ActionView) {
        match (self.phase, ev) {
            (UnmountPhase::Ready, EventView::Start) => (
                UnmountPhase::Umount,
                ActionView::Exec(umount_command(self.path@)),
            ),
            (UnmountPhase::Umount, EventView::Finished { output, code }) => (
                UnmountPhase::Over,
                if umount_succeeded(output, code) {
                    succeed()
                } else {
                    command_failed(output, code)
                },
            ),
            _ => (UnmountPhase::Over, fail(unexpected())),
        }
    }

    pub fn step(&mut self, ev: Event) -> (a: Action)
        ensures
            final(self).phase == old(self).next(ev@).0,
            a@ == old(self).next(ev@).1,
            final(self).path == old(self).path,
    {
        match (self.phase, ev) {
            (UnmountPhase::Ready, Event::Start) => {
                self.phase = UnmountPhase::Umount;
                Action::Exec(umount_cmd(self.path.as_str()))
            },
            (UnmountPhase::Umount, Event::Finished { output, code }) => {
                self.phase = UnmountPhase::Over;
                match umount_result(output, code) {
                    Ok(()) => done_ok(),
                    Err(e) => Action::Done(Err(e)),
                }
            },
            _ => {
                self.phase = UnmountPhase::Over;
                Action::Done(Err(unexpected_error()))
            },
        }
    }
}

/// The most polls of the device before giving up.
pub const DISK_POLLS: u32 = 30;

/// The pause before each poll, in milliseconds.
pub const DISK_POLL_INTERVAL_MS: u64 = 100;

#[derive(Clone, Copy, Debug, PartialEq, Eq, Structural)]
pub enum WaitPhase {
    Ready,
    Sleeping,
    Polling,
    Over,
}

/// Waiting for the block device at `path` to appear: up to thirty polls
/// with `test -b`, each after a pause.
#[derive(Debug)]
pub struct WaitForDisk {
    pub path: String,
    /// The polls made so far.
    pub tries: u32,
    pub phase: WaitPhase,
}

impl WaitForDisk {
    pub open spec fn wf(self) -> bool {
        self.tries <= DISK_POLLS
    }

    pub fn new(path: String) -> (r: WaitForDisk)
        ensures
            r == (WaitForDisk { path, tries: 0, phase: WaitPhase::Ready }),
            r.wf(),
    {
        WaitForDisk { path, tries: 0, phase: WaitPhase::Ready }
    }

    pub open spec fn next(self, ev: EventView) -> (WaitPhase, u32, ActionView) {
        match (self.phase, ev) {
            (WaitPhase::Ready, EventView::Start) => (
                WaitPhase::Sleeping,
                self.tries,
                ActionView::Sleep(DISK_POLL_INTERVAL_MS),
            ),
            (WaitPhase::Sleeping, EventView::Slept) => if self.tries < DISK_POLLS {
                (WaitPhase::Polling, self.tries, ActionView::Exec(test_block_command(self.path@)))
            } else {
                (WaitPhase::Over, self.tries, fail(disk_timeout(self.path@)))
            },
            (WaitPhase::Polling, EventView::Finished { output, code }) => if self.tries
                >= DISK_POLLS {
                (WaitPhase::Over, self.tries, fail(disk_timeout(self.path@)))
            } else {
                let tries = (self.tries + 1) as u32;
                if code == 1 && tries < DISK_POLLS {
                    (WaitPhase::Sleeping, tries, ActionView::Sleep(DISK_POLL_INTERVAL_MS))
                } else if code != 0 {
                    (WaitPhase::Over, tries, fail(disk_timeout(self.path@)))
                } else {
                    (WaitPhase::Over, tries, ActionView::Done(Ok(self.path@)))
                }
            },
            _ => (WaitPhase::Over, self.tries, fail(unexpected())),
        }
    }

    pub fn step(&mut self, ev: Event) -> (a: Action)
        ensures
            final(self).phase == old(self).next(ev@).0,
            final(self).tries == old(self).next(ev@).1,
            a@ == old(self).next(ev@).2,
            final(self).path == old(self).path,
    {
        match (self.phase, ev) {
            (WaitPhase::Ready, Event::Start) => {
                self.phase = WaitPhase::Sleeping;
                Action::Sleep(DISK_POLL_INTERVAL_MS)
            },
            (WaitPhase::Sleeping, Event::Slept) => {
                if self.tries < DISK_POLLS {
                    self.phase = WaitPhase::Polling;
                    Action::Exec(test_block_cmd(self.path.as_str()))
                } else {
                    self.phase = WaitPhase::Over;
                    Action::Done(Err(disk_timeout_error(self.path.as_str())))
                }
            },
            (WaitPhase::Polling, Event::Finished { output, code }) => {
                if self.tries >= DISK_POLLS {
                    self.phase = WaitPhase::Over;
                    return Action::Done(Err(disk_timeout_error(self.path.as_str())));
                }
                self.tries = self.tries + 1;
                if code == 1 && self.tries < DISK_POLLS {
                    self.phase = WaitPhase::Sleeping;
                    Action::Sleep(DISK_POLL_INTERVAL_MS)
                } else if code != 0 {
                    self.phase = WaitPhase::Over;
                    Action::Done(Err(disk_timeout_error(self.path.as_str())))
                } else {
                    self.phase = WaitPhase::Over;
                    Action::Done(Ok(self.path.clone()))
                }
            },
            _ => {
                self.phase = WaitPhase::Over;
                Action::Done(Err(unexpected_error()))
            },
        }
    }
}

} // verus!
