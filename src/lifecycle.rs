use crate::error::{AppError, AppErrorView};
use crate::filesystem::FilesystemType;
use crate::mount::BlockDevice;
use crate::iscsi::{
    attribute_was_set, backstore_cmd, backstore_command, backstore_name, create_target_cmd,
    create_target_command, discovery_cmd, discovery_command, has_session, login_cmd,
    login_command, logout_cmd, logout_command, lun_cmd, lun_command, regex_finds,
    session_iqns, sessions_command, sessions_from, set_attribute_cmd, set_attribute_command,
    PARAMETER_SET_SUCCESS,
};
use crate::mount::{lsblk_cmd, lsblk_command, mkfs_cmd, mkfs_command, no_mkfs_error, umount_cmd,
    umount_command, umount_result, umount_succeeded};
use crate::ops::{
    command_failed, done_ok, fail, succeed, unexpected, unexpected_error, Action, ActionView, Event,
    EventView, MountOp, MountPhase, WaitForDisk, WaitPhase,
};
use crate::params::pairs_view;
use crate::text::texts;
use crate::zfs::{
    ancestor_command, ancestor_create_command, ancestor_paths, ancestors, create_command, create_dataset_command,
    create_failure, create_failure_error, get_command, get_dataset_command, set_attributes_command,
    set_command,
};
use vstd::prelude::*;

verus! {

#[derive(Clone, Copy, Debug, PartialEq, Eq, Structural)]
pub enum CreatePhase {
    Ready,
    Query,
    Ancestor(usize),
    Create,
    Assign,
    Over,
}

/// Creating a dataset unless it exists, then setting its attributes; the
/// result is the dataset's name, the volume id.
#[derive(Debug)]
pub struct CreateOp {
    pub dataset: String,
    /// The size of a volume; none for a filesystem.
    pub size: Option<i64>,
    pub attrs: Vec<(String, String)>,
    pub phase: CreatePhase,
}

impl CreateOp {
    pub fn new(dataset: String, size: Option<i64>, attrs: Vec<(String, String)>) -> (r: CreateOp)
        ensures
            r == (CreateOp { dataset, size, attrs, phase: CreatePhase::Ready }),
    {
        CreateOp { dataset, size, attrs, phase: CreatePhase::Ready }
    }

    /// The step that creates the dataset: its first ancestor, or itself.
    pub open spec fn begin_creation(self) -> (CreatePhase, ActionView) {
        let anc = ancestors(self.dataset@);
        if anc.len() > 0 {
            (CreatePhase::Ancestor(0), ActionView::Exec(ancestor_command(anc[0])))
        } else {
            (CreatePhase::Create, ActionView::Exec(create_command(self.dataset@, self.size)))
        }
    }

    /// The step after the dataset exists: set the attributes, if there are any.
    pub open spec fn set_or_finish(self) -> (CreatePhase, ActionView) {
        if self.attrs@.len() == 0 {
            (CreatePhase::Over, ActionView::Done(Ok(self.dataset@)))
        } else {
            (CreatePhase::Assign, ActionView::Exec(set_command(self.dataset@, pairs_view(self.attrs@))))
        }
    }

    pub open spec fn next(self, ev: EventView) -> (CreatePhase, ActionView) {
        let anc = ancestors(self.dataset@);
        match (self.phase, ev) {
            (CreatePhase::Ready, EventView::Start) => (
                CreatePhase::Query,
                ActionView::Exec(get_command(self.dataset@)),
            ),
            (CreatePhase::Query, EventView::Finished { output, code }) => if code == 1 {
                self.begin_creation()
            } else {
                self.set_or_finish()
            },
            (CreatePhase::Ancestor(k), EventView::Finished { .. }) => if k + 1 < anc.len() {
                (CreatePhase::Ancestor((k + 1) as usize), ActionView::Exec(ancestor_command(anc[k + 1])))
            } else {
                (CreatePhase::Create, ActionView::Exec(create_command(self.dataset@, self.size)))
            },
            (CreatePhase::Create, EventView::Finished { output, code }) => if code != 0 {
                (CreatePhase::Over, fail(create_failure(code, output)))
            } else {
                self.set_or_finish()
            },
            (CreatePhase::Assign, EventView::Finished { output, code }) => if code != 0 {
                (CreatePhase::Over, command_failed(output, code))
            } else {
                (CreatePhase::Over, ActionView::Done(Ok(self.dataset@)))
            },
            _ => (CreatePhase::Over, fail(unexpected())),
        }
    }

    fn set_or_finish_exec(&mut self) -> (a: Action)
        ensures
            (final(self).phase, a@) == old(self).set_or_finish(),
            final(self).dataset == old(self).dataset,
            final(self).size == old(self).size,
            final(self).attrs == old(self).attrs,
    {
        match set_attributes_command(self.dataset.as_str(), &self.attrs) {
            None => {
                self.phase = CreatePhase::Over;
                Action::Done(Ok(self.dataset.clone()))
            },
            Some(cmd) => {
                self.phase = CreatePhase::Assign;
                Action::Exec(cmd)
            },
        }
    }

    pub fn step(&mut self, ev: Event) -> (a: Action)
        ensures
            (final(self).phase, a@) == old(self).next(ev@),
            final(self).dataset == old(self).dataset,
            final(self).size == old(self).size,
            final(self).attrs == old(self).attrs,
    {
        match (self.phase, ev) {
            (CreatePhase::Ready, Event::Start) => {
                self.phase = CreatePhase::Query;
                Action::Exec(get_dataset_command(self.dataset.as_str()))
            },
            (CreatePhase::Query, Event::Finished { output, code }) => {
                if code == 1 {
                    let anc = ancestor_paths(self.dataset.as_str());
                    if anc.len() > 0 {
                        assert(texts(anc@)[0] == anc@[0]@);
                        self.phase = CreatePhase::Ancestor(0);
                        Action::Exec(ancestor_create_command(anc[0].as_str()))
                    } else {
                        self.phase = CreatePhase::Create;
                        Action::Exec(create_dataset_command(self.dataset.as_str(), self.size))
                    }
                } else {
                    self.set_or_finish_exec()
                }
            },
            (CreatePhase::Ancestor(k), Event::Finished { .. }) => {
                let anc = ancestor_paths(self.dataset.as_str());
                if anc.len() > 0 && k < anc.len() - 1 {
                    assert(texts(anc@)[k + 1] == anc@[k + 1]@);
                    self.phase = CreatePhase::Ancestor(k + 1);
                    Action::Exec(ancestor_create_command(anc[k + 1].as_str()))
                } else {
                    self.phase = CreatePhase::Create;
                    Action::Exec(create_dataset_command(self.dataset.as_str(), self.size))
                }
            },
            (CreatePhase::Create, Event::Finished { output, code }) => {
                if code != 0 {
                    self.phase = CreatePhase::Over;
                    Action::Done(Err(create_failure_error(code, output.as_str())))
                } else {
                    self.set_or_finish_exec()
                }
            },
            (CreatePhase::Assign, Event::Finished { output, code }) => {
                self.phase = CreatePhase::Over;
                if code != 0 {
                    Action::Done(Err(AppError::CommandFailed { code, output }))
                } else {
                    Action::Done(Ok(self.dataset.clone()))
                }
            },
            _ => {
                self.phase = CreatePhase::Over;
                Action::Done(Err(unexpected_error()))
            },
        }
    }
}

#[derive(Clone, Copy, Debug, PartialEq, Eq, Structural)]
pub enum PublishPhase {
    Ready,
    Opening,
    Backstore,
    Target,
    Lun,
    Attribute(usize),
    Closing,
    Over,
}

/// Exporting a zvol over iSCSI through a targetcli session: a backstore, a
/// target, its LUN, then each target portal group attribute.
#[derive(Debug)]
pub struct PublishOp {
    pub volume_id: String,
    pub base_iqn: String,
    pub iqn: String,
    pub backstore: String,
    pub attrs: Vec<(String, String)>,
    pub phase: PublishPhase,
}

/// The error when targetcli did not confirm an attribute.
pub open spec fn attribute_not_set() -> AppErrorView {
    AppErrorView::Generic("Failed to set parameter!"@)
}

impl PublishOp {
    pub open spec fn wf(self) -> bool {
        &&& self.iqn@ == crate::iscsi::target_iqn(self.base_iqn@, self.volume_id@)
        &&& self.backstore@ == backstore_name(self.volume_id@)
        &&& self.phase matches PublishPhase::Attribute(k) ==> k < self.attrs@.len()
    }

    pub fn new(volume_id: String, base_iqn: String, attrs: Vec<(String, String)>) -> (r: PublishOp)
        ensures
            r.wf(),
            r.volume_id == volume_id,
            r.base_iqn == base_iqn,
            r.attrs == attrs,
            r.phase == PublishPhase::Ready,
    {
        let iqn = crate::iscsi::get_target(base_iqn.as_str(), volume_id.as_str());
        let backstore = crate::iscsi::backstore_for(volume_id.as_str());
        PublishOp { volume_id, base_iqn, iqn, backstore, attrs, phase: PublishPhase::Ready }
    }

    /// The command that sets attribute `k`.
    pub open spec fn attribute_command(self, k: int) -> Seq<char> {
        set_attribute_command(self.iqn@, self.attrs@[k].0@, self.attrs@[k].1@)
    }

    /// The step after attribute `k - 1`: attribute `k`, or the end of the session.
    pub open spec fn attribute_or_close(self, k: int) -> (PublishPhase, ActionView) {
        if k < self.attrs@.len() {
            (PublishPhase::Attribute(k as usize), ActionView::Send(self.attribute_command(k)))
        } else {
            (PublishPhase::Closing, ActionView::Close)
        }
    }

    pub open spec fn next(self, ev: EventView) -> (PublishPhase, ActionView) {
        match (self.phase, ev) {
            (PublishPhase::Ready, EventView::Start) => (
                PublishPhase::Opening,
                ActionView::Open("targetcli"@),
            ),
            (PublishPhase::Opening, EventView::Prompt { .. }) => (
                PublishPhase::Backstore,
                ActionView::Send(backstore_command(self.volume_id@)),
            ),
            (PublishPhase::Backstore, EventView::Prompt { .. }) => (
                PublishPhase::Target,
                ActionView::Send(create_target_command(self.iqn@)),
            ),
            (PublishPhase::Target, EventView::Prompt { .. }) => (
                PublishPhase::Lun,
                ActionView::Send(lun_command(self.iqn@, self.backstore@)),
            ),
            (PublishPhase::Lun, EventView::Prompt { .. }) => self.attribute_or_close(0),
            (PublishPhase::Attribute(k), EventView::Prompt { output }) => if regex_finds(
                PARAMETER_SET_SUCCESS@,
                output,
            ) {
                self.attribute_or_close(k + 1)
            } else {
                (PublishPhase::Over, fail(attribute_not_set()))
            },
            (PublishPhase::Closing, EventView::Finished { .. }) => (PublishPhase::Over, succeed()),
            _ => (PublishPhase::Over, fail(unexpected())),
        }
    }

    fn attribute_or_close_exec(&mut self, k: usize) -> (a: Action)
        requires
            k <= old(self).attrs@.len(),
        ensures
            (final(self).phase, a@) == old(self).attribute_or_close(k as int),
            final(self).volume_id == old(self).volume_id,
            final(self).base_iqn == old(self).base_iqn,
            final(self).iqn == old(self).iqn,
            final(self).backstore == old(self).backstore,
            final(self).attrs == old(self).attrs,
    {
        if k < self.attrs.len() {
            self.phase = PublishPhase::Attribute(k);
            Action::Send(
                set_attribute_cmd(
                    self.iqn.as_str(),
                    self.attrs[k].0.as_str(),
                    self.attrs[k].1.as_str(),
                ),
            )
        } else {
            self.phase = PublishPhase::Closing;
            Action::Close
        }
    }

    pub fn step(&mut self, ev: Event) -> (a: Action)
        ensures
            (final(self).phase, a@) == old(self).next(ev@),
            final(self).volume_id == old(self).volume_id,
            final(self).base_iqn == old(self).base_iqn,
            final(self).iqn == old(self).iqn,
            final(self).backstore == old(self).backstore,
            final(self).attrs == old(self).attrs,
    {
        match (self.phase, ev) {
            (PublishPhase::Ready, Event::Start) => {
                self.phase = PublishPhase::Opening;
                Action::Open(String::from_str("targetcli"))
            },
            (PublishPhase::Opening, Event::Prompt { .. }) => {
                self.phase = PublishPhase::Backstore;
                Action::Send(backstore_cmd(self.volume_id.as_str()))
            },
            (PublishPhase::Backstore, Event::Prompt { .. }) => {
                self.phase = PublishPhase::Target;
                Action::Send(create_target_cmd(self.iqn.as_str()))
            },
            (PublishPhase::Target, Event::Prompt { .. }) => {
                self.phase = PublishPhase::Lun;
                Action::Send(lun_cmd(self.iqn.as_str(), self.backstore.as_str()))
            },
            (PublishPhase::Lun, Event::Prompt { .. }) => self.attribute_or_close_exec(0),
            (PublishPhase::Attribute(k), Event::Prompt { output }) => {
                if attribute_was_set(output.as_str()) {
                    if k < self.attrs.len() {
                        self.attribute_or_close_exec(k + 1)
                    } else {
                        self.phase = PublishPhase::Closing;
                        Action::Close
                    }
                } else {
                    self.phase = PublishPhase::Over;
                    Action::Done(Err(AppError::generic("Failed to set parameter!")))
                }
            },
            (PublishPhase::Closing, Event::Finished { .. }) => {
                self.phase = PublishPhase::Over;
                done_ok()
            },
            _ => {
                self.phase = PublishPhase::Over;
                Action::Done(Err(unexpected_error()))
            },
        }
    }
}

#[derive(Clone, Copy, Debug, PartialEq, Eq, Structural)]
pub enum StagePhase {
    Ready,
    Discovery,
    Sessions,
    Login,
    Waiting,
    Lsblk,
    Decode,
    Mkfs,
    Mounting,
    Over,
}

/// Staging an iSCSI volume on the node: discover the portal, log in unless
/// a session exists, wait for the disk, format it unless it holds a
/// filesystem, then mount it at the staging path.
#[derive(Debug)]
pub struct StageOp {
    pub volume_id: String,
    pub base_iqn: String,
    pub portal: String,
    pub iqn: String,
    pub fs_type: FilesystemType,
    pub wait: WaitForDisk,
    pub mount: MountOp,
    pub phase: StagePhase,
}

/// The error when `lsblk` described no device.
pub open spec fn no_block_device() -> AppErrorView {
    AppErrorView::Generic("Could not get block device detail!"@)
}

/// Whether a device's filesystem, as found, is none.
pub open spec fn unformatted(fs: Option<Seq<char>>) -> bool {
    match fs {
        Some(f) => f.len() == 0,
        None => true,
    }
}

impl StageOp {
    pub open spec fn disk(self) -> Seq<char> {
        self.wait.path@
    }

    pub open spec fn staging(self) -> Seq<char> {
        self.mount.path@
    }

    pub open spec fn wf(self) -> bool {
        &&& self.iqn@ == crate::iscsi::target_iqn(self.base_iqn@, self.volume_id@)
        &&& self.wait.path@ == crate::iscsi::disk_path(self.portal@, self.iqn@)
        &&& self.mount.device@ == self.wait.path@
        &&& self.mount.fs == self.fs_type
    }

    pub fn new(
        volume_id: String,
        base_iqn: String,
        portal: String,
        fs_type: FilesystemType,
        staging: String,
    ) -> (r: StageOp)
        ensures
            r.wf(),
            r.volume_id == volume_id,
            r.base_iqn == base_iqn,
            r.portal == portal,
            r.fs_type == fs_type,
            r.mount.path == staging,
            r.mount.phase == MountPhase::Ready,
            r.wait.phase == WaitPhase::Ready,
            r.wait.tries == 0,
            r.phase == StagePhase::Ready,
    {
        let iqn = crate::iscsi::get_target(base_iqn.as_str(), volume_id.as_str());
        let disk = crate::iscsi::disk_path_of(portal.as_str(), iqn.as_str());
        let device = disk.clone();
        StageOp {
            volume_id,
            base_iqn,
            portal,
            iqn,
            fs_type,
            wait: WaitForDisk::new(disk),
            mount: MountOp::new(fs_type, device, staging),
            phase: StagePhase::Ready,
        }
    }

    /// The same operation with the wait in a new state.
    pub open spec fn with_wait(self, phase: StagePhase, w: (WaitPhase, u32)) -> StageOp {
        StageOp { phase, wait: WaitForDisk { phase: w.0, tries: w.1, ..self.wait }, ..self }
    }

    /// The same operation with the mount in a new state.
    pub open spec fn with_mount(self, phase: StagePhase, m: MountPhase) -> StageOp {
        StageOp { phase, mount: MountOp { phase: m, ..self.mount }, ..self }
    }

    pub open spec fn at(self, phase: StagePhase) -> StageOp {
        StageOp { phase, ..self }
    }

    /// The first step of the wait for the disk.
    pub open spec fn begin_wait(self) -> (StageOp, ActionView) {
        let (p, t, a) = self.wait.next(EventView::Start);
        (self.with_wait(StagePhase::Waiting, (p, t)), a)
    }

    /// The first step of the mount.
    pub open spec fn begin_mount(self) -> (StageOp, ActionView) {
        let (p, a) = self.mount.next(EventView::Start);
        (self.with_mount(StagePhase::Mounting, p), a)
    }

    pub open spec fn next(self, ev: EventView) -> (StageOp, ActionView) {
        match (self.phase, ev) {
            (StagePhase::Ready, EventView::Start) => (
                self.at(StagePhase::Discovery),
                ActionView::Exec(discovery_command(self.portal@)),
            ),
            (StagePhase::Discovery, EventView::Finished { output, code }) => if code != 0 {
                (self.at(StagePhase::Over), command_failed(output, code))
            } else {
                (self.at(StagePhase::Sessions), ActionView::Exec(sessions_command()))
            },
            (StagePhase::Sessions, EventView::Finished { output, code }) => if session_iqns(
                output,
                code,
            ).contains(self.iqn@) {
                self.begin_wait()
            } else {
                (self.at(StagePhase::Login), ActionView::Exec(login_command(self.iqn@, self.portal@)))
            },
            (StagePhase::Login, EventView::Finished { output, code }) => if code != 0 {
                (self.at(StagePhase::Over), command_failed(output, code))
            } else {
                self.begin_wait()
            },
            (StagePhase::Waiting, _) => {
                let (p, t, a) = self.wait.next(ev);
                match a {
                    ActionView::Done(Err(e)) => (self.with_wait(StagePhase::Over, (p, t)), fail(e)),
                    ActionView::Done(Ok(_)) => (
                        self.with_wait(StagePhase::Lsblk, (p, t)),
                        ActionView::Exec(lsblk_command(self.disk())),
                    ),
                    _ => (self.with_wait(StagePhase::Waiting, (p, t)), a),
                }
            },
            (StagePhase::Lsblk, EventView::Finished { output, code }) => if code != 0 {
                (self.at(StagePhase::Over), command_failed(output, code))
            } else {
                (self.at(StagePhase::Decode), ActionView::DecodeBlockDevices(output))
            },
            (StagePhase::Decode, EventView::Devices(Err(m))) => (
                self.at(StagePhase::Over),
                fail(AppErrorView::Generic(m)),
            ),
            (StagePhase::Decode, EventView::Devices(Ok(found))) => if found.len() == 0 {
                (self.at(StagePhase::Over), fail(no_block_device()))
            } else if !unformatted(found.last()) {
                self.begin_mount()
            } else {
                match self.fs_type.mkfs_spec() {
                    Some(tool) => (
                        self.at(StagePhase::Mkfs),
                        ActionView::Exec(mkfs_command(tool, self.disk())),
                    ),
                    None => (self.at(StagePhase::Over), fail(no_mkfs_error(self.fs_type))),
                }
            },
            (StagePhase::Mkfs, EventView::Finished { output, code }) => if code != 0 {
                (self.at(StagePhase::Over), command_failed(output, code))
            } else {
                self.begin_mount()
            },
            (StagePhase::Mounting, _) => {
                let (p, a) = self.mount.next(ev);
                match a {
                    ActionView::Done(_) => (self.with_mount(StagePhase::Over, p), a),
                    _ => (self.with_mount(StagePhase::Mounting, p), a),
                }
            },
            _ => (self.at(StagePhase::Over), fail(unexpected())),
        }
    }

    fn begin_wait_exec(&mut self) -> (a: Action)
        ensures
            (*final(self), a@) == old(self).begin_wait(),
    {
        self.phase = StagePhase::Waiting;
        self.wait.step(Event::Start)
    }

    fn begin_mount_exec(&mut self) -> (a: Action)
        ensures
            (*final(self), a@) == old(self).begin_mount(),
    {
        self.phase = StagePhase::Mounting;
        self.mount.step(Event::Start)
    }

    pub fn step(&mut self, ev: Event) -> (a: Action)
        ensures
            (*final(self), a@) == old(self).next(ev@),
    {
        match (self.phase, ev) {
            (StagePhase::Ready, Event::Start) => {
                self.phase = StagePhase::Discovery;
                Action::Exec(discovery_cmd(self.portal.as_str()))
            },
            (StagePhase::Discovery, Event::Finished { output, code }) => {
                if code != 0 {
                    self.phase = StagePhase::Over;
                    Action::Done(Err(AppError::CommandFailed { code, output }))
                } else {
                    self.phase = StagePhase::Sessions;
                    Action::Exec(String::from_str("iscsiadm -m session"))
                }
            },
            (StagePhase::Sessions, Event::Finished { output, code }) => {
                let sessions = sessions_from(output.as_str(), code);
                if has_session(&sessions, self.iqn.as_str()) {
                    self.begin_wait_exec()
                } else {
                    self.phase = StagePhase::Login;
                    Action::Exec(login_cmd(self.iqn.as_str(), self.portal.as_str()))
                }
            },
            (StagePhase::Login, Event::Finished { output, code }) => {
                if code != 0 {
                    self.phase = StagePhase::Over;
                    Action::Done(Err(AppError::CommandFailed { code, output }))
                } else {
                    self.begin_wait_exec()
                }
            },
            (StagePhase::Waiting, ev) => {
                let a = self.wait.step(ev);
                match a {
                    Action::Done(Err(e)) => {
                        self.phase = StagePhase::Over;
                        Action::Done(Err(e))
                    },
                    Action::Done(Ok(_)) => {
                        self.phase = StagePhase::Lsblk;
                        Action::Exec(lsblk_cmd(self.wait.path.as_str()))
                    },
                    other => other,
                }
            },
            (StagePhase::Lsblk, Event::Finished { output, code }) => {
                if code != 0 {
                    self.phase = StagePhase::Over;
                    Action::Done(Err(AppError::CommandFailed { code, output }))
                } else {
                    self.phase = StagePhase::Decode;
                    Action::DecodeBlockDevices(output)
                }
            },
            (StagePhase::Decode, Event::Devices(Err(m))) => {
                self.phase = StagePhase::Over;
                Action::Done(Err(AppError::Generic(m)))
            },
            (StagePhase::Decode, Event::Devices(Ok(found))) => {
                if found.len() == 0 {
                    self.phase = StagePhase::Over;
                    Action::Done(Err(AppError::generic("Could not get block device detail!")))
                } else {
                    let last = &found[found.len() - 1];
                    let formatted = match &last.fstype {
                        Some(f) => f.as_str().unicode_len() > 0,
                        None => false,
                    };
                    proof {
                        assert(found@.map_values(|d: BlockDevice| crate::ops::fs_found(d)).last()
                            == crate::ops::fs_found(found@.last()));
                    }
                    if formatted {
                        self.begin_mount_exec()
                    } else {
                        match mkfs_cmd(self.wait.path.as_str(), &self.fs_type) {
                            Ok(cmd) => {
                                self.phase = StagePhase::Mkfs;
                                Action::Exec(cmd)
                            },
                            Err(e) => {
                                self.phase = StagePhase::Over;
                                Action::Done(Err(e))
                            },
                        }
                    }
                }
            },
            (StagePhase::Mkfs, Event::Finished { output, code }) => {
                if code != 0 {
                    self.phase = StagePhase::Over;
                    Action::Done(Err(AppError::CommandFailed { code, output }))
                } else {
                    self.begin_mount_exec()
                }
            },
            (StagePhase::Mounting, ev) => {
                let a = self.mount.step(ev);
                match a {
                    Action::Done(r) => {
                        self.phase = StagePhase::Over;
                        Action::Done(r)
                    },
                    other => other,
                }
            },
            _ => {
                self.phase = StagePhase::Over;
                Action::Done(Err(unexpected_error()))
            },
        }
    }
}

#[derive(Clone, Copy, Debug, PartialEq, Eq, Structural)]
pub enum UnstagePhase {
    Ready,
    Umount,
    Logout,
    Over,
}

/// Unstaging an iSCSI volume: unmount the staging path, then log out of
/// the target, whatever the logout answers.
#[derive(Debug)]
pub struct UnstageOp {
    pub staging: String,
    pub iqn: String,
    pub portal: String,
    pub phase: UnstagePhase,
}

impl UnstageOp {
    pub fn new(volume_id: &str, base_iqn: &str, portal: String, staging: String) -> (r: UnstageOp)
        ensures
            r.iqn@ == crate::iscsi::target_iqn(base_iqn@, volume_id@),
            r.portal == portal,
            r.staging == staging,
            r.phase == UnstagePhase::Ready,
    {
        let iqn = crate::iscsi::get_target(base_iqn, volume_id);
        UnstageOp { staging, iqn, portal, phase: UnstagePhase::Ready }
    }

    pub open spec fn next(self, ev: EventView) -> (UnstagePhase, ActionView) {
        match (self.phase, ev) {
            (UnstagePhase::Ready, EventView::Start) => (
                UnstagePhase::Umount,
                ActionView::Exec(umount_command(self.staging@)),
            ),
            (UnstagePhase::Umount, EventView::Finished { output, code }) => if umount_succeeded(
                output,
                code,
            ) {
                (UnstagePhase::Logout, ActionView::Exec(logout_command(self.iqn@, self.portal@)))
            } else {
                (UnstagePhase::Over, command_failed(output, code))
            },
            (UnstagePhase::Logout, EventView::Finished { .. }) => (UnstagePhase::Over, succeed()),
            _ => (UnstagePhase::Over, fail(unexpected())),
        }
    }

    pub fn step(&mut self, ev: Event) -> (a: Action)
        ensures
            (final(self).phase, a@) == old(self).next(ev@),
            final(self).staging == old(self).staging,
            final(self).iqn == old(self).iqn,
            final(self).portal == old(self).portal,
    {
        match (self.phase, ev) {
            (UnstagePhase::Ready, Event::Start) => {
                self.phase = UnstagePhase::Umount;
                Action::Exec(umount_cmd(self.staging.as_str()))
            },
            (UnstagePhase::Umount, Event::Finished { output, code }) => {
                match umount_result(output, code) {
                    Ok(()) => {
                        self.phase = UnstagePhase::Logout;
                        Action::Exec(logout_cmd(self.iqn.as_str(), self.portal.as_str()))
                    },
                    Err(e) => {
                        self.phase = UnstagePhase::Over;
                        Action::Done(Err(e))
                    },
                }
            },
            (UnstagePhase::Logout, Event::Finished { .. }) => {
                self.phase = UnstagePhase::Over;
                done_ok()
            },
            _ => {
                self.phase = UnstagePhase::Over;
                Action::Done(Err(unexpected_error()))
            },
        }
    }
}

} // verus!
