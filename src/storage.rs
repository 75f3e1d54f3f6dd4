use crate::error::{AppError, AppErrorView};
use crate::filesystem::FilesystemType;
use crate::lifecycle::{CreateOp, CreatePhase, PublishOp, PublishPhase, StageOp, StagePhase, UnstageOp, UnstagePhase};
use crate::ops::{
    done_ok, fail, succeed, unexpected, unexpected_error, Action, ActionView, Event, EventView,
    MountOp, MountPhase, UnmountOp, UnmountPhase, WaitPhase,
};
use crate::params::{
    copy_pairs, get_param, lookup, pairs_view, set_entry, with_entry, ISCSIOptions,
    NFSOptions, Params, ZFSOptions,
};
use crate::text::{cat2, cat3, same_text};
use vstd::prelude::*;

verus! {

/// What is kept of a volume's storage class, enough to carry on its
/// lifecycle without the original request.
#[derive(Debug, Clone)]
pub enum StorageInfo {
    ISCSI { options: ISCSIOptions, zfs: ZFSOptions },
    NFS { options: NFSOptions, zfs: ZFSOptions },
}

/// The storage class `p` describes, as a predicate on the result.
pub open spec fn parsed_from(info: StorageInfo, p: Seq<(Seq<char>, Seq<char>)>) -> bool {
    match info {
        StorageInfo::ISCSI { options, zfs } => {
            &&& lookup(p, "type"@) == Some("zfs-iscsi"@)
            &&& options.from_params_spec(p)
            &&& zfs.from_params_spec(p)
        },
        StorageInfo::NFS { options, zfs } => {
            &&& lookup(p, "type"@) == Some("zfs-nfs"@)
            &&& options.from_params_spec(p)
            &&& zfs.from_params_spec(p)
        },
    }
}

impl StorageInfo {
    /// Why the parameters describe no storage class, if they do not.
    pub open spec fn params_error(p: Seq<(Seq<char>, Seq<char>)>) -> Option<AppErrorView> {
        let parent_missing = lookup(p, "zfs.parentDataset"@) is None;
        match lookup(p, "type"@) {
            None => Some(AppErrorView::Generic("Storage type was not specified!"@)),
            Some(t) => if t == "zfs-iscsi"@ {
                if lookup(p, "baseIqn"@) is None {
                    Some(AppErrorView::Generic("Base IQN is required!"@))
                } else if lookup(p, "targetPortal"@) is None {
                    Some(AppErrorView::Generic("Target Portal is required!"@))
                } else if parent_missing {
                    Some(AppErrorView::Generic("ZFS Parent Dataset is required!"@))
                } else {
                    None
                }
            } else if t == "zfs-nfs"@ {
                if lookup(p, "host"@) is None {
                    Some(AppErrorView::Generic("NFS Host is required!"@))
                } else if parent_missing {
                    Some(AppErrorView::Generic("ZFS Parent Dataset is required!"@))
                } else {
                    None
                }
            } else {
                Some(AppErrorView::Generic("'"@ + t + "' is an unknown storage type!"@))
            },
        }
    }

    /// The storage class that the parameters `params` describe.
    pub fn from_params(params: &Params) -> (r: Result<StorageInfo, AppError>)
        ensures
            match r {
                Ok(info) => StorageInfo::params_error(pairs_view(params@)) is None && parsed_from(
                    info,
                    pairs_view(params@),
                ),
                Err(e) => StorageInfo::params_error(pairs_view(params@)) == Some(e@),
            },
    {
        proof {
            reveal_strlit("zfs-iscsi");
            reveal_strlit("zfs-nfs");
            assert("zfs-iscsi"@[4] != "zfs-nfs"@[4]);
        }
        match get_param(params, "type") {
            None => Err(AppError::generic("Storage type was not specified!")),
            Some(t) => {
                if same_text(t.as_str(), "zfs-iscsi") {
                    let options = match ISCSIOptions::new(params) {
                        Ok(o) => o,
                        Err(e) => {
                            return Err(e);
                        },
                    };
                    let zfs = match ZFSOptions::new(params) {
                        Ok(z) => z,
                        Err(e) => {
                            return Err(e);
                        },
                    };
                    Ok(StorageInfo::ISCSI { options, zfs })
                } else if same_text(t.as_str(), "zfs-nfs") {
                    let options = match NFSOptions::new(params) {
                        Ok(o) => o,
                        Err(e) => {
                            return Err(e);
                        },
                    };
                    let zfs = match ZFSOptions::new(params) {
                        Ok(z) => z,
                        Err(e) => {
                            return Err(e);
                        },
                    };
                    Ok(StorageInfo::NFS { options, zfs })
                } else {
                    Err(AppError::Generic(cat3("'", t.as_str(), "' is an unknown storage type!")))
                }
            },
        }
    }

    pub open spec fn zfs(self) -> ZFSOptions {
        match self {
            StorageInfo::ISCSI { zfs, .. } => zfs,
            StorageInfo::NFS { zfs, .. } => zfs,
        }
    }

    /// The attributes set on a new dataset: the storage class's, and for NFS its export.
    pub open spec fn dataset_attributes(self) -> Seq<(Seq<char>, Seq<char>)> {
        match self {
            StorageInfo::ISCSI { zfs, .. } => pairs_view(zfs.attributes@),
            StorageInfo::NFS { options, zfs } => with_entry(
                pairs_view(zfs.attributes@),
                "sharenfs"@,
                options.export@,
            ),
        }
    }

    /// Creating the volume `name`: a zvol of `size` bytes for iSCSI, a filesystem for NFS.
    pub fn create(&self, name: &str, size: i64) -> (r: Operation)
        ensures
            r matches Operation::Create(op) && op.phase == CreatePhase::Ready
                && op.dataset@ == self.zfs().parent_dataset@ + name@ && pairs_view(op.attrs@)
                == self.dataset_attributes() && op.size == match self {
                StorageInfo::ISCSI { .. } => Some(size),
                StorageInfo::NFS { .. } => None::<i64>,
            },
    {
        match self {
            StorageInfo::ISCSI { zfs, .. } => {
                let dataset = cat2(zfs.parent_dataset.as_str(), name);
                Operation::Create(CreateOp::new(dataset, Some(size), copy_pairs(&zfs.attributes)))
            },
            StorageInfo::NFS { options, zfs } => {
                let dataset = cat2(zfs.parent_dataset.as_str(), name);
                let attrs = set_entry(&zfs.attributes, "sharenfs", options.export.as_str());
                Operation::Create(CreateOp::new(dataset, None, attrs))
            },
        }
    }

    /// Deleting a volume: nothing is done, deletes are left to the operator.
    pub fn delete(&self, volume_id: &str) -> (r: Operation)
        ensures
            r == Operation::Nothing(false),
    {
        Operation::Nothing(false)
    }

    /// Publishing a volume to the cluster: an iSCSI target for iSCSI, nothing for NFS.
    pub fn publish(&self, volume_id: &str) -> (r: Operation)
        ensures
            match self {
                StorageInfo::ISCSI { options, .. } => r matches Operation::Publish(op) && op.wf()
                    && op.phase == PublishPhase::Ready && op.volume_id@ == volume_id@
                    && op.base_iqn@ == options.base_iqn@ && pairs_view(op.attrs@) == pairs_view(
                    options.attributes@,
                ),
                StorageInfo::NFS { .. } => r == Operation::Nothing(false),
            },
    {
        match self {
            StorageInfo::ISCSI { options, .. } => Operation::Publish(
                PublishOp::new(
                    volume_id.to_owned(),
                    options.base_iqn.clone(),
                    copy_pairs(&options.attributes),
                ),
            ),
            StorageInfo::NFS { .. } => Operation::Nothing(false),
        }
    }

    /// Unpublishing a volume: nothing is done, targets are kept.
    pub fn unpublish(&self, volume_id: &str) -> (r: Operation)
        ensures
            r == Operation::Nothing(false),
    {
        Operation::Nothing(false)
    }

    /// Staging a volume at `staging_path`: attach and mount for iSCSI, nothing for NFS.
    pub fn stage(&self, volume_id: &str, staging_path: &str) -> (r: Operation)
        ensures
            match self {
                StorageInfo::ISCSI { options, .. } => r matches Operation::Stage(op) && op.wf()
                    && op.phase == StagePhase::Ready && op.wait.phase == WaitPhase::Ready
                    && op.wait.tries == 0 && op.mount.phase == MountPhase::Ready
                    && op.volume_id@ == volume_id@ && op.base_iqn@ == options.base_iqn@
                    && op.portal@ == options.target_portal@ && op.fs_type == options.fs_type
                    && op.staging() == staging_path@,
                StorageInfo::NFS { .. } => r == Operation::Nothing(false),
            },
    {
        match self {
            StorageInfo::ISCSI { options, .. } => Operation::Stage(
                StageOp::new(
                    volume_id.to_owned(),
                    options.base_iqn.clone(),
                    options.target_portal.clone(),
                    options.fs_type,
                    staging_path.to_owned(),
                ),
            ),
            StorageInfo::NFS { .. } => Operation::Nothing(false),
        }
    }

    /// Unstaging a volume from `staging_path`: unmount and log out for iSCSI, nothing for NFS.
    pub fn unstage(&self, volume_id: &str, staging_path: &str) -> (r: Operation)
        ensures
            match self {
                StorageInfo::ISCSI { options, .. } => r matches Operation::Unstage(op)
                    && op.phase == UnstagePhase::Ready && op.iqn@ == crate::iscsi::target_iqn(
                    options.base_iqn@,
                    volume_id@,
                ) && op.portal@ == options.target_portal@ && op.staging@ == staging_path@,
                StorageInfo::NFS { .. } => r == Operation::Nothing(false),
            },
    {
        match self {
            StorageInfo::ISCSI { options, .. } => Operation::Unstage(
                UnstageOp::new(
                    volume_id,
                    options.base_iqn.as_str(),
                    options.target_portal.clone(),
                    staging_path.to_owned(),
                ),
            ),
            StorageInfo::NFS { .. } => Operation::Nothing(false),
        }
    }

    /// Mounting a volume at `target_path`: a bind mount of the staging path
    /// for iSCSI, the export `<host>:/<volume_id>` for NFS.
    pub fn mount(&self, volume_id: &str, staging_path: &str, target_path: &str) -> (r: Operation)
        ensures
            r matches Operation::Mount(op) && op.phase == MountPhase::Ready && op.path@
                == target_path@ && match self {
                StorageInfo::ISCSI { .. } => op.fs == FilesystemType::Bind && op.device@
                    == staging_path@,
                StorageInfo::NFS { options, .. } => op.fs == FilesystemType::NFS && op.device@
                    == options.host@ + ":/"@ + volume_id@,
            },
    {
        match self {
            StorageInfo::ISCSI { .. } => Operation::Mount(
                MountOp::new(FilesystemType::Bind, staging_path.to_owned(), target_path.to_owned()),
            ),
            StorageInfo::NFS { options, .. } => Operation::Mount(
                MountOp::new(
                    FilesystemType::NFS,
                    cat3(options.host.as_str(), ":/", volume_id),
                    target_path.to_owned(),
                ),
            ),
        }
    }

    /// Unmounting a volume from `target_path`.
    pub fn unmount(&self, volume_id: &str, target_path: &str) -> (r: Operation)
        ensures
            r matches Operation::Unmount(op) && op.phase == UnmountPhase::Ready && op.path@
                == target_path@,
    {
        Operation::Unmount(UnmountOp::new(target_path.to_owned()))
    }
}

/// One lifecycle operation in progress.
#[derive(Debug)]
pub enum Operation {
    Create(CreateOp),
    Publish(PublishOp),
    Stage(StageOp),
    Unstage(UnstageOp),
    Mount(MountOp),
    Unmount(UnmountOp),
    /// An operation with nothing to do; true once it has answered.
    Nothing(bool),
}

impl Operation {
    pub open spec fn next(self, ev: EventView) -> (Operation, ActionView) {
        match self {
            Operation::Create(op) => {
                let (p, a) = op.next(ev);
                (Operation::Create(CreateOp { phase: p, ..op }), a)
            },
            Operation::Publish(op) => {
                let (p, a) = op.next(ev);
                (Operation::Publish(PublishOp { phase: p, ..op }), a)
            },
            Operation::Stage(op) => {
                let (o, a) = op.next(ev);
                (Operation::Stage(o), a)
            },
            Operation::Unstage(op) => {
                let (p, a) = op.next(ev);
                (Operation::Unstage(UnstageOp { phase: p, ..op }), a)
            },
            Operation::Mount(op) => {
                let (p, a) = op.next(ev);
                (Operation::Mount(MountOp { phase: p, ..op }), a)
            },
            Operation::Unmount(op) => {
                let (p, a) = op.next(ev);
                (Operation::Unmount(UnmountOp { phase: p, ..op }), a)
            },
            Operation::Nothing(answered) => if !answered && ev == EventView::Start {
                (Operation::Nothing(true), succeed())
            } else {
                (Operation::Nothing(true), fail(unexpected()))
            },
        }
    }

    /// Hands the operation the shell's report `ev` and returns what to do next.
    pub fn step(&mut self, ev: Event) -> (a: Action)
        ensures
            (*final(self), a@) == old(self).next(ev@),
    {
        match self {
            Operation::Create(op) => op.step(ev),
            Operation::Publish(op) => op.step(ev),
            Operation::Stage(op) => op.step(ev),
            Operation::Unstage(op) => op.step(ev),
            Operation::Mount(op) => op.step(ev),
            Operation::Unmount(op) => op.step(ev),
            Operation::Nothing(answered) => {
                let first = !*answered && match ev {
                    Event::Start => true,
                    _ => false,
                };
                *answered = true;
                if first {
                    done_ok()
                } else {
                    Action::Done(Err(unexpected_error()))
                }
            },
        }
    }
}

} // verus!
