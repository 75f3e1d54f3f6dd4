use crate::error::AppError;
use crate::params::{get_param, lookup, pairs_view, Params};
use crate::storage::{parsed_from, Operation, StorageInfo};
use crate::lifecycle::CreatePhase;
use crate::text::{cat2, cat3};
use vstd::prelude::*;

verus! {

/// The parameter that names a claim's persistent volume claim.
pub const CSI_NAME: &'static str = "csi.storage.k8s.io/pvc/name";

/// The parameter that names a claim's namespace.
pub const CSI_NAMESPACE: &'static str = "csi.storage.k8s.io/pvc/namespace";

/// The size given to a volume whose request names no capacity: 1 GiB.
pub const DEFAULT_SIZE: i64 = 1073741824;

/// The short name of a new volume: `<namespace>/<claim>` when the request
/// names both, else the request's own name.
pub open spec fn short_name(p: Seq<(Seq<char>, Seq<char>)>, name: Seq<char>) -> Seq<char> {
    match (lookup(p, CSI_NAME@), lookup(p, CSI_NAMESPACE@)) {
        (Some(claim), Some(namespace)) => namespace + "/"@ + claim,
        _ => name,
    }
}

pub fn volume_name(params: &Params, name: &str) -> (r: String)
    ensures
        r@ == short_name(pairs_view(params@), name@),
{
    match (get_param(params, CSI_NAME), get_param(params, CSI_NAMESPACE)) {
        (Some(claim), Some(namespace)) => cat3(namespace.as_str(), "/", claim.as_str()),
        _ => name.to_owned(),
    }
}

/// The capacity a request asks for.
#[derive(Clone, Copy, Debug, PartialEq, Eq, Structural)]
pub struct CapacityRange {
    pub required_bytes: i64,
    pub limit_bytes: i64,
}

/// The size provisioned for a request: the larger of its limit and its
/// requirement, or 1 GiB when it gives no range.
pub open spec fn provisioned(capacity: Option<CapacityRange>) -> i64 {
    match capacity {
        Some(c) => if c.limit_bytes >= c.required_bytes {
            c.limit_bytes
        } else {
            c.required_bytes
        },
        None => DEFAULT_SIZE,
    }
}

pub fn provision_size(capacity: Option<CapacityRange>) -> (r: i64)
    ensures
        r == provisioned(capacity),
{
    match capacity {
        Some(c) => if c.limit_bytes >= c.required_bytes {
            c.limit_bytes
        } else {
            c.required_bytes
        },
        None => DEFAULT_SIZE,
    }
}

/// A planned volume creation: the storage class, the operation that
/// creates the volume, and the size it is given.
#[derive(Debug)]
pub struct CreatePlan {
    pub info: StorageInfo,
    pub operation: Operation,
    pub capacity_bytes: i64,
}

/// The creation that a create-volume request asks for: the volume named
/// `name` (or after its claim), of the class in `params`.
pub fn plan_create_volume(params: &Params, name: &str, capacity: Option<CapacityRange>) -> (r:
    Result<CreatePlan, AppError>)
    ensures
        r matches Err(e) ==> StorageInfo::params_error(pairs_view(params@)) == Some(e@),
        r is Ok <==> StorageInfo::params_error(pairs_view(params@)) is None,
        r matches Ok(plan) ==> {
            &&& parsed_from(plan.info, pairs_view(params@))
            &&& plan.capacity_bytes == provisioned(capacity)
            &&& plan.operation matches Operation::Create(op)
            &&& op.phase == CreatePhase::Ready
            &&& op.dataset@ == plan.info.zfs().parent_dataset@ + short_name(
                pairs_view(params@),
                name@,
            )
            &&& op.attrs@.len() == plan.info.dataset_attributes().len()
            &&& pairs_view(op.attrs@) == plan.info.dataset_attributes()
            &&& op.size == match plan.info {
                StorageInfo::ISCSI { .. } => Some(plan.capacity_bytes),
                StorageInfo::NFS { .. } => None::<i64>,
            }
        },
{
    let info = match StorageInfo::from_params(params) {
        Ok(i) => i,
        Err(e) => {
            return Err(e);
        },
    };
    let short = volume_name(params, name);
    let size = provision_size(capacity);
    let operation = info.create(short.as_str(), size);
    Ok(CreatePlan { info, operation, capacity_bytes: size })
}

/// The key under which a volume's storage class is kept.
pub open spec fn metadata_key(volume_id: Seq<char>) -> Seq<char> {
    "StorageInfo::"@ + volume_id
}

pub fn storage_key(volume_id: &str) -> (r: String)
    ensures
        r@ == metadata_key(volume_id@),
{
    cat2("StorageInfo::", volume_id)
}

/// A call that carries only a volume id, and takes its storage class from
/// what was kept.
#[derive(Debug)]
pub enum StoredCall {
    Delete,
    Unpublish,
    Unstage { staging_path: String },
    Unmount { target_path: String },
}

/// The operation for `call` on `volume_id`, given the storage class kept
/// for it: when none was kept, the call succeeds without doing anything.
pub fn plan_stored_call(stored: Option<&StorageInfo>, volume_id: &str, call: &StoredCall) -> (r:
    Operation)
    ensures
        stored is None ==> r == Operation::Nothing(false),
        stored matches Some(info) ==> match call {
            StoredCall::Delete => r == Operation::Nothing(false),
            StoredCall::Unpublish => r == Operation::Nothing(false),
            StoredCall::Unstage { staging_path } => match info {
                StorageInfo::ISCSI { options, .. } => r matches Operation::Unstage(op) && op.phase
                    == crate::lifecycle::UnstagePhase::Ready && op.iqn@ == crate::iscsi::target_iqn(
                    options.base_iqn@,
                    volume_id@,
                ) && op.portal@ == options.target_portal@ && op.staging@ == staging_path@,
                StorageInfo::NFS { .. } => r == Operation::Nothing(false),
            },
            StoredCall::Unmount { target_path } => r matches Operation::Unmount(op) && op.phase
                == crate::ops::UnmountPhase::Ready && op.path@ == target_path@,
        },
{
    match stored {
        None => Operation::Nothing(false),
        Some(info) => match call {
            StoredCall::Delete => info.delete(volume_id),
            StoredCall::Unpublish => info.unpublish(volume_id),
            StoredCall::Unstage { staging_path } => info.unstage(volume_id, staging_path.as_str()),
            StoredCall::Unmount { target_path } => info.unmount(volume_id, target_path.as_str()),
        },
    }
}

/// The services that the driver declares it offers.
#[derive(Clone, Copy, Debug, PartialEq, Eq, Structural)]
pub enum Capability {
    CreateDeleteVolume,
    PublishUnpublishVolume,
    StageUnstageVolume,
}

/// What the controller service offers: creating and deleting volumes, and
/// publishing and unpublishing them.
pub fn controller_capabilities() -> (r: Vec<Capability>)
    ensures
        r@ == seq![Capability::CreateDeleteVolume, Capability::PublishUnpublishVolume],
{
    let mut r: Vec<Capability> = Vec::new();
    r.push(Capability::CreateDeleteVolume);
    r.push(Capability::PublishUnpublishVolume);
    assert(r@ =~= seq![Capability::CreateDeleteVolume, Capability::PublishUnpublishVolume]);
    r
}

/// What the node service offers: staging and unstaging volumes.
pub fn node_capabilities() -> (r: Vec<Capability>)
    ensures
        r@ == seq![Capability::StageUnstageVolume],
{
    let mut r: Vec<Capability> = Vec::new();
    r.push(Capability::StageUnstageVolume);
    assert(r@ =~= seq![Capability::StageUnstageVolume]);
    r
}

} // verus!
