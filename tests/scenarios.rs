use zed_csi::driver::{plan_create_volume, plan_stored_call, CapacityRange, StoredCall};
use zed_csi::error::AppError;
use zed_csi::filesystem::FilesystemType;
use zed_csi::mount::{BlockDevice, Bool};
use zed_csi::ops::{Action, Event};
use zed_csi::storage::{Operation, StorageInfo};

fn params(entries: &[(&str, &str)]) -> Vec<(String, String)> {
    entries.iter().map(|(k, v)| (k.to_string(), v.to_string())).collect()
}

/// What a scripted host does: the output and exit code of each command,
/// and the output before each targetcli prompt.
struct Host {
    replies: Vec<(String, String, u32)>,
    prompts: Vec<(String, String)>,
    devices: Vec<Option<String>>,
    log: Vec<String>,
}

impl Host {
    fn new() -> Host {
        Host { replies: Vec::new(), prompts: Vec::new(), devices: Vec::new(), log: Vec::new() }
    }

    fn reply(mut self, cmd: &str, output: &str, code: u32) -> Host {
        self.replies.push((cmd.to_string(), output.to_string(), code));
        self
    }

    fn prompt(mut self, line: &str, output: &str) -> Host {
        self.prompts.push((line.to_string(), output.to_string()));
        self
    }

    fn device(mut self, fstype: Option<&str>) -> Host {
        self.devices.push(fstype.map(|s| s.to_string()));
        self
    }

    fn run(&mut self, op: &mut Operation) -> Result<String, AppError> {
        let mut action = op.step(Event::Start);
        for _ in 0..200 {
            let event = match action {
                Action::Done(r) => return r,
                Action::Exec(cmd) => {
                    self.log.push(cmd.clone());
                    let (output, code) = self
                        .replies
                        .iter()
                        .find(|(c, _, _)| *c == cmd)
                        .map(|(_, o, c)| (o.clone(), *c))
                        .unwrap_or((String::new(), 0));
                    Event::Finished { output, code }
                }
                Action::Open(cmd) => {
                    self.log.push(cmd);
                    Event::Prompt { output: String::new() }
                }
                Action::Send(line) => {
                    self.log.push(line.clone());
                    let output = self
                        .prompts
                        .iter()
                        .find(|(l, _)| *l == line)
                        .map(|(_, o)| o.clone())
                        .unwrap_or_default();
                    Event::Prompt { output }
                }
                Action::Close => {
                    self.log.push("exit".to_string());
                    Event::Finished { output: String::new(), code: 0 }
                }
                Action::Sleep(ms) => {
                    self.log.push(format!("sleep {}", ms));
                    Event::Slept
                }
                Action::DecodeBlockDevices(_) => Event::Devices(Ok(self
                    .devices
                    .iter()
                    .map(|f| BlockDevice {
                        name: "sdb".to_string(),
                        rm: Bool::Bool(false),
                        dev_type: "disk".to_string(),
                        size: "2G".to_string(),
                        fstype: f.clone(),
                        ro: Bool::Bool(false),
                    })
                    .collect())),
            };
            action = op.step(event);
        }
        panic!("operation did not end");
    }
}

fn iscsi_params() -> Vec<(String, String)> {
    params(&[
        ("type", "zfs-iscsi"),
        ("baseIqn", "iqn.2020.org.ex:a"),
        ("targetPortal", "10.0.0.1:3260"),
        ("zfs.parentDataset", "tank/csi/"),
        ("attr.authentication", "0"),
    ])
}

const DISK: &str =
    "/dev/disk/by-path/ip-10.0.0.1:3260:3260-iscsi-iqn.2020.org.ex:a:tank-csi-pvc-1-lun-0";

#[test]
fn iscsi_create_volume() {
    let p = iscsi_params();
    let capacity = Some(CapacityRange { required_bytes: 2147483648, limit_bytes: 0 });
    let mut plan = plan_create_volume(&p, "pvc-1", capacity).unwrap();
    assert_eq!(plan.capacity_bytes, 2147483648);
    let mut host = Host::new().reply("zfs get -H all 'tank/csi/pvc-1'", "", 1);
    let id = host.run(&mut plan.operation).unwrap();
    assert_eq!(id, "tank/csi/pvc-1");
    assert_eq!(host.log[0], "zfs get -H all 'tank/csi/pvc-1'");
    assert!(host.log.contains(&"zfs create -V 2147483648 'tank/csi/pvc-1'".to_string()));
    assert_eq!(host.log.last().unwrap(), "zfs create -V 2147483648 'tank/csi/pvc-1'");
}

#[test]
fn iscsi_create_existing_dataset_skips_creation() {
    let p = iscsi_params();
    let mut plan = plan_create_volume(&p, "pvc-1", None).unwrap();
    assert_eq!(plan.capacity_bytes, 1073741824);
    let mut host = Host::new().reply("zfs get -H all 'tank/csi/pvc-1'", "x\tused\t1\t-", 0);
    assert_eq!(host.run(&mut plan.operation).unwrap(), "tank/csi/pvc-1");
    assert_eq!(host.log, vec!["zfs get -H all 'tank/csi/pvc-1'".to_string()]);
}

#[test]
fn iscsi_create_failure_is_reported_trimmed() {
    let p = iscsi_params();
    let mut plan = plan_create_volume(&p, "pvc-1", None).unwrap();
    let mut host = Host::new()
        .reply("zfs get -H all 'tank/csi/pvc-1'", "", 1)
        .reply("zfs create -V 1073741824 'tank/csi/pvc-1'", "no space  \n", 2);
    match host.run(&mut plan.operation) {
        Err(AppError::Generic(m)) => {
            assert_eq!(m, "Failed to create ZFS dataset, exit code 2\nno space")
        }
        other => panic!("unexpected {:?}", other),
    }
}

#[test]
fn iscsi_publish_volume() {
    let info = StorageInfo::from_params(&iscsi_params()).unwrap();
    let mut op = info.publish("tank/csi/pvc-1");
    let set = "/iscsi/iqn.2020.org.ex:a:tank-csi-pvc-1/tpg1 set attribute authentication=0";
    let mut host = Host::new().prompt(set, "Parameter authentication is now '0'.");
    assert_eq!(host.run(&mut op).unwrap(), "");
    assert_eq!(
        host.log,
        vec![
            "targetcli".to_string(),
            "/backstores/block create k8s-tank-csi-pvc-1 /dev/zvol/tank/csi/pvc-1".to_string(),
            "/iscsi create iqn.2020.org.ex:a:tank-csi-pvc-1".to_string(),
            "/iscsi/iqn.2020.org.ex:a:tank-csi-pvc-1/tpg1/luns create /backstores/block/k8s-tank-csi-pvc-1"
                .to_string(),
            set.to_string(),
            "exit".to_string(),
        ]
    );
}

#[test]
fn iscsi_publish_fails_without_confirmation() {
    let info = StorageInfo::from_params(&iscsi_params()).unwrap();
    let mut op = info.publish("tank/csi/pvc-1");
    let mut host = Host::new();
    match host.run(&mut op) {
        Err(AppError::Generic(m)) => assert_eq!(m, "Failed to set parameter!"),
        other => panic!("unexpected {:?}", other),
    }
    assert!(!host.log.contains(&"exit".to_string()));
}

#[test]
fn iscsi_stage_with_existing_filesystem() {
    let info = StorageInfo::from_params(&iscsi_params()).unwrap();
    let mut op = info.stage("tank/csi/pvc-1", "/staging");
    let mut host = Host::new().reply("iscsiadm -m session", "", 21).device(Some("ext4"));
    host.run(&mut op).unwrap();
    assert!(host.log.iter().all(|c| !c.starts_with("mkfs")));
    assert!(host.log.contains(&format!("mount -t ext4 '{}' '/staging'", DISK)));
    assert!(host.log.contains(&format!(
        "iscsiadm --mode node --targetname 'iqn.2020.org.ex:a:tank-csi-pvc-1' --portal '10.0.0.1:3260' --login"
    )));
}

#[test]
fn iscsi_stage_formats_empty_disk() {
    let info = StorageInfo::from_params(&iscsi_params()).unwrap();
    let mut op = info.stage("tank/csi/pvc-1", "/staging");
    let mut host = Host::new().device(None);
    host.run(&mut op).unwrap();
    assert!(host.log.contains(&format!("mkfs.ext4 '{}'", DISK)));
}

#[test]
fn stage_succeeds_when_already_mounted() {
    let info = StorageInfo::from_params(&iscsi_params()).unwrap();
    let mut op = info.stage("tank/csi/pvc-1", "/staging");
    let mount = format!("mount -t ext4 '{}' '/staging'", DISK);
    let mut host = Host::new()
        .reply(&mount, "mount: /staging: /dev/sdb already mounted on /staging.", 32)
        .device(Some("ext4"));
    assert!(host.run(&mut op).is_ok());
}

#[test]
fn stage_fails_on_other_mount_error() {
    let info = StorageInfo::from_params(&iscsi_params()).unwrap();
    let mut op = info.stage("tank/csi/pvc-1", "/staging");
    let mount = format!("mount -t ext4 '{}' '/staging'", DISK);
    let mut host = Host::new().reply(&mount, "mount: wrong fs type", 32).device(Some("ext4"));
    match host.run(&mut op) {
        Err(AppError::CommandFailed { code, output }) => {
            assert_eq!(code, 32);
            assert_eq!(output, "mount: wrong fs type");
        }
        other => panic!("unexpected {:?}", other),
    }
}

#[test]
fn stage_again_skips_login_and_mkfs() {
    let info = StorageInfo::from_params(&iscsi_params()).unwrap();
    let mut op = info.stage("tank/csi/pvc-1", "/staging");
    let mount = format!("mount -t ext4 '{}' '/staging'", DISK);
    let mut host = Host::new()
        .reply(
            "iscsiadm -m session",
            "tcp: [1] 10.0.0.1:3260,1 iqn.2020.org.ex:a:tank-csi-pvc-1 (non-flash)",
            0,
        )
        .reply(&mount, "already mounted", 32)
        .device(Some("ext4"));
    host.run(&mut op).unwrap();
    assert!(host.log.iter().all(|c| !c.contains("--login") && !c.starts_with("mkfs")));
}

#[test]
fn wait_for_disk_gives_up_after_thirty_polls() {
    let info = StorageInfo::from_params(&iscsi_params()).unwrap();
    let mut op = info.stage("tank/csi/pvc-1", "/staging");
    let test = format!("test -b '{}'", DISK);
    let mut host = Host::new().reply(&test, "", 1);
    match host.run(&mut op) {
        Err(AppError::Generic(m)) => assert_eq!(m, format!("Timed out waiting for device {}", DISK)),
        other => panic!("unexpected {:?}", other),
    }
    let polls: Vec<usize> =
        host.log.iter().enumerate().filter(|(_, c)| **c == test).map(|(i, _)| i).collect();
    assert_eq!(polls.len(), 30);
    for i in polls {
        assert_eq!(host.log[i - 1], "sleep 100");
    }
}

#[test]
fn unstage_twice_succeeds() {
    let info = StorageInfo::from_params(&iscsi_params()).unwrap();
    let mut first = info.unstage("tank/csi/pvc-1", "/staging");
    let mut host = Host::new();
    host.run(&mut first).unwrap();
    let mut second = info.unstage("tank/csi/pvc-1", "/staging");
    let mut again = Host::new()
        .reply("umount '/staging'", "umount: /staging: not mounted.", 32)
        .reply(
            "iscsiadm --mode node --targetname 'iqn.2020.org.ex:a:tank-csi-pvc-1' --portal '10.0.0.1:3260' --logout",
            "iscsiadm: No matching sessions found",
            21,
        );
    assert!(again.run(&mut second).is_ok());
    assert_eq!(again.log.len(), 2);
}

#[test]
fn node_publish_bind_mounts_staging_path() {
    let info = StorageInfo::from_params(&iscsi_params()).unwrap();
    let mut op = info.mount("tank/csi/pvc-1", "/staging", "/target");
    let mut host = Host::new();
    host.run(&mut op).unwrap();
    assert_eq!(host.log, vec!["mkdir -p /target", "mount -o bind '/staging' '/target'"]);
}

fn nfs_params() -> Vec<(String, String)> {
    params(&[
        ("type", "zfs-nfs"),
        ("host", "10.0.0.2"),
        ("zfs.parentDataset", "tank/nfs/"),
        ("csi.storage.k8s.io/pvc/namespace", "ns1"),
        ("csi.storage.k8s.io/pvc/name", "pvc-2"),
    ])
}

#[test]
fn nfs_create_volume() {
    let p = nfs_params();
    let mut plan = plan_create_volume(&p, "pvc-2-request", None).unwrap();
    let mut host = Host::new()
        .reply("zfs get -H all 'tank/nfs/ns1/pvc-2'", "", 1)
        .reply("zfs create 'tank/nfs/ns1'", "cannot create: dataset already exists", 1);
    let id = host.run(&mut plan.operation).unwrap();
    assert_eq!(id, "tank/nfs/ns1/pvc-2");
    assert_eq!(
        host.log,
        vec![
            "zfs get -H all 'tank/nfs/ns1/pvc-2'".to_string(),
            "zfs create 'tank/nfs'".to_string(),
            "zfs create 'tank/nfs/ns1'".to_string(),
            "zfs create  'tank/nfs/ns1/pvc-2'".to_string(),
            "zfs set 'sharenfs=wdelay,nohide,crossmnt,no_root_squash,no_subtree_check,mountpoint,sec=sys,rw,secure,no_root_squash,no_all_squash,rw=@192.168.0.0/16:@172.16.0.0/12:@10.0.0.0/8,ro' tank/nfs/ns1/pvc-2"
                .to_string(),
        ]
    );
}

#[test]
fn nfs_mount_uses_export_path() {
    let info = StorageInfo::from_params(&nfs_params()).unwrap();
    let mut op = info.mount("tank/nfs/ns1/pvc-2", "/staging", "/target");
    let mut host = Host::new();
    host.run(&mut op).unwrap();
    assert_eq!(
        host.log,
        vec!["mkdir -p /target", "mount -t nfs4 '10.0.0.2:/tank/nfs/ns1/pvc-2' '/target'"]
    );
}

#[test]
fn nfs_stage_does_nothing() {
    let info = StorageInfo::from_params(&nfs_params()).unwrap();
    let mut op = info.stage("tank/nfs/ns1/pvc-2", "/staging");
    let mut host = Host::new();
    assert_eq!(host.run(&mut op).unwrap(), "");
    assert!(host.log.is_empty());
}

#[test]
fn delete_without_metadata() {
    let mut op = plan_stored_call(None, "tank/csi/pvc-9", &StoredCall::Delete);
    let mut host = Host::new();
    assert!(host.run(&mut op).is_ok());
    assert!(host.log.is_empty());
}

#[test]
fn unpublish_without_metadata() {
    let call = StoredCall::Unstage { staging_path: "/staging".to_string() };
    let mut op = plan_stored_call(None, "tank/csi/pvc-9", &call);
    let mut host = Host::new();
    assert!(host.run(&mut op).is_ok());
    assert!(host.log.is_empty());
}

#[test]
fn storage_info_round_trip_both_variants() {
    for p in [iscsi_params(), nfs_params()] {
        let info = StorageInfo::from_params(&p).unwrap();
        let bytes = info.into_bytes();
        let back = StorageInfo::from_bytes(&bytes).unwrap();
        assert_eq!(back.into_bytes(), bytes);
        assert_eq!(format!("{:?}", back), format!("{:?}", info));
    }
}

#[test]
fn storage_info_decoding_rejects_damage() {
    let info = StorageInfo::from_params(&iscsi_params()).unwrap();
    let mut bytes = info.into_bytes();
    assert!(StorageInfo::from_bytes(&Vec::new()).is_none());
    assert!(StorageInfo::from_bytes(&bytes[..bytes.len() - 1].to_vec()).is_none());
    bytes.push(0);
    assert!(StorageInfo::from_bytes(&bytes).is_none());
    let mut bad = StorageInfo::from_params(&nfs_params()).unwrap().into_bytes();
    bad[9] = 0xff;
    assert!(StorageInfo::from_bytes(&bad).is_none());
}
