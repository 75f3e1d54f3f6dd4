use zed_csi::driver::{provision_size, storage_key, volume_name, CapacityRange};
use zed_csi::error::AppError;
use zed_csi::filesystem::FilesystemType;
use zed_csi::iscsi::{attribute_was_set, get_target, has_session, iqns_listed, is_prompt, sessions_from};
use zed_csi::mount::{mkfs_cmd, mount_cmd, mount_result, umount_result, Bool};
use zed_csi::params::{ISCSIOptions, NFSOptions, ZFSOptions};
use zed_csi::storage::StorageInfo;
use zed_csi::stream::{PromptWatch, StreamEvent};
use zed_csi::transport::{combine_output, exec_checked, exit_code, ControlMode, ControlModule};
use zed_csi::zfs::{ancestor_paths, list_datasets_result, set_attributes_command, ZFSDataset};

fn params(entries: &[(&str, &str)]) -> Vec<(String, String)> {
    entries.iter().map(|(k, v)| (k.to_string(), v.to_string())).collect()
}

fn generic(r: AppError) -> String {
    match r {
        AppError::Generic(m) => m,
        other => panic!("unexpected {:?}", other),
    }
}

#[test]
fn parent_dataset_gets_trailing_slash() {
    let z = ZFSOptions::new(&params(&[("zfs.parentDataset", "tank/csi"), ("zfs.attr.compression", "lz4")]))
        .unwrap();
    assert_eq!(z.parent_dataset, "tank/csi/");
    assert_eq!(z.attributes, vec![("compression".to_string(), "lz4".to_string())]);
    let z = ZFSOptions::new(&params(&[("zfs.parentDataset", "tank/csi/")])).unwrap();
    assert_eq!(z.parent_dataset, "tank/csi/");
    assert!(z.attributes.is_empty());
}

#[test]
fn parent_dataset_is_required() {
    let e = ZFSOptions::new(&params(&[("zfs.attr.a", "b")])).unwrap_err();
    assert_eq!(generic(e), "ZFS Parent Dataset is required!");
}

#[test]
fn iscsi_options_parse() {
    let o = ISCSIOptions::new(&params(&[
        ("baseIqn", "iqn.x"),
        ("targetPortal", "1.2.3.4:3260"),
        ("fsType", "XFS"),
        ("attr.authentication", "0"),
    ]))
    .unwrap();
    assert_eq!(o.base_iqn, "iqn.x");
    assert_eq!(o.target_portal, "1.2.3.4:3260");
    assert_eq!(o.fs_type, FilesystemType::XFS);
    assert_eq!(o.attributes, vec![("authentication".to_string(), "0".to_string())]);
    let o = ISCSIOptions::new(&params(&[("baseIqn", "i"), ("targetPortal", "p")])).unwrap();
    assert_eq!(o.fs_type, FilesystemType::Ext4);
}

#[test]
fn iscsi_options_errors() {
    assert_eq!(generic(ISCSIOptions::new(&params(&[("targetPortal", "p")])).unwrap_err()), "Base IQN is required!");
    assert_eq!(generic(ISCSIOptions::new(&params(&[("baseIqn", "i")])).unwrap_err()), "Target Portal is required!");
}

#[test]
fn nfs_options_parse() {
    let o = NFSOptions::new(&params(&[("host", "h"), ("export", "rw")])).unwrap();
    assert_eq!(o.export, "rw");
    let o = NFSOptions::new(&params(&[("host", "h")])).unwrap();
    assert!(o.export.ends_with(",rw=@192.168.0.0/16:@172.16.0.0/12:@10.0.0.0/8,ro"));
    assert_eq!(generic(NFSOptions::new(&params(&[])).unwrap_err()), "NFS Host is required!");
}

#[test]
fn storage_type_errors() {
    assert_eq!(generic(StorageInfo::from_params(&params(&[])).unwrap_err()), "Storage type was not specified!");
    assert_eq!(
        generic(StorageInfo::from_params(&params(&[("type", "ceph")])).unwrap_err()),
        "'ceph' is an unknown storage type!"
    );
}

#[test]
fn mount_type_is_none_exactly_for_bind_zfs_unknown() {
    let all = [
        FilesystemType::Ext2,
        FilesystemType::Ext3,
        FilesystemType::Ext4,
        FilesystemType::XFS,
        FilesystemType::NFS,
        FilesystemType::ZFS,
        FilesystemType::TmpFs,
        FilesystemType::Bind,
        FilesystemType::Unknown,
    ];
    for fs in all {
        let none = matches!(fs, FilesystemType::Bind | FilesystemType::ZFS | FilesystemType::Unknown);
        assert_eq!(fs.mount_type().is_none(), none);
    }
    assert_eq!(FilesystemType::NFS.mount_type(), Some("nfs4"));
    assert_eq!(FilesystemType::Bind.mount_options(), Some("bind"));
    assert_eq!(FilesystemType::XFS.mkfs(), Some("mkfs.xfs"));
    assert_eq!(FilesystemType::TmpFs.mkfs(), None);
}

#[test]
fn filesystem_names_ignore_case() {
    assert_eq!(FilesystemType::from_name("EXT4"), FilesystemType::Ext4);
    assert_eq!(FilesystemType::from_name("Xfs"), FilesystemType::XFS);
    assert_eq!(FilesystemType::from_name("btrfs"), FilesystemType::Unknown);
}

#[test]
fn mount_commands() {
    assert_eq!(mount_cmd(&FilesystemType::Ext4, "/dev/a", "/m"), "mount -t ext4 '/dev/a' '/m'");
    assert_eq!(mount_cmd(&FilesystemType::ZFS, "d", "p"), "mount 'd' 'p'");
    assert!(mount_result("".to_string(), 0).is_ok());
    assert!(mount_result("x already mounted y".to_string(), 32).is_ok());
    assert!(mount_result("already mounted".to_string(), 1).is_err());
    assert!(umount_result("not mounted".to_string(), 32).is_ok());
    assert!(umount_result("busy".to_string(), 32).is_err());
}

#[test]
fn mkfs_needs_a_tool() {
    assert_eq!(mkfs_cmd("/dev/a", &FilesystemType::Ext3).unwrap(), "mkfs.ext3 '/dev/a'");
    assert_eq!(generic(mkfs_cmd("/dev/a", &FilesystemType::NFS).unwrap_err()), "Cannot make filesystem for nfs4");
    assert_eq!(generic(mkfs_cmd("/dev/a", &FilesystemType::ZFS).unwrap_err()), "Cannot make filesystem for ");
}

#[test]
fn lenient_flags() {
    assert!(Bool::Bool(true).val());
    assert!(Bool::String("TRUE".to_string()).val());
    assert!(Bool::String("1".to_string()).val());
    assert!(!Bool::String("yes".to_string()).val());
}

#[test]
fn target_names() {
    assert_eq!(get_target("iqn.2020.org.ex:a", "tank/csi/pvc-1"), "iqn.2020.org.ex:a:tank-csi-pvc-1");
}

#[test]
fn targetcli_scraping() {
    assert!(is_prompt("/iscsi> "));
    assert!(!is_prompt("Created target"));
    assert!(attribute_was_set("Parameter authentication is now '0'."));
    assert!(!attribute_was_set("No such attribute"));
    let out = "o- iscsi .......... [Targets: 1]\n  o- iqn.2020.org.ex:a:v ....... [TPGs: 1]";
    assert_eq!(iqns_listed(out), vec!["iqn.2020.org.ex:a:v".to_string()]);
}

#[test]
fn iscsi_sessions() {
    let out = "tcp: [1] 10.0.0.1:3260,1 iqn.a:v (non-flash)\ntcp: [2] 10.0.0.2:3260,1 iqn.b:w (non-flash)";
    let s = sessions_from(out, 0);
    assert_eq!(s.len(), 2);
    assert_eq!(s[1].ip, "10.0.0.2");
    assert_eq!(s[1].port, "3260");
    assert_eq!(s[1].iqn, "iqn.b:w");
    assert!(has_session(&s, "iqn.a:v"));
    assert!(!has_session(&s, "iqn.c"));
    assert!(sessions_from(out, 21).is_empty());
}

#[test]
fn zfs_commands_and_listing() {
    assert_eq!(ancestor_paths("a/b/c"), vec!["a/b".to_string()]);
    assert!(ancestor_paths("pool").is_empty());
    let attrs = vec![("a".to_string(), "1".to_string()), ("b".to_string(), "2".to_string())];
    assert_eq!(set_attributes_command("t/d", &attrs).unwrap(), "zfs set 'a=1' 'b=2' t/d");
    assert!(set_attributes_command("t/d", &Vec::new()).is_none());
    let listed = list_datasets_result("tank\t1G\t9G\t96K\t/tank\nbad row\n", 0).unwrap();
    assert_eq!(listed.len(), 1);
    assert_eq!(listed[0].mountpoint, "/tank");
    assert_eq!(
        generic(list_datasets_result("boom", 2).unwrap_err()),
        "ZFS list failed with code 2!\nboom"
    );
    assert!(ZFSDataset::from_output("t", "", 1).is_none());
    let d = ZFSDataset::from_output("t", "t\tused\t1K\t-\nt\tcompression\tlz4\tlocal", 0).unwrap();
    assert_eq!(d.properties.len(), 2);
    assert_eq!(d.properties[1].0, "compression");
    assert_eq!(d.properties[1].1.value, "lz4");
    assert_eq!(d.properties[1].1.source, "local");
}

#[test]
fn facade_names_and_sizes() {
    let p = params(&[("csi.storage.k8s.io/pvc/name", "c"), ("csi.storage.k8s.io/pvc/namespace", "n")]);
    assert_eq!(volume_name(&p, "pvc-x"), "n/c");
    assert_eq!(volume_name(&params(&[("csi.storage.k8s.io/pvc/name", "c")]), "pvc-x"), "pvc-x");
    assert_eq!(provision_size(None), 1073741824);
    assert_eq!(provision_size(Some(CapacityRange { required_bytes: 5, limit_bytes: 9 })), 9);
    assert_eq!(provision_size(Some(CapacityRange { required_bytes: 5, limit_bytes: 0 })), 5);
    assert_eq!(storage_key("tank/v"), "StorageInfo::tank/v");
}

#[test]
fn transport_from_secrets() {
    let m = ControlModule::from_map(&params(&[
        ("type", "ssh"),
        ("sshUser", "root"),
        ("sshHost", "h"),
        ("sshPort", "22"),
        ("sshKey", "a\\nb"),
        ("sudo", "true"),
    ]))
    .unwrap();
    match m {
        ControlModule::SSH { user, address, private_key, sudo } => {
            assert_eq!(user, "root");
            assert_eq!(address, "h:22");
            assert_eq!(private_key, "a\nb");
            assert!(sudo);
        }
        other => panic!("unexpected {:?}", other),
    }
    let e = ControlModule::from_map(&params(&[("type", "ssh"), ("sshUser", "root")])).unwrap_err();
    assert_eq!(generic(e), "sshHost key not found!");
    let e = ControlModule::from_map(&params(&[("type", "local")])).unwrap_err();
    assert_eq!(generic(e), "Unknown configuration type for control mode map!");
    let e = ControlModule::from_map(&params(&[
        ("type", "ssh"),
        ("sshUser", "u"),
        ("sshHost", "h"),
        ("sshPort", "22"),
        ("sshKey", "k"),
        ("sudo", "yes"),
    ]))
    .unwrap_err();
    assert_eq!(generic(e), "provided string was not `true` or `false`");
}

#[test]
fn transport_command_framing() {
    let chroot = ControlModule::new(&ControlMode::Chroot { sudo: true, path: "/host".to_string() });
    assert_eq!(chroot.command_line("zfs list -H"), "sudo chroot /host zfs list -H");
    let local = ControlModule::new(&ControlMode::default());
    assert_eq!(local.command_line("ls"), "ls");
    let ssh = ControlModule::new(&ControlMode::SSH {
        sudo: false,
        user: "u".to_string(),
        private_key: "k".to_string(),
        host: "h".to_string(),
        port: 2222,
    });
    match ssh {
        ControlModule::SSH { address, .. } => assert_eq!(address, "h:2222"),
        other => panic!("unexpected {:?}", other),
    }
}

#[test]
fn checked_commands_and_outputs() {
    assert_eq!(exec_checked("ok".to_string(), 0).unwrap(), "ok");
    match exec_checked("bad".to_string(), 3) {
        Err(AppError::CommandFailed { code, output }) => {
            assert_eq!(code, 3);
            assert_eq!(output, "bad");
        }
        other => panic!("unexpected {:?}", other),
    }
    assert_eq!(exit_code(Some(2)), 2);
    assert_eq!(exit_code(None), 256);
    assert_eq!(combine_output("out  \n", "err\t\n"), "out\nerr");
}

#[test]
fn declared_capabilities() {
    use_capabilities();
}

fn use_capabilities() {
    assert_eq!(
        zed_csi::driver::controller_capabilities(),
        vec![
            zed_csi::driver::Capability::CreateDeleteVolume,
            zed_csi::driver::Capability::PublishUnpublishVolume
        ]
    );
    assert_eq!(zed_csi::driver::node_capabilities(), vec![zed_csi::driver::Capability::StageUnstageVolume]);
}

#[test]
fn target_attribute_values() {
    let out = "authentication=0\ndefault_cmdsn_depth=64\nlogin_timeout=15";
    let values = zed_csi::iscsi::attribute_values(out).unwrap();
    assert_eq!(values.len(), 3);
    assert_eq!(values[1], ("default_cmdsn_depth".to_string(), 64));
    assert!(zed_csi::iscsi::attribute_values("big=99999999999999999999").is_none());
    assert_eq!(zed_csi::iscsi::parse_decimal("9223372036854775807"), Some(i64::MAX));
    assert_eq!(zed_csi::iscsi::parse_decimal("9223372036854775808"), None);
    assert_eq!(zed_csi::iscsi::parse_decimal("12a"), None);
    assert_eq!(zed_csi::iscsi::parse_decimal(""), None);
}

#[test]
fn prompt_watch_stops_at_prompt_or_exit() {
    let mut w = PromptWatch::new();
    assert!(w.feed(StreamEvent::Line("Created target.\n".to_string())).is_none());
    assert!(w.feed(StreamEvent::Empty).is_none());
    let done = w.feed(StreamEvent::Line("/iscsi> ".to_string())).unwrap();
    assert_eq!(done, ("Created target.\n/iscsi> ".to_string(), None));
    let mut w = PromptWatch::new();
    assert!(w.feed(StreamEvent::Line("bye\n".to_string())).is_none());
    assert_eq!(w.feed(StreamEvent::Exited(0)).unwrap(), ("bye\n".to_string(), Some(0)));
}

#[test]
fn storage_class_errors_in_order() {
    let e = StorageInfo::from_params(&params(&[("type", "zfs-iscsi"), ("targetPortal", "p")])).unwrap_err();
    assert_eq!(generic(e), "Base IQN is required!");
    let e = StorageInfo::from_params(&params(&[("type", "zfs-iscsi"), ("baseIqn", "i"), ("targetPortal", "p")]))
        .unwrap_err();
    assert_eq!(generic(e), "ZFS Parent Dataset is required!");
    let e = StorageInfo::from_params(&params(&[("type", "zfs-nfs"), ("zfs.parentDataset", "t/")])).unwrap_err();
    assert_eq!(generic(e), "NFS Host is required!");
}

#[test]
fn publish_and_stage_use_one_target() {
    let p = params(&[
        ("type", "zfs-iscsi"),
        ("baseIqn", "iqn.b"),
        ("targetPortal", "10.1.1.1:3260"),
        ("zfs.parentDataset", "pool/k8s"),
    ]);
    let info = StorageInfo::from_params(&p).unwrap();
    let publish = info.publish("pool/k8s/v1");
    let stage = info.stage("pool/k8s/v1", "/s");
    match (publish, stage) {
        (zed_csi::storage::Operation::Publish(a), zed_csi::storage::Operation::Stage(b)) => {
            assert_eq!(a.iqn, "iqn.b:pool-k8s-v1");
            assert_eq!(a.iqn, b.iqn);
        }
        other => panic!("unexpected {:?}", other),
    }
}

#[test]
fn local_shell_framing() {
    let shell = zed_csi::transport::LocalShell { sudo: true, chroot: None };
    assert_eq!(shell.command_line("zfs list -H"), "sudo zfs list -H");
    let shell = zed_csi::transport::LocalShell { sudo: false, chroot: Some("/h".to_string()) };
    assert_eq!(shell.command_line("ls"), "chroot /h ls");
}
