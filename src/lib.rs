//! The core of a CSI driver that provisions volumes as ZFS datasets on a
//! storage host and attaches them to nodes over iSCSI or NFS.
//!
//! Every step is a shell command: the library builds the commands, reads
//! their output and decides what comes next, and never runs anything
//! itself. Each lifecycle operation is a state machine ([`storage::Operation`])
//! that takes what the shell reported ([`ops::Event`]) and answers with the
//! next thing to do ([`ops::Action`]); the caller runs the shell.
//!
//! - [`params`]: storage class parameters (ZFS, iSCSI and NFS options).
//! - [`zfs`], [`mount`], [`iscsi`]: commands of `zfs`, `mount`/`lsblk`/`findmnt`,
//!   `targetcli` and `iscsiadm`, and the reading of what they print.
//! - [`ops`], [`lifecycle`], [`storage`]: the operations and their dispatch.
//! - [`transport`]: how commands are framed for a local shell, a chroot or SSH.
//! - [`driver`]: the decisions of the CSI calls themselves.
//! - [`metadata`]: the record kept for each volume, and its decoding.
//! - [`laws`]: properties of the operations, proved over every run.
pub mod error;
pub mod text;
pub mod filesystem;
pub mod params;
pub mod zfs;
pub mod mount;
pub mod iscsi;
pub mod ops;
pub mod stream;
pub mod lifecycle;
pub mod storage;
pub mod transport;
pub mod driver;
pub mod laws;
pub mod metadata;
