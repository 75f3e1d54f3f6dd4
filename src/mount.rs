use crate::error::{AppError, AppErrorView};
use crate::filesystem::FilesystemType;
use crate::text::{cat2, cat3, contains_text, has_infix, same_text};
use vstd::prelude::*;

verus! {

/// The columns asked of `findmnt`.
pub const MOUNT_COLUMNS: &'static str = "id,source,target,fstype,label,options,partuuid,avail,size,used";

/// The columns asked of `lsblk`.
pub const BLOCK_COLUMNS: &'static str = "name,rm,type,size,fstype,ro";

/// `mkdir -p <path>`.
pub open spec fn mkdir_command(path: Seq<char>) -> Seq<char> {
    "mkdir -p "@ + path
}

/// `mount [-t <type>] [-o <options>] '<device>' '<path>'`.
pub open spec fn mount_command(fs: FilesystemType, device: Seq<char>, path: Seq<char>) -> Seq<char> {
    let t = match fs.mount_type_spec() {
        Some(t) => "-t "@ + t + " "@,
        None => Seq::empty(),
    };
    let o = match fs.mount_options_spec() {
        Some(o) => "-o "@ + o + " "@,
        None => Seq::empty(),
    };
    "mount "@ + t + o + "'"@ + device + "' '"@ + path + "'"@
}

/// `umount '<path>'`.
pub open spec fn umount_command(path: Seq<char>) -> Seq<char> {
    "umount '"@ + path + "'"@
}

/// `<tool> '<path>'` for the filesystem's formatting tool.
pub open spec fn mkfs_command(tool: Seq<char>, path: Seq<char>) -> Seq<char> {
    tool + " '"@ + path + "'"@
}

/// `lsblk -J -o '<columns>' '<path>'`.
pub open spec fn lsblk_command(path: Seq<char>) -> Seq<char> {
    "lsblk -J -o '"@ + BLOCK_COLUMNS@ + "' '"@ + path + "'"@
}

/// `findmnt -J -o '<columns>'`, followed by ` <path>` when a path is given.
pub open spec fn findmnt_command(path: Option<Seq<char>>) -> Seq<char> {
    let base = "findmnt -J -o '"@ + MOUNT_COLUMNS@ + "'"@;
    match path {
        Some(p) => base + " "@ + p,
        None => base,
    }
}

/// A mount succeeded: it exited with 0, or with 32 because the path was already mounted.
pub open spec fn mount_succeeded(output: Seq<char>, code: u32) -> bool {
    code == 0 || (code == 32 && has_infix(output, "already mounted"@))
}

/// An unmount succeeded: it exited with 0, or with 32 because the path was not mounted.
pub open spec fn umount_succeeded(output: Seq<char>, code: u32) -> bool {
    code == 0 || (code == 32 && has_infix(output, "not mounted"@))
}

/// The outcome of a command whose success is `ok`.
pub open spec fn outcome(ok: bool, output: Seq<char>, code: u32) -> Result<(), AppErrorView> {
    if ok {
        Ok(())
    } else {
        Err(AppErrorView::CommandFailed { code, output })
    }
}

/// The view of a unit result.
pub open spec fn unit_view(r: Result<(), AppError>) -> Result<(), AppErrorView> {
    match r {
        Ok(()) => Ok(()),
        Err(e) => Err(e@),
    }
}

pub fn mkdir(path: &str) -> (r: String)
    ensures
        r@ == mkdir_command(path@),
{
    cat2("mkdir -p ", path)
}

pub fn mount_cmd(fs: &FilesystemType, device: &str, path: &str) -> (r: String)
    ensures
        r@ == mount_command(*fs, device@, path@),
{
    let mut cmd = String::from_str("mount ");
    match fs.mount_type() {
        Some(t) => {
            cmd.append("-t ");
            cmd.append(t);
            cmd.append(" ");
        },
        None => {},
    }
    match fs.mount_options() {
        Some(o) => {
            cmd.append("-o ");
            cmd.append(o);
            cmd.append(" ");
        },
        None => {},
    }
    cmd.append("'");
    cmd.append(device);
    cmd.append("' '");
    cmd.append(path);
    cmd.append("'");
    cmd
}

pub fn umount_cmd(path: &str) -> (r: String)
    ensures
        r@ == umount_command(path@),
{
    cat3("umount '", path, "'")
}

pub fn lsblk_cmd(path: &str) -> (r: String)
    ensures
        r@ == lsblk_command(path@),
{
    let mut cmd = String::from_str("lsblk -J -o '");
    cmd.append(BLOCK_COLUMNS);
    cmd.append("' '");
    cmd.append(path);
    cmd.append("'");
    cmd
}

pub fn findmnt_cmd(path: Option<&str>) -> (r: String)
    ensures
        r@ == findmnt_command(
            match path {
                Some(p) => Some(p@),
                None => None,
            },
        ),
{
    let mut cmd = String::from_str("findmnt -J -o '");
    cmd.append(MOUNT_COLUMNS);
    cmd.append("'");
    match path {
        Some(p) => {
            cmd.append(" ");
            cmd.append(p);
        },
        None => {},
    }
    cmd
}

/// The result of a mount that exited with `code` and printed `output`.
pub fn mount_result(output: String, code: u32) -> (r: Result<(), AppError>)
    ensures
        unit_view(r) == outcome(mount_succeeded(output@, code), output@, code),
{
    if code == 0 || (code == 32 && contains_text(output.as_str(), "already mounted")) {
        Ok(())
    } else {
        Err(AppError::CommandFailed { code, output })
    }
}

/// The result of an unmount that exited with `code` and printed `output`.
pub fn umount_result(output: String, code: u32) -> (r: Result<(), AppError>)
    ensures
        unit_view(r) == outcome(umount_succeeded(output@, code), output@, code),
{
    if code == 0 || (code == 32 && contains_text(output.as_str(), "not mounted")) {
        Ok(())
    } else {
        Err(AppError::CommandFailed { code, output })
    }
}

/// The error when a filesystem cannot be created.
pub open spec fn no_mkfs_error(fs: FilesystemType) -> AppErrorView {
    AppErrorView::Generic(
        "Cannot make filesystem for "@ + match fs.mount_type_spec() {
            Some(t) => t,
            None => Seq::empty(),
        },
    )
}

/// The command that formats `path` with `fs`, or the error when `fs` cannot be created.
pub fn mkfs_cmd(path: &str, fs: &FilesystemType) -> (r: Result<String, AppError>)
    ensures
        match fs.mkfs_spec() {
            Some(tool) => r is Ok && r->Ok_0@ == mkfs_command(tool, path@),
            None => r is Err && r->Err_0@ == no_mkfs_error(*fs),
        },
{
    match fs.mkfs() {
        Some(tool) => Ok(cat3(tool, " '", path)).map(|mut c: String| -> (d: String)
            ensures d@ == c@ + "'"@,
            {
                c.append("'");
                c
            }),
        None => {
            let mut m = String::from_str("Cannot make filesystem for ");
            match fs.mount_type() {
                Some(t) => m.append(t),
                None => {},
            }
            Err(AppError::Generic(m))
        },
    }
}

/// A flag that `lsblk` prints either as a boolean or as a string.
#[derive(Debug)]
pub enum Bool {
    Bool(bool),
    String(String),
}

impl Bool {
    /// The flag's value: a string counts as true when it is `1`, `true`, `True` or `TRUE`.
    pub open spec fn spec_val(&self) -> bool {
        match self {
            Bool::Bool(v) => *v,
            Bool::String(s) => s@ == "1"@ || s@ == "true"@ || s@ == "True"@ || s@ == "TRUE"@,
        }
    }

    pub fn val(&self) -> (r: bool)
        ensures
            r == self.spec_val(),
    {
        match self {
            Bool::Bool(v) => *v,
            Bool::String(s) => same_text(s.as_str(), "1") || same_text(s.as_str(), "true")
                || same_text(s.as_str(), "True") || same_text(s.as_str(), "TRUE"),
        }
    }
}

/// A block device, as `lsblk` describes it.
#[derive(Debug)]
pub struct BlockDevice {
    pub name: String,
    pub rm: Bool,
    pub dev_type: String,
    pub size: String,
    /// The filesystem found on the device, if any.
    pub fstype: Option<String>,
    pub ro: Bool,
}

/// A mounted filesystem, as `findmnt` describes it.
#[derive(Debug)]
pub struct MountDetail {
    pub id: i64,
    pub source: String,
    pub target: String,
    pub fstype: Option<String>,
    pub label: Option<String>,
    pub options: Option<String>,
    pub avail: Option<String>,
    pub size: Option<String>,
    pub used: Option<String>,
    pub partuuid: Option<String>,
    pub children: Vec<MountDetail>,
}

/// The document `findmnt -J` prints.
#[derive(Debug)]
pub struct MountDetailContainer {
    pub filesystems: Vec<MountDetail>,
}

/// The document `lsblk -J` prints.
#[derive(Debug)]
pub struct BlockDeviceContainer {
    pub blockdevices: Vec<BlockDevice>,
}

} // verus!
