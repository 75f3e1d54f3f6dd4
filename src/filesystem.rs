use crate::text::same_text;
use vstd::prelude::*;

verus! {

/// The filesystems that the driver knows how to mount or create.
#[derive(Clone, Copy, Debug, PartialEq, Eq, Structural)]
pub enum FilesystemType {
    Ext2,
    Ext3,
    Ext4,
    XFS,
    NFS,
    ZFS,
    TmpFs,
    Bind,
    Unknown,
}

/// What `str::to_lowercase` returns for `s`.
pub uninterp spec fn lower_of(s: Seq<char>) -> Seq<char>;

/// Relies on `str::to_lowercase`: the result depends on the characters alone.
#[verifier::external_body]
fn lowercase(s: &str) -> (r: String)
    ensures
        r@ == lower_of(s@),
{
    s.to_lowercase()
}

/// The filesystem that an already lowercased name stands for.
pub open spec fn fs_of_lower(s: Seq<char>) -> FilesystemType {
    if s == "ext2"@ {
        FilesystemType::Ext2
    } else if s == "ext3"@ {
        FilesystemType::Ext3
    } else if s == "ext4"@ {
        FilesystemType::Ext4
    } else if s == "xfs"@ {
        FilesystemType::XFS
    } else if s == "nfs"@ {
        FilesystemType::NFS
    } else if s == "tmpfs"@ {
        FilesystemType::TmpFs
    } else if s == "zfs"@ {
        FilesystemType::ZFS
    } else if s == "bind"@ {
        FilesystemType::Bind
    } else {
        FilesystemType::Unknown
    }
}

/// The view of an optional static string.
pub open spec fn opt_text(o: Option<&str>) -> Option<Seq<char>> {
    match o {
        Some(s) => Some(s@),
        None => None,
    }
}

impl FilesystemType {
    /// The `-t` argument that `mount` takes for this filesystem, if any.
    pub open spec fn mount_type_spec(self) -> Option<Seq<char>> {
        match self {
            FilesystemType::Ext2 => Some("ext2"@),
            FilesystemType::Ext3 => Some("ext3"@),
            FilesystemType::Ext4 => Some("ext4"@),
            FilesystemType::XFS => Some("xfs"@),
            FilesystemType::NFS => Some("nfs4"@),
            FilesystemType::TmpFs => Some("tmpfs"@),
            _ => None,
        }
    }

    /// The tool that formats a device with this filesystem, if there is one.
    pub open spec fn mkfs_spec(self) -> Option<Seq<char>> {
        match self {
            FilesystemType::Ext2 => Some("mkfs.ext2"@),
            FilesystemType::Ext3 => Some("mkfs.ext3"@),
            FilesystemType::Ext4 => Some("mkfs.ext4"@),
            FilesystemType::XFS => Some("mkfs.xfs"@),
            _ => None,
        }
    }

    /// The `-o` argument that `mount` takes for this filesystem, if any.
    pub open spec fn mount_options_spec(self) -> Option<Seq<char>> {
        match self {
            FilesystemType::Bind => Some("bind"@),
            _ => None,
        }
    }

    /// The filesystem named by `lower`, a name already in lower case.
    pub fn from_lowercase(lower: &str) -> (r: FilesystemType)
        ensures
            r == fs_of_lower(lower@),
    {
        if same_text(lower, "ext2") {
            FilesystemType::Ext2
        } else if same_text(lower, "ext3") {
            FilesystemType::Ext3
        } else if same_text(lower, "ext4") {
            FilesystemType::Ext4
        } else if same_text(lower, "xfs") {
            FilesystemType::XFS
        } else if same_text(lower, "nfs") {
            FilesystemType::NFS
        } else if same_text(lower, "tmpfs") {
            FilesystemType::TmpFs
        } else if same_text(lower, "zfs") {
            FilesystemType::ZFS
        } else if same_text(lower, "bind") {
            FilesystemType::Bind
        } else {
            FilesystemType::Unknown
        }
    }

    /// The filesystem named by `name`, in any letter case.
    pub fn from_name(name: &str) -> (r: FilesystemType)
        ensures
            r == fs_of_lower(lower_of(name@)),
    {
        let lower = lowercase(name);
        FilesystemType::from_lowercase(lower.as_str())
    }

    pub fn mount_type(&self) -> (r: Option<&'static str>)
        ensures
            opt_text(r) == self.mount_type_spec(),
            r is None <==> (*self == FilesystemType::Bind || *self == FilesystemType::ZFS
                || *self == FilesystemType::Unknown),
    {
        match self {
            FilesystemType::Ext2 => Some("ext2"),
            FilesystemType::Ext3 => Some("ext3"),
            FilesystemType::Ext4 => Some("ext4"),
            FilesystemType::XFS => Some("xfs"),
            FilesystemType::NFS => Some("nfs4"),
            FilesystemType::TmpFs => Some("tmpfs"),
            _ => None,
        }
    }

    pub fn mkfs(&self) -> (r: Option<&'static str>)
        ensures
            opt_text(r) == self.mkfs_spec(),
    {
        match self {
            FilesystemType::Ext2 => Some("mkfs.ext2"),
            FilesystemType::Ext3 => Some("mkfs.ext3"),
            FilesystemType::Ext4 => Some("mkfs.ext4"),
            FilesystemType::XFS => Some("mkfs.xfs"),
            _ => None,
        }
    }

    pub fn mount_options(&self) -> (r: Option<&'static str>)
        ensures
            opt_text(r) == self.mount_options_spec(),
    {
        match self {
            FilesystemType::Bind => Some("bind"),
            _ => None,
        }
    }
}

} // verus!
