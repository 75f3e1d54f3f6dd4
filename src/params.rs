use crate::error::{AppError, AppErrorView};
use crate::filesystem::{fs_of_lower, lower_of, FilesystemType};
use crate::text::{chars_of, ends_with_text, has_prefix, has_suffix, same_text, starts_with_text, string_of};
use vstd::prelude::*;

verus! {

/// A request's key/value map, as a list of entries.
pub type Params = Vec<(String, String)>;

/// The view of a list of string pairs.
pub open spec fn pairs_view(p: Seq<(String, String)>) -> Seq<(Seq<char>, Seq<char>)> {
    p.map_values(|e: (String, String)| (e.0@, e.1@))
}

/// The value of the first entry of `p` whose key is `key`.
pub open spec fn lookup(p: Seq<(Seq<char>, Seq<char>)>, key: Seq<char>) -> Option<Seq<char>>
    decreases p.len(),
{
    if p.len() == 0 {
        None
    } else {
        match lookup(p.drop_last(), key) {
            Some(v) => Some(v),
            None => if p.last().0 == key {
                Some(p.last().1)
            } else {
                None
            },
        }
    }
}

/// The entries of `p` whose key begins with `prefix`, in order, with the
/// prefix taken off their keys.
pub open spec fn prefixed(p: Seq<(Seq<char>, Seq<char>)>, prefix: Seq<char>) -> Seq<
    (Seq<char>, Seq<char>),
>
    decreases p.len(),
{
    if p.len() == 0 {
        Seq::empty()
    } else {
        let rest = prefixed(p.drop_last(), prefix);
        let k = p.last().0;
        if has_prefix(k, prefix) {
            rest.push((k.subrange(prefix.len() as int, k.len() as int), p.last().1))
        } else {
            rest
        }
    }
}

/// A copy of `p`.
pub fn copy_pairs(p: &Vec<(String, String)>) -> (r: Vec<(String, String)>)
    ensures
        pairs_view(r@) == pairs_view(p@),
{
    let mut r: Vec<(String, String)> = Vec::new();
    let mut i: usize = 0;
    while i < p.len()
        invariant
            i <= p@.len(),
            pairs_view(r@) == pairs_view(p@.subrange(0, i as int)),
        decreases p@.len() - i,
    {
        let ghost before = r@;
        r.push((p[i].0.clone(), p[i].1.clone()));
        assert(pairs_view(r@) =~= pairs_view(before).push((p@[i as int].0@, p@[i as int].1@)));
        assert(pairs_view(p@.subrange(0, i + 1)) =~= pairs_view(p@.subrange(0, i as int)).push(
            (p@[i as int].0@, p@[i as int].1@),
        ));
        i = i + 1;
    }
    assert(p@.subrange(0, i as int) =~= p@);
    r
}

/// `p` without its entries under `key`, followed by the entry `(key, val)`.
pub open spec fn with_entry(p: Seq<(Seq<char>, Seq<char>)>, key: Seq<char>, val: Seq<char>) -> Seq<
    (Seq<char>, Seq<char>),
> {
    p.filter(|e: (Seq<char>, Seq<char>)| e.0 != key).push((key, val))
}

/// `p` without its entries under `key`, followed by the entry `(key, val)`.
pub fn set_entry(p: &Vec<(String, String)>, key: &str, val: &str) -> (r: Vec<(String, String)>)
    ensures
        pairs_view(r@) == with_entry(pairs_view(p@), key@, val@),
{
    let mut r: Vec<(String, String)> = Vec::new();
    let mut i: usize = 0;
    while i < p.len()
        invariant
            i <= p@.len(),
            pairs_view(r@) == pairs_view(p@.subrange(0, i as int)).filter(
                |e: (Seq<char>, Seq<char>)| e.0 != key@,
            ),
        decreases p@.len() - i,
    {
        proof {
            reveal(Seq::filter);
            assert(pairs_view(p@.subrange(0, i + 1)).drop_last() =~= pairs_view(
                p@.subrange(0, i as int),
            ));
        }
        if !same_text(p[i].0.as_str(), key) {
            let ghost before = r@;
            r.push((p[i].0.clone(), p[i].1.clone()));
            assert(pairs_view(r@) =~= pairs_view(before).push((p@[i as int].0@, p@[i as int].1@)));
        }
        i = i + 1;
    }
    assert(p@.subrange(0, i as int) =~= p@);
    let ghost before = r@;
    r.push((key.to_owned(), val.to_owned()));
    assert(pairs_view(r@) =~= pairs_view(before).push((key@, val@)));
    r
}

/// The value under `key` in `p`, if any.
pub fn get_param<'a>(p: &'a Params, key: &str) -> (r: Option<&'a String>)
    ensures
        match r {
            Some(v) => lookup(pairs_view(p@), key@) == Some(v@),
            None => lookup(pairs_view(p@), key@) is None,
        },
{
    let mut i: usize = 0;
    while i < p.len()
        invariant
            i <= p@.len(),
            lookup(pairs_view(p@.subrange(0, i as int)), key@) is None,
        decreases p@.len() - i,
    {
        assert(pairs_view(p@.subrange(0, i + 1)).drop_last() =~= pairs_view(
            p@.subrange(0, i as int),
        ));
        if same_text(p[i].0.as_str(), key) {
            assert(pairs_view(p@.subrange(0, i + 1)).last() == (p@[i as int].0@, p@[i as int].1@));
            assert(lookup(pairs_view(p@), key@) == Some(p@[i as int].1@)) by {
                lemma_lookup_extend(p@, key@, i as int + 1);
            }
            return Some(&p[i].1);
        }
        i = i + 1;
    }
    assert(p@.subrange(0, i as int) =~= p@);
    None
}

/// A first match within a prefix stays the first match of the whole list.
proof fn lemma_lookup_extend(p: Seq<(String, String)>, key: Seq<char>, i: int)
    requires
        0 <= i <= p.len(),
        lookup(pairs_view(p.subrange(0, i)), key) is Some,
    ensures
        lookup(pairs_view(p), key) == lookup(pairs_view(p.subrange(0, i)), key),
    decreases p.len() - i,
{
    if i < p.len() {
        assert(pairs_view(p.subrange(0, i + 1)).drop_last() =~= pairs_view(p.subrange(0, i)));
        lemma_lookup_extend(p, key, i + 1);
    } else {
        assert(p.subrange(0, i) =~= p);
    }
}

/// The entries of `p` whose key begins with `prefix`, with the prefix taken off.
pub fn prefixed_entries(p: &Params, prefix: &str) -> (r: Vec<(String, String)>)
    ensures
        pairs_view(r@) == prefixed(pairs_view(p@), prefix@),
{
    let mut r: Vec<(String, String)> = Vec::new();
    let pre = chars_of(prefix);
    let mut i: usize = 0;
    while i < p.len()
        invariant
            i <= p@.len(),
            pre@ == prefix@,
            pairs_view(r@) == prefixed(pairs_view(p@.subrange(0, i as int)), prefix@),
        decreases p@.len() - i,
    {
        assert(pairs_view(p@.subrange(0, i + 1)).drop_last() =~= pairs_view(
            p@.subrange(0, i as int),
        ));
        assert(pairs_view(p@.subrange(0, i + 1)).last() == (p@[i as int].0@, p@[i as int].1@));
        let k = chars_of(p[i].0.as_str());
        if starts_with_text(p[i].0.as_str(), prefix) {
            let key = string_of(&k, pre.len(), k.len());
            let val = p[i].1.clone();
            let ghost before = r@;
            r.push((key, val));
            assert(pairs_view(r@) =~= pairs_view(before).push((key@, val@)));
        }
        i = i + 1;
    }
    assert(p@.subrange(0, i as int) =~= p@);
    r
}

pub open spec fn zfs_parent_key() -> Seq<char> {
    "zfs.parentDataset"@
}

/// `v` with a `/` added at its end unless it already ends in one.
pub open spec fn with_trailing_slash(v: Seq<char>) -> Seq<char> {
    if has_suffix(v, "/"@) {
        v
    } else {
        v + "/"@
    }
}

/// Where and how the ZFS datasets of a storage class are created.
#[derive(Debug, Clone)]
pub struct ZFSOptions {
    /// Always ends in `/`.
    pub parent_dataset: String,
    /// Properties set on each dataset, `zfs.attr.<k>` parameters with the prefix taken off.
    pub attributes: Vec<(String, String)>,
}

impl ZFSOptions {
    pub open spec fn from_params_spec(self, p: Seq<(Seq<char>, Seq<char>)>) -> bool {
        &&& lookup(p, zfs_parent_key()) matches Some(v)
        &&& self.parent_dataset@ == with_trailing_slash(v)
        &&& pairs_view(self.attributes@) == prefixed(p, "zfs.attr."@)
    }

    pub fn new(params: &Params) -> (r: Result<ZFSOptions, AppError>)
        ensures
            match r {
                Ok(o) => o.from_params_spec(pairs_view(params@)),
                Err(e) => lookup(pairs_view(params@), zfs_parent_key()) is None && e@
                    == AppErrorView::Generic("ZFS Parent Dataset is required!"@),
            },
            r is Ok ==> has_suffix(r->Ok_0.parent_dataset@, "/"@),
    {
        let parent = match get_param(params, "zfs.parentDataset") {
            Some(v) => v,
            None => {
                return Err(AppError::generic("ZFS Parent Dataset is required!"));
            },
        };
        let mut parent_dataset = parent.clone();
        if !ends_with_text(parent.as_str(), "/") {
            parent_dataset.append("/");
            proof {
                reveal_strlit("/");
                assert(has_suffix(parent_dataset@, "/"@)) by {
                    assert(parent_dataset@.subrange(
                        parent_dataset@.len() - 1,
                        parent_dataset@.len() as int,
                    ) =~= "/"@);
                }
            }
        }
        let attributes = prefixed_entries(params, "zfs.attr.");
        Ok(ZFSOptions { parent_dataset, attributes })
    }
}

/// How a volume is exported over iSCSI and formatted on the node.
#[derive(Debug, Clone)]
pub struct ISCSIOptions {
    pub base_iqn: String,
    pub target_portal: String,
    /// Target portal group attributes, `attr.<k>` parameters with the prefix taken off.
    pub attributes: Vec<(String, String)>,
    pub fs_type: FilesystemType,
}

/// The filesystem that an optional `fsType` parameter asks for.
pub open spec fn fs_type_of(v: Option<Seq<char>>) -> FilesystemType {
    match v {
        Some(name) => fs_of_lower(lower_of(name)),
        None => FilesystemType::Ext4,
    }
}

impl ISCSIOptions {
    pub open spec fn from_params_spec(self, p: Seq<(Seq<char>, Seq<char>)>) -> bool {
        &&& lookup(p, "baseIqn"@) == Some(self.base_iqn@)
        &&& lookup(p, "targetPortal"@) == Some(self.target_portal@)
        &&& pairs_view(self.attributes@) == prefixed(p, "attr."@)
        &&& self.fs_type == fs_type_of(lookup(p, "fsType"@))
    }

    pub fn new(params: &Params) -> (r: Result<ISCSIOptions, AppError>)
        ensures
            match r {
                Ok(o) => o.from_params_spec(pairs_view(params@)),
                Err(e) => if lookup(pairs_view(params@), "baseIqn"@) is None {
                    e@ == AppErrorView::Generic("Base IQN is required!"@)
                } else {
                    lookup(pairs_view(params@), "targetPortal"@) is None && e@
                        == AppErrorView::Generic("Target Portal is required!"@)
                },
            },
    {
        let base_iqn = match get_param(params, "baseIqn") {
            Some(v) => v.clone(),
            None => {
                return Err(AppError::generic("Base IQN is required!"));
            },
        };
        let target_portal = match get_param(params, "targetPortal") {
            Some(v) => v.clone(),
            None => {
                return Err(AppError::generic("Target Portal is required!"));
            },
        };
        let fs_type = match get_param(params, "fsType") {
            Some(v) => FilesystemType::from_name(v.as_str()),
            None => FilesystemType::Ext4,
        };
        let attributes = prefixed_entries(params, "attr.");
        Ok(ISCSIOptions { base_iqn, target_portal, attributes, fs_type })
    }
}

/// The export options used when a storage class names none.
pub open spec fn default_export() -> Seq<char> {
    NFSOptions::EXPORT_DEFAULTS@ + ",rw="@ + NFSOptions::LOCAL_CIDRS@ + ",ro"@
}

/// Where an NFS volume is served from, and with which export options.
#[derive(Debug, Clone)]
pub struct NFSOptions {
    pub host: String,
    pub export: String,
}

impl NFSOptions {
    pub const EXPORT_DEFAULTS: &'static str = "wdelay,nohide,crossmnt,no_root_squash,no_subtree_check,mountpoint,sec=sys,rw,secure,no_root_squash,no_all_squash";

    pub const LOCAL_CIDRS: &'static str = "@192.168.0.0/16:@172.16.0.0/12:@10.0.0.0/8";

    pub open spec fn from_params_spec(self, p: Seq<(Seq<char>, Seq<char>)>) -> bool {
        &&& lookup(p, "host"@) == Some(self.host@)
        &&& self.export@ == match lookup(p, "export"@) {
            Some(e) => e,
            None => default_export(),
        }
    }

    pub fn new(params: &Params) -> (r: Result<NFSOptions, AppError>)
        ensures
            match r {
                Ok(o) => o.from_params_spec(pairs_view(params@)),
                Err(e) => lookup(pairs_view(params@), "host"@) is None && e@
                    == AppErrorView::Generic("NFS Host is required!"@),
            },
    {
        let host = match get_param(params, "host") {
            Some(v) => v.clone(),
            None => {
                return Err(AppError::generic("NFS Host is required!"));
            },
        };
        let export = match get_param(params, "export") {
            Some(v) => v.clone(),
            None => {
                let mut e = String::from_str(NFSOptions::EXPORT_DEFAULTS);
                e.append(",rw=");
                e.append(NFSOptions::LOCAL_CIDRS);
                e.append(",ro");
                e
            },
        };
        Ok(NFSOptions { host, export })
    }
}

} // verus!
