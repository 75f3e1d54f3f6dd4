use crate::filesystem::FilesystemType;
use crate::params::{pairs_view, ISCSIOptions, NFSOptions, ZFSOptions};
use crate::storage::StorageInfo;
use vstd::prelude::*;
use vstd::utf8::{decode_utf8, encode_utf8, valid_utf8};

verus! {

/// The mathematical value of the ZFS options of a storage class.
pub struct ZfsView {
    pub parent: Seq<char>,
    pub attrs: Seq<(Seq<char>, Seq<char>)>,
}

/// The mathematical value of a [`StorageInfo`].
pub enum InfoView {
    ISCSI {
        base_iqn: Seq<char>,
        portal: Seq<char>,
        attrs: Seq<(Seq<char>, Seq<char>)>,
        fs: FilesystemType,
        zfs: ZfsView,
    },
    NFS { host: Seq<char>, export: Seq<char>, zfs: ZfsView },
}

pub open spec fn zfs_view(z: ZFSOptions) -> ZfsView {
    ZfsView { parent: z.parent_dataset@, attrs: pairs_view(z.attributes@) }
}

pub open spec fn info_view(i: StorageInfo) -> InfoView {
    match i {
        StorageInfo::ISCSI { options, zfs } => InfoView::ISCSI {
            base_iqn: options.base_iqn@,
            portal: options.target_portal@,
            attrs: pairs_view(options.attributes@),
            fs: options.fs_type,
            zfs: zfs_view(zfs),
        },
        StorageInfo::NFS { options, zfs } => InfoView::NFS {
            host: options.host@,
            export: options.export@,
            zfs: zfs_view(zfs),
        },
    }
}

/// `n` as eight bytes, most significant first.
#[verifier::opaque]
pub open spec fn be64(n: u64) -> Seq<u8> {
    seq![
        (n >> 56u64) as u8,
        (n >> 48u64) as u8,
        (n >> 40u64) as u8,
        (n >> 32u64) as u8,
        (n >> 24u64) as u8,
        (n >> 16u64) as u8,
        (n >> 8u64) as u8,
        n as u8,
    ]
}

/// The number that the first eight bytes of `b` hold, most significant first.
#[verifier::opaque]
pub open spec fn from_be64(b: Seq<u8>) -> u64 {
    ((b[0] as u64) << 56u64) | ((b[1] as u64) << 48u64) | ((b[2] as u64) << 40u64) | ((
    b[3] as u64) << 32u64) | ((b[4] as u64) << 24u64) | ((b[5] as u64) << 16u64) | ((b[6] as u64)
        << 8u64) | (b[7] as u64)
}

proof fn lemma_be64(n: u64, rest: Seq<u8>)
    ensures
        be64(n).len() == 8,
        from_be64(be64(n) + rest) == n,
        (be64(n) + rest).subrange(8, (be64(n) + rest).len() as int) == rest,
{
    reveal(be64);
    reveal(from_be64);
    let b = be64(n) + rest;
    assert(b[0] == (n >> 56u64) as u8);
    assert(b[7] == n as u8);
    assert(((((n >> 56u64) as u8) as u64) << 56u64) | ((((n >> 48u64) as u8) as u64) << 48u64) | ((
    ((n >> 40u64) as u8) as u64) << 40u64) | ((((n >> 32u64) as u8) as u64) << 32u64) | ((((n
        >> 24u64) as u8) as u64) << 24u64) | ((((n >> 16u64) as u8) as u64) << 16u64) | ((((n
        >> 8u64) as u8) as u64) << 8u64) | ((n as u8) as u64) == n) by (bit_vector);
    assert(b.subrange(8, b.len() as int) =~= rest);
}

/// Whether every text of `v` has fewer UTF-8 bytes than a `u64` can count.
pub open spec fn texts_fit(p: Seq<(Seq<char>, Seq<char>)>) -> bool {
    &&& p.len() <= u64::MAX
    &&& forall|i: int|
        0 <= i < p.len() ==> encode_utf8(#[trigger] p[i].0).len() <= u64::MAX && encode_utf8(
            p[i].1,
        ).len() <= u64::MAX
}

pub open spec fn text_fits(s: Seq<char>) -> bool {
    encode_utf8(s).len() <= u64::MAX
}

pub open spec fn fits(v: InfoView) -> bool {
    match v {
        InfoView::ISCSI { base_iqn, portal, attrs, zfs, .. } => text_fits(base_iqn) && text_fits(
            portal,
        ) && texts_fit(attrs) && text_fits(zfs.parent) && texts_fit(zfs.attrs),
        InfoView::NFS { host, export, zfs } => text_fits(host) && text_fits(export) && text_fits(
            zfs.parent,
        ) && texts_fit(zfs.attrs),
    }
}

/// A text: its UTF-8 length, then its UTF-8 bytes.
#[verifier::opaque]
pub open spec fn enc_text(s: Seq<char>) -> Seq<u8> {
    be64(encode_utf8(s).len() as u64) + encode_utf8(s)
}

/// The entries of a list, each key then its value.
pub open spec fn enc_entries(p: Seq<(Seq<char>, Seq<char>)>) -> Seq<u8>
    decreases p.len(),
{
    if p.len() == 0 {
        Seq::empty()
    } else {
        enc_text(p[0].0) + enc_text(p[0].1) + enc_entries(p.drop_first())
    }
}

/// A list: its length, then its entries.
pub open spec fn enc_list(p: Seq<(Seq<char>, Seq<char>)>) -> Seq<u8> {
    be64(p.len() as u64) + enc_entries(p)
}

pub open spec fn fs_tag(fs: FilesystemType) -> u8 {
    match fs {
        FilesystemType::Ext2 => 0,
        FilesystemType::Ext3 => 1,
        FilesystemType::Ext4 => 2,
        FilesystemType::XFS => 3,
        FilesystemType::NFS => 4,
        FilesystemType::ZFS => 5,
        FilesystemType::TmpFs => 6,
        FilesystemType::Bind => 7,
        FilesystemType::Unknown => 8,
    }
}

pub open spec fn fs_of_tag(t: u8) -> Option<FilesystemType> {
    if t == 0 {
        Some(FilesystemType::Ext2)
    } else if t == 1 {
        Some(FilesystemType::Ext3)
    } else if t == 2 {
        Some(FilesystemType::Ext4)
    } else if t == 3 {
        Some(FilesystemType::XFS)
    } else if t == 4 {
        Some(FilesystemType::NFS)
    } else if t == 5 {
        Some(FilesystemType::ZFS)
    } else if t == 6 {
        Some(FilesystemType::TmpFs)
    } else if t == 7 {
        Some(FilesystemType::Bind)
    } else if t == 8 {
        Some(FilesystemType::Unknown)
    } else {
        None
    }
}

pub open spec fn enc_zfs(z: ZfsView) -> Seq<u8> {
    enc_text(z.parent) + enc_list(z.attrs)
}

/// The record kept for a storage class.
pub open spec fn enc_info(v: InfoView) -> Seq<u8> {
    match v {
        InfoView::ISCSI { base_iqn, portal, attrs, fs, zfs } => seq![0u8] + enc_text(base_iqn)
            + enc_text(portal) + enc_list(attrs) + seq![fs_tag(fs)] + enc_zfs(zfs),
        InfoView::NFS { host, export, zfs } => seq![1u8] + enc_text(host) + enc_text(export)
            + enc_zfs(zfs),
    }
}

#[verifier::opaque]
pub open spec fn dec_u64(b: Seq<u8>) -> Option<(u64, Seq<u8>)> {
    if b.len() >= 8 {
        Some((from_be64(b), b.subrange(8, b.len() as int)))
    } else {
        None
    }
}

#[verifier::opaque]
pub open spec fn dec_text(b: Seq<u8>) -> Option<(Seq<char>, Seq<u8>)> {
    match dec_u64(b) {
        Some((n, r)) => if n <= r.len() && valid_utf8(r.subrange(0, n as int)) {
            Some((decode_utf8(r.subrange(0, n as int)), r.subrange(n as int, r.len() as int)))
        } else {
            None
        },
        None => None,
    }
}

pub open spec fn dec_entries(b: Seq<u8>, n: nat) -> Option<(Seq<(Seq<char>, Seq<char>)>, Seq<u8>)>
    decreases n,
{
    if n == 0 {
        Some((Seq::empty(), b))
    } else {
        match dec_text(b) {
            Some((k, r1)) => match dec_text(r1) {
                Some((v, r2)) => match dec_entries(r2, (n - 1) as nat) {
                    Some((es, r3)) => Some((seq![(k, v)] + es, r3)),
                    None => None,
                },
                None => None,
            },
            None => None,
        }
    }
}

pub open spec fn dec_list(b: Seq<u8>) -> Option<(Seq<(Seq<char>, Seq<char>)>, Seq<u8>)> {
    match dec_u64(b) {
        Some((n, r)) => dec_entries(r, n as nat),
        None => None,
    }
}

pub open spec fn dec_zfs(b: Seq<u8>) -> Option<(ZfsView, Seq<u8>)> {
    match dec_text(b) {
        Some((parent, r1)) => match dec_list(r1) {
            Some((attrs, r2)) => Some((ZfsView { parent, attrs }, r2)),
            None => None,
        },
        None => None,
    }
}

/// The storage class that a record holds, if it is one.
pub open spec fn dec_info(b: Seq<u8>) -> Option<InfoView> {
    if b.len() == 0 {
        None
    } else if b[0] == 0 {
        let r0 = b.subrange(1, b.len() as int);
        match dec_text(r0) {
            Some((base_iqn, r1)) => match dec_text(r1) {
                Some((portal, r2)) => match dec_list(r2) {
                    Some((attrs, r3)) => if r3.len() > 0 && fs_of_tag(r3[0]) is Some {
                        match dec_zfs(r3.subrange(1, r3.len() as int)) {
                            Some((zfs, r4)) => if r4.len() == 0 {
                                Some(
                                    InfoView::ISCSI {
                                        base_iqn,
                                        portal,
                                        attrs,
                                        fs: fs_of_tag(r3[0])->0,
                                        zfs,
                                    },
                                )
                            } else {
                                None
                            },
                            None => None,
                        }
                    } else {
                        None
                    },
                    None => None,
                },
                None => None,
            },
            None => None,
        }
    } else if b[0] == 1 {
        let r0 = b.subrange(1, b.len() as int);
        match dec_text(r0) {
            Some((host, r1)) => match dec_text(r1) {
                Some((export, r2)) => match dec_zfs(r2) {
                    Some((zfs, r3)) => if r3.len() == 0 {
                        Some(InfoView::NFS { host, export, zfs })
                    } else {
                        None
                    },
                    None => None,
                },
                None => None,
            },
            None => None,
        }
    } else {
        None
    }
}

proof fn lemma_text(s: Seq<char>, rest: Seq<u8>)
    requires
        text_fits(s),
    ensures
        dec_text(enc_text(s) + rest) == Some((s, rest)),
{
    reveal(enc_text);
    reveal(dec_text);
    reveal(dec_u64);
    let e = encode_utf8(s);
    let n = e.len() as u64;
    assert(enc_text(s) + rest =~= be64(n) + (e + rest));
    lemma_be64(n, e + rest);
    vstd::utf8::encode_utf8_valid_utf8(s);
    vstd::utf8::encode_utf8_decode_utf8(s);
    assert(n as int == e.len());
    let b = enc_text(s) + rest;
    assert(dec_u64(b) == Some((n, e + rest)));
    assert((e + rest).subrange(0, n as int) =~= e);
    assert((e + rest).subrange(n as int, (e + rest).len() as int) =~= rest);
    assert(valid_utf8(e));
    assert(decode_utf8(e) == s);
}

proof fn lemma_entries(p: Seq<(Seq<char>, Seq<char>)>, rest: Seq<u8>)
    requires
        texts_fit(p),
    ensures
        dec_entries(enc_entries(p) + rest, p.len()) == Some((p, rest)),
    decreases p.len(),
{
    if p.len() > 0 {
        let tail = p.drop_first();
        assert(texts_fit(tail)) by {
            assert forall|i: int| 0 <= i < tail.len() implies encode_utf8(#[trigger] tail[i].0).len()
                <= u64::MAX && encode_utf8(tail[i].1).len() <= u64::MAX by {
                assert(tail[i] == p[i + 1]);
            }
        }
        assert(text_fits(p[0].0) && text_fits(p[0].1));
        lemma_entries(tail, rest);
        let e2 = enc_text(p[0].1) + enc_entries(tail) + rest;
        assert(enc_entries(p) + rest =~= enc_text(p[0].0) + e2);
        lemma_text(p[0].0, e2);
        assert(e2 =~= enc_text(p[0].1) + (enc_entries(tail) + rest));
        lemma_text(p[0].1, enc_entries(tail) + rest);
        assert(seq![(p[0].0, p[0].1)] + tail =~= p);
    }
}

proof fn lemma_list(p: Seq<(Seq<char>, Seq<char>)>, rest: Seq<u8>)
    requires
        texts_fit(p),
    ensures
        dec_list(enc_list(p) + rest) == Some((p, rest)),
{
    reveal(dec_u64);
    assert(enc_list(p) + rest =~= be64(p.len() as u64) + (enc_entries(p) + rest));
    lemma_be64(p.len() as u64, enc_entries(p) + rest);
    lemma_entries(p, rest);
    assert((p.len() as u64) as nat == p.len());
    assert(dec_u64(enc_list(p) + rest) == Some((p.len() as u64, enc_entries(p) + rest)));
}

proof fn lemma_zfs(z: ZfsView, rest: Seq<u8>)
    requires
        text_fits(z.parent),
        texts_fit(z.attrs),
    ensures
        dec_zfs(enc_zfs(z) + rest) == Some((z, rest)),
{
    assert(enc_zfs(z) + rest =~= enc_text(z.parent) + (enc_list(z.attrs) + rest));
    lemma_text(z.parent, enc_list(z.attrs) + rest);
    lemma_list(z.attrs, rest);
}

/// Decoding the record of a storage class gives that storage class back.
pub proof fn storage_info_round_trip(v: InfoView)
    requires
        fits(v),
    ensures
        dec_info(enc_info(v)) == Some(v),
{
    let b = enc_info(v);
    let empty = Seq::<u8>::empty();
    match v {
        InfoView::ISCSI { base_iqn, portal, attrs, fs, zfs } => {
            let r3 = seq![fs_tag(fs)] + enc_zfs(zfs);
            let r2 = enc_list(attrs) + r3;
            let r1 = enc_text(portal) + r2;
            assert(b.subrange(1, b.len() as int) =~= enc_text(base_iqn) + r1);
            lemma_text(base_iqn, r1);
            lemma_text(portal, r2);
            lemma_list(attrs, r3);
            assert(r3.subrange(1, r3.len() as int) =~= enc_zfs(zfs) + empty);
            lemma_zfs(zfs, empty);
            assert(fs_of_tag(fs_tag(fs)) == Some(fs));
        },
        InfoView::NFS { host, export, zfs } => {
            let r2 = enc_zfs(zfs) + empty;
            let r1 = enc_text(export) + r2;
            assert(b.subrange(1, b.len() as int) =~= enc_text(host) + r1);
            lemma_text(host, r1);
            lemma_text(export, r2);
            assert(enc_zfs(zfs) + empty =~= enc_zfs(zfs));
            lemma_zfs(zfs, empty);
        },
    }
}

proof fn lemma_entries_push(p: Seq<(Seq<char>, Seq<char>)>, x: (Seq<char>, Seq<char>))
    ensures
        enc_entries(p.push(x)) == enc_entries(p) + enc_text(x.0) + enc_text(x.1),
    decreases p.len(),
{
    if p.len() == 0 {
        assert(p.push(x).drop_first() =~= Seq::<(Seq<char>, Seq<char>)>::empty());
        assert(p.push(x)[0] == x);
        assert(enc_entries(Seq::<(Seq<char>, Seq<char>)>::empty()) == Seq::<u8>::empty());
        assert(enc_entries(p.push(x)) =~= enc_entries(p) + enc_text(x.0) + enc_text(x.1));
    } else {
        lemma_entries_push(p.drop_first(), x);
        assert(p.push(x).drop_first() =~= p.drop_first().push(x));
        assert(p.push(x)[0] == p[0]);
        assert(enc_entries(p.push(x)) =~= enc_entries(p) + enc_text(x.0) + enc_text(x.1));
    }
}

fn push_u64(out: &mut Vec<u8>, n: u64)
    ensures
        final(out)@ == old(out)@ + be64(n),
{
    proof {
        reveal(be64);
    }
    out.push((n >> 56u64) as u8);
    out.push((n >> 48u64) as u8);
    out.push((n >> 40u64) as u8);
    out.push((n >> 32u64) as u8);
    out.push((n >> 24u64) as u8);
    out.push((n >> 16u64) as u8);
    out.push((n >> 8u64) as u8);
    out.push(n as u8);
    assert(final(out)@ =~= old(out)@ + be64(n));
}

fn push_text(out: &mut Vec<u8>, s: &str)
    ensures
        final(out)@ == old(out)@ + enc_text(s@),
{
    proof {
        reveal(enc_text);
    }
    let b = s.as_bytes();
    let ghost start = out@;
    push_u64(out, b.len() as u64);
    let mut i: usize = 0;
    while i < b.len()
        invariant
            b@ == encode_utf8(s@),
            i <= b@.len(),
            out@ == start + be64(b@.len() as u64) + b@.subrange(0, i as int),
        decreases b@.len() - i,
    {
        out.push(b[i]);
        assert(out@ =~= start + be64(b@.len() as u64) + b@.subrange(0, i + 1));
        i = i + 1;
    }
    assert(b@.subrange(0, i as int) =~= b@);
    assert(out@ =~= start + enc_text(s@));
}

fn push_list(out: &mut Vec<u8>, p: &Vec<(String, String)>)
    ensures
        final(out)@ == old(out)@ + enc_list(pairs_view(p@)),
{
    let ghost start = out@;
    push_u64(out, p.len() as u64);
    let mut i: usize = 0;
    while i < p.len()
        invariant
            i <= p@.len(),
            out@ == start + be64(p@.len() as u64) + enc_entries(pairs_view(p@.subrange(0, i as int))),
        decreases p@.len() - i,
    {
        let ghost before = out@;
        push_text(out, p[i].0.as_str());
        push_text(out, p[i].1.as_str());
        proof {
            let x = (p@[i as int].0@, p@[i as int].1@);
            assert(pairs_view(p@.subrange(0, i + 1)) =~= pairs_view(p@.subrange(0, i as int)).push(x));
            lemma_entries_push(pairs_view(p@.subrange(0, i as int)), x);
            assert(out@ =~= start + be64(p@.len() as u64) + enc_entries(pairs_view(p@.subrange(0, i + 1))));
        }
        i = i + 1;
    }
    assert(p@.subrange(0, i as int) =~= p@);
    assert(out@ =~= start + enc_list(pairs_view(p@)));
}

fn fs_tag_of(fs: FilesystemType) -> (r: u8)
    ensures
        r == fs_tag(fs),
{
    match fs {
        FilesystemType::Ext2 => 0,
        FilesystemType::Ext3 => 1,
        FilesystemType::Ext4 => 2,
        FilesystemType::XFS => 3,
        FilesystemType::NFS => 4,
        FilesystemType::ZFS => 5,
        FilesystemType::TmpFs => 6,
        FilesystemType::Bind => 7,
        FilesystemType::Unknown => 8,
    }
}

fn fs_from_tag(t: u8) -> (r: Option<FilesystemType>)
    ensures
        r == fs_of_tag(t),
{
    if t == 0 {
        Some(FilesystemType::Ext2)
    } else if t == 1 {
        Some(FilesystemType::Ext3)
    } else if t == 2 {
        Some(FilesystemType::Ext4)
    } else if t == 3 {
        Some(FilesystemType::XFS)
    } else if t == 4 {
        Some(FilesystemType::NFS)
    } else if t == 5 {
        Some(FilesystemType::ZFS)
    } else if t == 6 {
        Some(FilesystemType::TmpFs)
    } else if t == 7 {
        Some(FilesystemType::Bind)
    } else if t == 8 {
        Some(FilesystemType::Unknown)
    } else {
        None
    }
}

/// The bytes of `b` from `p` on.
pub open spec fn tail(b: Seq<u8>, p: int) -> Seq<u8> {
    b.subrange(p, b.len() as int)
}

fn read_u64(b: &Vec<u8>, pos: usize) -> (r: Option<(u64, usize)>)
    requires
        pos <= b@.len(),
    ensures
        match r {
            Some((n, p)) => pos <= p <= b@.len() && dec_u64(tail(b@, pos as int)) == Some(
                (n, tail(b@, p as int)),
            ),
            None => dec_u64(tail(b@, pos as int)) is None,
        },
{
    proof {
        reveal(dec_u64);
        reveal(from_be64);
    }
    if b.len() - pos < 8 {
        return None;
    }
    let n = ((b[pos] as u64) << 56u64) | ((b[pos + 1] as u64) << 48u64) | ((b[pos + 2] as u64)
        << 40u64) | ((b[pos + 3] as u64) << 32u64) | ((b[pos + 4] as u64) << 24u64) | ((b[pos
        + 5] as u64) << 16u64) | ((b[pos + 6] as u64) << 8u64) | (b[pos + 7] as u64);
    let ghost t = tail(b@, pos as int);
    assert(t[0] == b@[pos as int] && t[1] == b@[pos + 1] && t[2] == b@[pos + 2] && t[3] == b@[pos
        + 3] && t[4] == b@[pos + 4] && t[5] == b@[pos + 5] && t[6] == b@[pos + 6] && t[7] == b@[pos
        + 7]);
    assert(t.subrange(8, t.len() as int) =~= tail(b@, pos + 8));
    Some((n, pos + 8))
}

/// The text that `std::str::from_utf8` decodes from `bytes`, if they are UTF-8.
#[verifier::external_body]
fn text_from_utf8(bytes: &[u8]) -> (r: Option<String>)
    ensures
        r is Some <==> valid_utf8(bytes@),
        r matches Some(s) ==> s@ == decode_utf8(bytes@),
{
    std::str::from_utf8(bytes).ok().map(|s| s.to_string())
}

fn read_text(b: &Vec<u8>, pos: usize) -> (r: Option<(String, usize)>)
    requires
        pos <= b@.len(),
    ensures
        match r {
            Some((s, p)) => pos <= p <= b@.len() && dec_text(tail(b@, pos as int)) == Some(
                (s@, tail(b@, p as int)),
            ),
            None => dec_text(tail(b@, pos as int)) is None,
        },
{
    proof {
        reveal(dec_text);
    }
    let (n, start) = match read_u64(b, pos) {
        Some(x) => x,
        None => {
            return None;
        },
    };
    let ghost r = tail(b@, start as int);
    if n > (b.len() - start) as u64 {
        return None;
    }
    let end = start + n as usize;
    let mut bytes: Vec<u8> = Vec::new();
    let mut i: usize = start;
    while i < end
        invariant
            start <= i <= end <= b@.len(),
            bytes@ == b@.subrange(start as int, i as int),
        decreases end - i,
    {
        bytes.push(b[i]);
        assert(bytes@ =~= b@.subrange(start as int, i + 1));
        i = i + 1;
    }
    assert(r.subrange(0, n as int) =~= bytes@);
    assert(r.subrange(n as int, r.len() as int) =~= tail(b@, end as int));
    match text_from_utf8(bytes.as_slice()) {
        Some(s) => Some((s, end)),
        None => None,
    }
}

fn read_list(b: &Vec<u8>, pos: usize) -> (r: Option<(Vec<(String, String)>, usize)>)
    requires
        pos <= b@.len(),
    ensures
        match r {
            Some((es, p)) => pos <= p <= b@.len() && dec_list(tail(b@, pos as int)) == Some(
                (pairs_view(es@), tail(b@, p as int)),
            ),
            None => dec_list(tail(b@, pos as int)) is None,
        },
{
    let (n, start) = match read_u64(b, pos) {
        Some(x) => x,
        None => {
            return None;
        },
    };
    assert(dec_list(tail(b@, pos as int)) == dec_entries(tail(b@, start as int), n as nat));
    let mut es: Vec<(String, String)> = Vec::new();
    let mut p = start;
    let mut i: u64 = 0;
    while i < n
        invariant
            start <= p <= b@.len(),
            i <= n,
            dec_list(tail(b@, pos as int)) == dec_entries(tail(b@, start as int), n as nat),
            dec_entries(tail(b@, start as int), n as nat) == match dec_entries(
                tail(b@, p as int),
                (n - i) as nat,
            ) {
                Some((rest, t)) => Some((pairs_view(es@) + rest, t)),
                None => None,
            },
        decreases n - i,
    {
        let (k, pos1) = match read_text(b, p) {
            Some(x) => x,
            None => {
                assert(dec_entries(tail(b@, p as int), (n - i) as nat) is None);
                return None;
            },
        };
        let (v, pos2) = match read_text(b, pos1) {
            Some(x) => x,
            None => {
                assert(dec_entries(tail(b@, p as int), (n - i) as nat) is None);
                return None;
            },
        };
        let ghost before = es@;
        es.push((k, v));
        proof {
            assert(pairs_view(es@) =~= pairs_view(before).push((k@, v@)));
            let m = (n - i) as nat;
            match dec_entries(tail(b@, pos2 as int), (m - 1) as nat) {
                Some((rest, t)) => {
                    assert(pairs_view(before) + (seq![(k@, v@)] + rest) =~= pairs_view(es@) + rest);
                },
                None => {},
            }
        }
        p = pos2;
        i = i + 1;
    }
    assert(pairs_view(es@) + Seq::empty() =~= pairs_view(es@));
    Some((es, p))
}

impl StorageInfo {
    /// The record kept for this storage class.
    pub fn into_bytes(&self) -> (r: Vec<u8>)
        ensures
            r@ == enc_info(info_view(*self)),
    {
        let mut out: Vec<u8> = Vec::new();
        match self {
            StorageInfo::ISCSI { options, zfs } => {
                out.push(0u8);
                push_text(&mut out, options.base_iqn.as_str());
                push_text(&mut out, options.target_portal.as_str());
                push_list(&mut out, &options.attributes);
                out.push(fs_tag_of(options.fs_type));
                push_text(&mut out, zfs.parent_dataset.as_str());
                push_list(&mut out, &zfs.attributes);
            },
            StorageInfo::NFS { options, zfs } => {
                out.push(1u8);
                push_text(&mut out, options.host.as_str());
                push_text(&mut out, options.export.as_str());
                push_text(&mut out, zfs.parent_dataset.as_str());
                push_list(&mut out, &zfs.attributes);
            },
        }
        assert(out@ =~= enc_info(info_view(*self)));
        out
    }

    /// The storage class that a record holds, or none when it holds none.
    pub fn from_bytes(b: &Vec<u8>) -> (r: Option<StorageInfo>)
        ensures
            match r {
                Some(i) => dec_info(b@) == Some(info_view(i)),
                None => dec_info(b@) is None,
            },
    {
        if b.len() == 0 {
            return None;
        }
        assert(tail(b@, 1) =~= b@.subrange(1, b@.len() as int));
        if b[0] == 0 {
            let (base_iqn, pos1) = match read_text(b, 1) {
                Some(x) => x,
                None => {
                    return None;
                },
            };
            let (target_portal, pos2) = match read_text(b, pos1) {
                Some(x) => x,
                None => {
                    return None;
                },
            };
            let (attributes, pos3) = match read_list(b, pos2) {
                Some(x) => x,
                None => {
                    return None;
                },
            };
            if pos3 >= b.len() {
                return None;
            }
            let fs_type = match fs_from_tag(b[pos3]) {
                Some(f) => f,
                None => {
                    return None;
                },
            };
            assert(tail(b@, pos3 as int)[0] == b@[pos3 as int]);
            assert(tail(b@, pos3 as int).subrange(1, tail(b@, pos3 as int).len() as int) =~= tail(
                b@,
                pos3 + 1,
            ));
            let (parent_dataset, pos4) = match read_text(b, pos3 + 1) {
                Some(x) => x,
                None => {
                    return None;
                },
            };
            let (zattrs, pos5) = match read_list(b, pos4) {
                Some(x) => x,
                None => {
                    return None;
                },
            };
            if pos5 != b.len() {
                return None;
            }
            Some(
                StorageInfo::ISCSI {
                    options: ISCSIOptions { base_iqn, target_portal, attributes, fs_type },
                    zfs: ZFSOptions { parent_dataset, attributes: zattrs },
                },
            )
        } else if b[0] == 1 {
            let (host, pos1) = match read_text(b, 1) {
                Some(x) => x,
                None => {
                    return None;
                },
            };
            let (export, pos2) = match read_text(b, pos1) {
                Some(x) => x,
                None => {
                    return None;
                },
            };
            let (parent_dataset, pos3) = match read_text(b, pos2) {
                Some(x) => x,
                None => {
                    return None;
                },
            };
            let (zattrs, pos4) = match read_list(b, pos3) {
                Some(x) => x,
                None => {
                    return None;
                },
            };
            if pos4 != b.len() {
                return None;
            }
            Some(
                StorageInfo::NFS {
                    options: NFSOptions { host, export },
                    zfs: ZFSOptions { parent_dataset, attributes: zattrs },
                },
            )
        } else {
            None
        }
    }
}

} // verus!
