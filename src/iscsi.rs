use crate::error::{AppError, AppErrorView};
use crate::text::{cat2, cat3, chars_of, dash_slashes, dashed, same_text, texts};
use vstd::prelude::*;

verus! {

/// What `regex::Regex::is_match` returns for the compiled `pattern` on
/// `text`; false where `pattern` does not compile.
pub uninterp spec fn regex_finds(pattern: Seq<char>, text: Seq<char>) -> bool;

/// What the capture group `group` holds in each match of `pattern` in
/// `text`, in order, as `regex::Regex::captures_iter` finds them (an empty
/// text where the group took no part in a match); no matches where
/// `pattern` does not compile.
pub uninterp spec fn regex_group(pattern: Seq<char>, text: Seq<char>, group: Seq<char>) -> Seq<
    Seq<char>,
>;

/// Relies on `regex::Regex::is_match`, after `regex::Regex::new`.
#[verifier::external_body]
fn pattern_finds(pattern: &str, text: &str) -> (r: bool)
    ensures
        r == regex_finds(pattern@, text@),
{
    regex::Regex::new(pattern).map(|re| re.is_match(text)).unwrap_or(false)
}

/// Relies on `regex::Regex::captures_iter`, after `regex::Regex::new`: the
/// text of the named group in each match.
#[verifier::external_body]
fn pattern_group(pattern: &str, text: &str, group: &str) -> (r: Vec<String>)
    ensures
        texts(r@) == regex_group(pattern@, text@, group@),
{
    match regex::Regex::new(pattern) {
        Ok(re) => re.captures_iter(text).map(
            |c| c.name(group).map_or(String::new(), |m| m.as_str().to_string()),
        ).collect(),
        Err(_) => Vec::new(),
    }
}

/// The prompt of the targetcli shell.
pub const TARGETCLI_PROMPT: &'static str = "^/(\\S)*>";

/// A target line of `ls /iscsi 1`.
pub const IQN_LINE: &'static str = "o-\\s+(?P<iqn>\\S+)\\s\\.+\\s\\[TPGs: (?P<tpgs>\\d+)]";

/// An attribute of a target portal group.
pub const TPG_ATTRIBUTE: &'static str = "(?P<attr>[a-z_0-9]+)=(?P<val>\\d+)";

/// What targetcli prints once it has set an attribute.
pub const PARAMETER_SET_SUCCESS: &'static str = "Parameter \\w+ is now '\\d+'";

/// One line of `iscsiadm -m session`.
pub const SESSION_LIST: &'static str = " (?P<ip>\\d+\\.\\d+\\.\\d+\\.\\d+):(?P<port>\\d+),\\d+ (?P<iqn>\\S+) ";

/// The IQN of the target that exports a volume.
pub open spec fn target_iqn(base_iqn: Seq<char>, volume_id: Seq<char>) -> Seq<char> {
    base_iqn + ":"@ + dashed(volume_id)
}

/// The name of the backstore that holds a volume's zvol.
pub open spec fn backstore_name(volume_id: Seq<char>) -> Seq<char> {
    "k8s-"@ + dashed(volume_id)
}

pub open spec fn backstore_command(volume_id: Seq<char>) -> Seq<char> {
    "/backstores/block create "@ + backstore_name(volume_id) + " /dev/zvol/"@ + volume_id
}

pub open spec fn create_target_command(iqn: Seq<char>) -> Seq<char> {
    "/iscsi create "@ + iqn
}

pub open spec fn lun_command(iqn: Seq<char>, backstore: Seq<char>) -> Seq<char> {
    "/iscsi/"@ + iqn + "/tpg1/luns create /backstores/block/"@ + backstore
}

pub open spec fn set_attribute_command(iqn: Seq<char>, attr: Seq<char>, val: Seq<char>) -> Seq<
    char,
> {
    "/iscsi/"@ + iqn + "/tpg1 set attribute "@ + attr + "="@ + val
}

pub open spec fn get_attributes_command(iqn: Seq<char>, tpg: Seq<char>) -> Seq<char> {
    "/iscsi/"@ + iqn + "/"@ + tpg + " get attribute"@
}

pub open spec fn discovery_command(portal: Seq<char>) -> Seq<char> {
    "iscsiadm -m discovery -t sendtargets -p '"@ + portal + "'"@
}

pub open spec fn login_command(iqn: Seq<char>, portal: Seq<char>) -> Seq<char> {
    "iscsiadm --mode node --targetname '"@ + iqn + "' --portal '"@ + portal + "' --login"@
}

pub open spec fn logout_command(iqn: Seq<char>, portal: Seq<char>) -> Seq<char> {
    "iscsiadm --mode node --targetname '"@ + iqn + "' --portal '"@ + portal + "' --logout"@
}

pub open spec fn sessions_command() -> Seq<char> {
    "iscsiadm -m session"@
}

/// The device that appears on the node once it is logged in to the target.
pub open spec fn disk_path(portal: Seq<char>, iqn: Seq<char>) -> Seq<char> {
    "/dev/disk/by-path/ip-"@ + portal + ":3260-iscsi-"@ + iqn + "-lun-0"@
}

pub open spec fn test_block_command(path: Seq<char>) -> Seq<char> {
    "test -b '"@ + path + "'"@
}

/// The IQN of the target that exports `volume_id` under `base_iqn`.
pub fn get_target(base_iqn: &str, volume_id: &str) -> (r: String)
    ensures
        r@ == target_iqn(base_iqn@, volume_id@),
{
    let id = dash_slashes(volume_id);
    cat3(base_iqn, ":", id.as_str())
}

pub fn backstore_for(volume_id: &str) -> (r: String)
    ensures
        r@ == backstore_name(volume_id@),
{
    let id = dash_slashes(volume_id);
    cat2("k8s-", id.as_str())
}

pub fn backstore_cmd(volume_id: &str) -> (r: String)
    ensures
        r@ == backstore_command(volume_id@),
{
    let name = backstore_for(volume_id);
    let mut c = cat3("/backstores/block create ", name.as_str(), " /dev/zvol/");
    c.append(volume_id);
    c
}

pub fn create_target_cmd(iqn: &str) -> (r: String)
    ensures
        r@ == create_target_command(iqn@),
{
    cat2("/iscsi create ", iqn)
}

pub fn lun_cmd(iqn: &str, backstore: &str) -> (r: String)
    ensures
        r@ == lun_command(iqn@, backstore@),
{
    let mut c = cat3("/iscsi/", iqn, "/tpg1/luns create /backstores/block/");
    c.append(backstore);
    c
}

pub fn set_attribute_cmd(iqn: &str, attr: &str, val: &str) -> (r: String)
    ensures
        r@ == set_attribute_command(iqn@, attr@, val@),
{
    let mut c = cat3("/iscsi/", iqn, "/tpg1 set attribute ");
    c.append(attr);
    c.append("=");
    c.append(val);
    c
}

pub fn get_attributes_cmd(iqn: &str, tpg: &str) -> (r: String)
    ensures
        r@ == get_attributes_command(iqn@, tpg@),
{
    let mut c = cat3("/iscsi/", iqn, "/");
    c.append(tpg);
    c.append(" get attribute");
    c
}

pub fn discovery_cmd(portal: &str) -> (r: String)
    ensures
        r@ == discovery_command(portal@),
{
    cat3("iscsiadm -m discovery -t sendtargets -p '", portal, "'")
}

pub fn login_cmd(iqn: &str, portal: &str) -> (r: String)
    ensures
        r@ == login_command(iqn@, portal@),
{
    let mut c = cat3("iscsiadm --mode node --targetname '", iqn, "' --portal '");
    c.append(portal);
    c.append("' --login");
    c
}

pub fn logout_cmd(iqn: &str, portal: &str) -> (r: String)
    ensures
        r@ == logout_command(iqn@, portal@),
{
    let mut c = cat3("iscsiadm --mode node --targetname '", iqn, "' --portal '");
    c.append(portal);
    c.append("' --logout");
    c
}

pub fn disk_path_of(portal: &str, iqn: &str) -> (r: String)
    ensures
        r@ == disk_path(portal@, iqn@),
{
    let mut c = cat3("/dev/disk/by-path/ip-", portal, ":3260-iscsi-");
    c.append(iqn);
    c.append("-lun-0");
    c
}

pub fn test_block_cmd(path: &str) -> (r: String)
    ensures
        r@ == test_block_command(path@),
{
    cat3("test -b '", path, "'")
}

/// Whether `line` is the targetcli prompt.
pub fn is_prompt(line: &str) -> (r: bool)
    ensures
        r == regex_finds(TARGETCLI_PROMPT@, line@),
{
    pattern_finds(TARGETCLI_PROMPT, line)
}

/// Whether targetcli confirmed, in `output`, that it set an attribute.
pub fn attribute_was_set(output: &str) -> (r: bool)
    ensures
        r == regex_finds(PARAMETER_SET_SUCCESS@, output@),
{
    pattern_finds(PARAMETER_SET_SUCCESS, output)
}

/// The IQNs that `ls /iscsi 1` lists in `output`.
pub fn iqns_listed(output: &str) -> (r: Vec<String>)
    ensures
        texts(r@) == regex_group(IQN_LINE@, output@, "iqn"@),
{
    pattern_group(IQN_LINE, output, "iqn")
}

/// The attribute names and values that `get attribute` lists in `output`.
pub fn attributes_listed(output: &str) -> (r: (Vec<String>, Vec<String>))
    ensures
        texts(r.0@) == regex_group(TPG_ATTRIBUTE@, output@, "attr"@),
        texts(r.1@) == regex_group(TPG_ATTRIBUTE@, output@, "val"@),
{
    (pattern_group(TPG_ATTRIBUTE, output, "attr"), pattern_group(TPG_ATTRIBUTE, output, "val"))
}

/// An open iSCSI session of the node.
#[derive(Debug)]
pub struct Session {
    pub ip: String,
    pub port: String,
    pub iqn: String,
}

/// The IQNs of the sessions that `iscsiadm -m session` reported, when it
/// exited with `code` and printed `output`; none unless it exited with 0.
pub open spec fn session_iqns(output: Seq<char>, code: u32) -> Seq<Seq<char>> {
    if code == 0 {
        let ips = regex_group(SESSION_LIST@, output, "ip"@);
        let ports = regex_group(SESSION_LIST@, output, "port"@);
        let iqns = regex_group(SESSION_LIST@, output, "iqn"@);
        let n = if ips.len() <= ports.len() && ips.len() <= iqns.len() {
            ips.len()
        } else if ports.len() <= iqns.len() {
            ports.len()
        } else {
            iqns.len()
        };
        iqns.subrange(0, n as int)
    } else {
        Seq::empty()
    }
}

/// The sessions that `iscsiadm -m session` reported, when it exited with
/// `code` and printed `output`; none unless it exited with 0.
pub fn sessions_from(output: &str, code: u32) -> (r: Vec<Session>)
    ensures
        r@.map_values(|s: Session| s.iqn@) == session_iqns(output@, code),
        code == 0 ==> forall|i: int|
            0 <= i < r@.len() ==> (#[trigger] r@[i]).ip@ == regex_group(
                SESSION_LIST@,
                output@,
                "ip"@,
            )[i] && r@[i].port@ == regex_group(SESSION_LIST@, output@, "port"@)[i],
{
    let mut r: Vec<Session> = Vec::new();
    if code != 0 {
        assert(r@.map_values(|s: Session| s.iqn@) =~= Seq::empty());
        return r;
    }
    let ips = pattern_group(SESSION_LIST, output, "ip");
    let ports = pattern_group(SESSION_LIST, output, "port");
    let iqns = pattern_group(SESSION_LIST, output, "iqn");
    let n = if ips.len() <= ports.len() && ips.len() <= iqns.len() {
        ips.len()
    } else if ports.len() <= iqns.len() {
        ports.len()
    } else {
        iqns.len()
    };
    let mut i: usize = 0;
    while i < n
        invariant
            n <= ips@.len(),
            n <= ports@.len(),
            n <= iqns@.len(),
            i <= n,
            r@.len() == i,
            forall|k: int|
                0 <= k < i ==> (#[trigger] r@[k]).ip@ == ips@[k]@ && r@[k].port@ == ports@[k]@
                    && r@[k].iqn@ == iqns@[k]@,
        decreases n - i,
    {
        r.push(Session { ip: ips[i].clone(), port: ports[i].clone(), iqn: iqns[i].clone() });
        i = i + 1;
    }
    proof {
        assert(r@.map_values(|s: Session| s.iqn@) =~= texts(iqns@).subrange(0, n as int));
        assert forall|k: int| 0 <= k < r@.len() implies (#[trigger] r@[k]).ip@ == regex_group(
            SESSION_LIST@,
            output@,
            "ip"@,
        )[k] && r@[k].port@ == regex_group(SESSION_LIST@, output@, "port"@)[k] by {
            assert(texts(ips@)[k] == ips@[k]@);
            assert(texts(ports@)[k] == ports@[k]@);
        }
    }
    r
}

/// Whether one of `sessions` is with the target `iqn`.
pub fn has_session(sessions: &Vec<Session>, iqn: &str) -> (r: bool)
    ensures
        r == sessions@.map_values(|s: Session| s.iqn@).contains(iqn@),
{
    let ghost v = sessions@.map_values(|s: Session| s.iqn@);
    let mut i: usize = 0;
    while i < sessions.len()
        invariant
            v == sessions@.map_values(|s: Session| s.iqn@),
            i <= sessions@.len(),
            forall|k: int| 0 <= k < i ==> v[k] != iqn@,
        decreases sessions@.len() - i,
    {
        if same_text(sessions[i].iqn.as_str(), iqn) {
            assert(v[i as int] == iqn@);
            return true;
        }
        i = i + 1;
    }
    false
}

/// The error when the device never appeared.
pub open spec fn disk_timeout(path: Seq<char>) -> AppErrorView {
    AppErrorView::Generic("Timed out waiting for device "@ + path)
}

pub fn disk_timeout_error(path: &str) -> (r: AppError)
    ensures
        r@ == disk_timeout(path@),
{
    AppError::Generic(cat2("Timed out waiting for device ", path))
}

/// Whether `c` is a decimal digit.
pub open spec fn is_digit(c: char) -> bool {
    '0' <= c && c <= '9'
}

/// The value of a string of decimal digits.
pub open spec fn digits_value(s: Seq<char>) -> int
    decreases s.len(),
{
    if s.len() == 0 {
        0
    } else {
        digits_value(s.drop_last()) * 10 + (s.last() as int - '0' as int)
    }
}

proof fn lemma_digits_grow(s: Seq<char>, i: int)
    requires
        0 <= i <= s.len(),
        forall|k: int| 0 <= k < s.len() ==> is_digit(#[trigger] s[k]),
    ensures
        digits_value(s) >= digits_value(s.subrange(0, i)) >= 0,
    decreases s.len() - i,
{
    if i < s.len() {
        lemma_digits_grow(s, i + 1);
        let p = s.subrange(0, i + 1);
        assert(p.drop_last() =~= s.subrange(0, i));
        assert(is_digit(p.last()));
    } else {
        assert(s.subrange(0, i) =~= s);
        lemma_digits_nonneg(s);
    }
}

proof fn lemma_digits_nonneg(s: Seq<char>)
    requires
        forall|k: int| 0 <= k < s.len() ==> is_digit(#[trigger] s[k]),
    ensures
        digits_value(s) >= 0,
    decreases s.len(),
{
    if s.len() > 0 {
        lemma_digits_nonneg(s.drop_last());
        assert(is_digit(s.last()));
    }
}

/// The value of a non-empty string of decimal digits, when it fits in an `i64`.
pub open spec fn decimal(s: Seq<char>) -> Option<i64> {
    if s.len() > 0 && (forall|k: int| 0 <= k < s.len() ==> is_digit(#[trigger] s[k]))
        && digits_value(s) <= i64::MAX {
        Some(digits_value(s) as i64)
    } else {
        None
    }
}

/// The value of `s`, a non-empty string of decimal digits that fits in an `i64`.
pub fn parse_decimal(s: &str) -> (r: Option<i64>)
    ensures
        r == decimal(s@),
{
    let c = chars_of(s);
    if c.len() == 0 {
        return None;
    }
    let mut v: i64 = 0;
    let mut i: usize = 0;
    while i < c.len()
        invariant
            c@ == s@,
            i <= c@.len(),
            c@.len() > 0,
            forall|k: int| 0 <= k < i ==> is_digit(#[trigger] s@[k]),
            v as int == digits_value(s@.subrange(0, i as int)),
            v >= 0,
        decreases c@.len() - i,
    {
        let ch = c[i];
        assert(s@.subrange(0, i + 1).drop_last() =~= s@.subrange(0, i as int));
        if !('0' <= ch && ch <= '9') {
            assert(!is_digit(s@[i as int]));
            return None;
        }
        let d: i64 = (ch as u32 - '0' as u32) as i64;
        if v > (i64::MAX - d) / 10 {
            assert(v * 10 + d > i64::MAX) by (nonlinear_arith)
                requires
                    v > (i64::MAX - d) / 10,
                    0 <= d <= 9,
            ;
            proof {
                if decimal(s@) is Some {
                    lemma_digits_grow(s@, i + 1);
                }
            }
            return None;
        }
        assert(v * 10 + d <= i64::MAX) by (nonlinear_arith)
            requires
                v <= (i64::MAX - d) / 10,
                0 <= d <= 9,
        ;
        v = v * 10 + d;
        i = i + 1;
    }
    assert(s@.subrange(0, i as int) =~= s@);
    Some(v)
}

/// The attributes that `get attribute` lists in `output`, with their
/// values; none when a value does not fit.
pub fn attribute_values(output: &str) -> (r: Option<Vec<(String, i64)>>)
    ensures
        ({
            let names = regex_group(TPG_ATTRIBUTE@, output@, "attr"@);
            let vals = regex_group(TPG_ATTRIBUTE@, output@, "val"@);
            let n = if names.len() <= vals.len() {
                names.len()
            } else {
                vals.len()
            };
            match r {
                Some(a) => a@.len() == n && forall|i: int|
                    0 <= i < n ==> (#[trigger] a@[i]).0@ == names[i] && decimal(vals[i]) == Some(
                        a@[i].1,
                    ),
                None => exists|i: int| 0 <= i < n && #[trigger] decimal(vals[i]) is None,
            }
        }),
{
    let (names, vals) = attributes_listed(output);
    let n = if names.len() <= vals.len() {
        names.len()
    } else {
        vals.len()
    };
    let mut r: Vec<(String, i64)> = Vec::new();
    let mut i: usize = 0;
    while i < n
        invariant
            texts(names@) == regex_group(TPG_ATTRIBUTE@, output@, "attr"@),
            texts(vals@) == regex_group(TPG_ATTRIBUTE@, output@, "val"@),
            n == if names@.len() <= vals@.len() {
                names@.len()
            } else {
                vals@.len()
            },
            n <= names@.len(),
            n <= vals@.len(),
            i <= n,
            r@.len() == i,
            forall|k: int|
                0 <= k < i ==> (#[trigger] r@[k]).0@ == names@[k]@ && decimal(vals@[k]@) == Some(
                    r@[k].1,
                ),
        decreases n - i,
    {
        match parse_decimal(vals[i].as_str()) {
            Some(v) => {
                r.push((names[i].clone(), v));
            },
            None => {
                proof {
                    assert(texts(vals@)[i as int] == vals@[i as int]@);
                    let vals_v = regex_group(TPG_ATTRIBUTE@, output@, "val"@);
                    assert(vals_v == texts(vals@));
                    assert(decimal(vals_v[i as int]) is None);
                    assert(texts(names@).len() == names@.len());
                    assert(vals_v.len() == vals@.len());
                }
                return None;
            },
        }
        i = i + 1;
    }
    proof {
        assert forall|k: int| 0 <= k < n implies (#[trigger] r@[k]).0@ == texts(names@)[k]
            && decimal(texts(vals@)[k]) == Some(r@[k].1) by {
            assert(texts(names@)[k] == names@[k]@);
            assert(texts(vals@)[k] == vals@[k]@);
        }
    }
    Some(r)
}

} // verus!
