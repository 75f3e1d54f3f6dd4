use crate::error::{AppError, AppErrorView};
use crate::params::{get_param, lookup, pairs_view, Params};
use crate::text::{cat2, cat3, chars_of, same_text, u64_text, nat_text};
use vstd::prelude::*;

verus! {

/// How the node reaches its own host, as the configuration file states it.
#[derive(Debug)]
pub enum ControlMode {
    Local { sudo: bool },
    Chroot { sudo: bool, path: String },
    SSH { sudo: bool, user: String, private_key: String, host: String, port: u16 },
}

impl Default for ControlMode {
    fn default() -> (r: ControlMode)
        ensures
            r == (ControlMode::Local { sudo: false }),
    {
        ControlMode::Local { sudo: false }
    }
}

/// The node's settings.
#[derive(Debug, Default)]
pub struct NodeOptions {
    pub control_mode: ControlMode,
}

/// The driver's configuration file.
#[derive(Debug, Default)]
pub struct InnerConfiguration {
    pub node: NodeOptions,
}

/// The driver's configuration, as loaded.
#[derive(Debug, Default)]
pub struct Configuration(pub InnerConfiguration);

/// A shell on the local host, maybe inside a chroot.
#[derive(Debug)]
pub struct LocalShell {
    pub sudo: bool,
    pub chroot: Option<String>,
}

impl LocalShell {
    /// The command line that this shell runs for `cmd`.
    pub fn command_line(&self, cmd: &str) -> (r: String)
        ensures
            r@ == framed(
                self.sudo,
                match self.chroot {
                    Some(p) => Some(p@),
                    None => None,
                },
                cmd@,
            ),
    {
        match &self.chroot {
            Some(p) => build_command(self.sudo, Some(p.as_str()), cmd),
            None => build_command(self.sudo, None, cmd),
        }
    }
}

/// A shell transport, described: a local shell (maybe in a chroot), or SSH.
#[derive(Debug)]
pub enum ControlModule {
    Local { sudo: bool, chroot: Option<String> },
    SSH { user: String, address: String, private_key: String, sudo: bool },
}

/// The prefix `sudo ` when asked for.
pub open spec fn sudo_prefix(sudo: bool) -> Seq<char> {
    if sudo {
        "sudo "@
    } else {
        Seq::empty()
    }
}

/// The command line that runs `cmd`, after `sudo ` and `chroot <path> ` when asked for.
pub open spec fn framed(sudo: bool, chroot: Option<Seq<char>>, cmd: Seq<char>) -> Seq<char> {
    sudo_prefix(sudo) + match chroot {
        Some(p) => "chroot "@ + p + " "@,
        None => Seq::empty(),
    } + cmd
}

/// The command line that runs `cmd`, after `sudo ` and `chroot <path> ` when asked for.
pub fn build_command(sudo: bool, chroot: Option<&str>, cmd: &str) -> (r: String)
    ensures
        r@ == framed(
            sudo,
            match chroot {
                Some(p) => Some(p@),
                None => None,
            },
            cmd@,
        ),
{
    let mut r = if sudo {
        String::from_str("sudo ")
    } else {
        String::new()
    };
    match chroot {
        Some(p) => {
            r.append("chroot ");
            r.append(p);
            r.append(" ");
        },
        None => {},
    }
    r.append(cmd);
    r
}

/// `s` with each two-character `\n` escape turned into a newline, left to right.
pub open spec fn unescape_newlines(s: Seq<char>) -> Seq<char>
    decreases s.len(),
{
    if s.len() == 0 {
        s
    } else if s.len() >= 2 && s[0] == '\\' && s[1] == 'n' {
        seq!['\n'] + unescape_newlines(s.subrange(2, s.len() as int))
    } else {
        seq![s[0]] + unescape_newlines(s.subrange(1, s.len() as int))
    }
}

/// `s` with each two-character `\n` escape turned into a newline.
pub fn decode_newlines(s: &str) -> (r: String)
    ensures
        r@ == unescape_newlines(s@),
{
    let c = chars_of(s);
    let n = c.len();
    let mut r = String::new();
    let mut i: usize = 0;
    assert(s@.subrange(0, n as int) =~= s@);
    while i < n
        invariant
            c@ == s@,
            n == c@.len(),
            i <= n,
            r@ + unescape_newlines(s@.subrange(i as int, n as int)) == unescape_newlines(s@),
        decreases n - i,
    {
        let ghost rest = s@.subrange(i as int, n as int);
        if i + 1 < n && c[i] == '\\' && c[i + 1] == 'n' {
            assert(rest.subrange(2, rest.len() as int) =~= s@.subrange(i + 2, n as int));
            let ghost before = r@;
            r.push('\n');
            assert(r@ + unescape_newlines(s@.subrange(i + 2, n as int)) =~= before
                + unescape_newlines(rest));
            i = i + 2;
        } else {
            assert(rest.subrange(1, rest.len() as int) =~= s@.subrange(i + 1, n as int));
            let ghost before = r@;
            r.push(c[i]);
            assert(r@ + unescape_newlines(s@.subrange(i + 1, n as int)) =~= before
                + unescape_newlines(rest));
            i = i + 1;
        }
    }
    assert(r@ + unescape_newlines(s@.subrange(i as int, n as int)) =~= r@);
    r
}

/// The error for a key missing from a transport map.
pub open spec fn key_missing(key: Seq<char>) -> AppErrorView {
    AppErrorView::Generic(key + " key not found!"@)
}

fn missing_key(key: &str) -> (r: AppError)
    ensures
        r@ == key_missing(key@),
{
    AppError::Generic(cat2(key, " key not found!"))
}

/// The error of `str::parse::<bool>` on anything but `true` and `false`.
pub open spec fn bool_parse_error() -> AppErrorView {
    AppErrorView::Generic("provided string was not `true` or `false`"@)
}

/// `true` and `false`, as `str::parse::<bool>` reads them.
pub fn parse_bool(s: &str) -> (r: Result<bool, AppError>)
    ensures
        s@ == "true"@ ==> r matches Ok(true),
        s@ == "false"@ ==> r matches Ok(false),
        s@ != "true"@ && s@ != "false"@ ==> r is Err && r->Err_0@ == bool_parse_error(),
{
    proof {
        reveal_strlit("true");
        reveal_strlit("false");
        assert("true"@[0] != "false"@[0]);
    }
    if same_text(s, "true") {
        Ok(true)
    } else if same_text(s, "false") {
        Ok(false)
    } else {
        Err(AppError::generic("provided string was not `true` or `false`"))
    }
}

/// The transport that a request's `secrets` describe, as a predicate on the result.
pub open spec fn ssh_from_map(m: ControlModule, p: Seq<(Seq<char>, Seq<char>)>) -> bool {
    &&& lookup(p, "type"@) == Some("ssh"@)
    &&& m matches ControlModule::SSH { user, address, private_key, sudo }
    &&& lookup(p, "sshUser"@) == Some(user@)
    &&& lookup(p, "sshHost"@) matches Some(h)
    &&& lookup(p, "sshPort"@) matches Some(port)
    &&& address@ == h + ":"@ + port
    &&& lookup(p, "sshKey"@) matches Some(k)
    &&& private_key@ == unescape_newlines(k)
    &&& lookup(p, "sudo"@) == Some(if sudo { "true"@ } else { "false"@ })
}

impl ControlModule {
    /// The transport that the configuration `config` describes.
    pub fn new(config: &ControlMode) -> (r: ControlModule)
        ensures
            match (config, r) {
                (ControlMode::Local { sudo }, ControlModule::Local { sudo: s, chroot }) => s
                    == *sudo && chroot is None,
                (ControlMode::Chroot { sudo, path }, ControlModule::Local { sudo: s, chroot }) => s
                    == *sudo && chroot is Some && chroot->0@ == path@,
                (
                    ControlMode::SSH { sudo, user, private_key, host, port },
                    ControlModule::SSH { user: u, address, private_key: k, sudo: s },
                ) => u@ == user@ && address@ == host@ + ":"@ + nat_text(*port as nat) && k@
                    == private_key@ && s == *sudo,
                _ => false,
            },
    {
        match config {
            ControlMode::Local { sudo } => ControlModule::Local { sudo: *sudo, chroot: None },
            ControlMode::Chroot { sudo, path } => ControlModule::Local {
                sudo: *sudo,
                chroot: Some(path.clone()),
            },
            ControlMode::SSH { sudo, user, private_key, host, port } => ControlModule::SSH {
                user: user.clone(),
                address: cat3(host.as_str(), ":", u64_text(*port as u64).as_str()),
                private_key: private_key.clone(),
                sudo: *sudo,
            },
        }
    }

    /// The transport that a request's `secrets` map describes; only SSH can be described there.
    pub fn from_map(map: &Params) -> (r: Result<ControlModule, AppError>)
        ensures
            r matches Ok(m) ==> ssh_from_map(m, pairs_view(map@)),
            lookup(pairs_view(map@), "type"@) != Some("ssh"@) ==> r is Err && r->Err_0@
                == AppErrorView::Generic("Unknown configuration type for control mode map!"@),
            lookup(pairs_view(map@), "type"@) == Some("ssh"@) ==> (r is Ok <==> {
                &&& lookup(pairs_view(map@), "sshUser"@) is Some
                &&& lookup(pairs_view(map@), "sshHost"@) is Some
                &&& lookup(pairs_view(map@), "sshPort"@) is Some
                &&& lookup(pairs_view(map@), "sshKey"@) is Some
                &&& lookup(pairs_view(map@), "sudo"@) matches Some(v) && (v == "true"@ || v
                    == "false"@)
            }),
            r is Err && lookup(pairs_view(map@), "type"@) == Some("ssh"@) ==> {
                let e = r->Err_0;
                if lookup(pairs_view(map@), "sshUser"@) is None {
                    e@ == key_missing("sshUser"@)
                } else if lookup(pairs_view(map@), "sshHost"@) is None {
                    e@ == key_missing("sshHost"@)
                } else if lookup(pairs_view(map@), "sshPort"@) is None {
                    e@ == key_missing("sshPort"@)
                } else if lookup(pairs_view(map@), "sshKey"@) is None {
                    e@ == key_missing("sshKey"@)
                } else if lookup(pairs_view(map@), "sudo"@) is None {
                    e@ == key_missing("sudo"@)
                } else {
                    e@ == bool_parse_error()
                }
            },
    {
        let is_ssh = match get_param(map, "type") {
            Some(t) => same_text(t.as_str(), "ssh"),
            None => false,
        };
        if !is_ssh {
            return Err(AppError::generic("Unknown configuration type for control mode map!"));
        }
        let user = match get_param(map, "sshUser") {
            Some(v) => v,
            None => {
                return Err(missing_key("sshUser"));
            },
        };
        let host = match get_param(map, "sshHost") {
            Some(v) => v,
            None => {
                return Err(missing_key("sshHost"));
            },
        };
        let port = match get_param(map, "sshPort") {
            Some(v) => v,
            None => {
                return Err(missing_key("sshPort"));
            },
        };
        let key = match get_param(map, "sshKey") {
            Some(v) => v,
            None => {
                return Err(missing_key("sshKey"));
            },
        };
        let sudo_text = match get_param(map, "sudo") {
            Some(v) => v,
            None => {
                return Err(missing_key("sudo"));
            },
        };
        let sudo = match parse_bool(sudo_text.as_str()) {
            Ok(b) => b,
            Err(e) => {
                return Err(e);
            },
        };
        proof {
            reveal_strlit("true");
            reveal_strlit("false");
        }
        Ok(
            ControlModule::SSH {
                user: user.clone(),
                address: cat3(host.as_str(), ":", port.as_str()),
                private_key: decode_newlines(key.as_str()),
                sudo,
            },
        )
    }

    /// The command line that this transport runs for `cmd`.
    pub fn command_line(&self, cmd: &str) -> (r: String)
        ensures
            r@ == match self {
                ControlModule::Local { sudo, chroot } => framed(
                    *sudo,
                    match chroot {
                        Some(p) => Some(p@),
                        None => None,
                    },
                    cmd@,
                ),
                ControlModule::SSH { sudo, .. } => framed(*sudo, None, cmd@),
            },
    {
        match self {
            ControlModule::Local { sudo, chroot } => match chroot {
                Some(p) => build_command(*sudo, Some(p.as_str()), cmd),
                None => build_command(*sudo, None, cmd),
            },
            ControlModule::SSH { sudo, .. } => build_command(*sudo, None, cmd),
        }
    }
}

/// The output of a command that must exit with 0, or the failure.
pub fn exec_checked(output: String, code: u32) -> (r: Result<String, AppError>)
    ensures
        code == 0 ==> r is Ok && r->Ok_0@ == output@,
        code != 0 ==> r is Err && r->Err_0@ == (AppErrorView::CommandFailed {
            code,
            output: output@,
        }),
{
    if code != 0 {
        Err(AppError::CommandFailed { code, output })
    } else {
        Ok(output)
    }
}

/// The exit code reported for a process: its own, or 256 when a signal ended it.
pub fn exit_code(status: Option<i32>) -> (r: u32)
    ensures
        r == (match status {
            Some(c) => c as u32,
            None => 256,
        }),
{
    match status {
        Some(c) => c as u32,
        None => 256,
    }
}

/// What `str::trim_end` returns for `s`.
pub uninterp spec fn trim_end_of(s: Seq<char>) -> Seq<char>;

/// Relies on `str::trim_end`: the result depends on the characters alone.
#[verifier::external_body]
fn trim_end_text(s: &str) -> (r: String)
    ensures
        r@ == trim_end_of(s@),
{
    s.trim_end().to_string()
}

/// The output of a finished command: standard output, a newline, then
/// standard error, each without trailing whitespace.
pub fn combine_output(stdout: &str, stderr: &str) -> (r: String)
    ensures
        r@ == trim_end_of(stdout@) + "\n"@ + trim_end_of(stderr@),
{
    let out = trim_end_text(stdout);
    let err = trim_end_text(stderr);
    cat3(out.as_str(), "\n", err.as_str())
}

} // verus!
