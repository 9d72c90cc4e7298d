//! The remote GPU monitor's configuration file and the ssh command that it
//! leads to.
use vstd::prelude::*;
use crate::text::{
    chars_of, find, find_char, lines_of, parse_unsigned, parse_unsigned_range, push_chars,
    push_decimal, range_is, string_of, string_of_range, trim, trim_bounds, decimal, is_space,
    lemma_find_bound, lemma_find_concat, lemma_lines_concat, lemma_trim_plain, lemma_parse_decimal,
};

verus! {

broadcast use vstd::string::group_string_axioms;

/// The command that reads the GPU load on the remote host unless the
/// configuration names another.
pub open spec fn default_remote_command() -> Seq<char> {
    "nvidia-smi -i 0 --query-gpu=utilization.gpu --format=csv,noheader,nounits -lms 200"@
}

/// The `ssh_settings.txt` written when none exists: its host is the
/// placeholder `127.0.0.1`, so the monitor waits until the user edits it.
pub const SSH_SETTINGS_TEMPLATE: &'static str = "\
# SSH Settings for StarCore GPU Monitoring Variant
# 
# Instructions:
# 1. Provide target host IP/domain and user.
# 2. Key authentication is recommended. Specify key_path if not loaded in your SSH agent.
# 3. Target server must have nvidia-smi installed.

host=127.0.0.1
user=gpumonitor
port=22
password=
key_path=
remote_command=nvidia-smi -i 0 --query-gpu=utilization.gpu --format=csv,noheader,nounits -lms 200

# Optional: Override the entire ssh command execution.
# If specified (without prefix '#'), this exact command will be run in cmd.exe.
# ssh_command=ssh -o StrictHostKeyChecking=accept-new -p 22 user@host \"nvidia-smi -i 0 --query-gpu=utilization.gpu --format=csv,noheader,nounits -lms 200\"
";

/// The settings of the remote GPU monitor (`ssh_settings.txt`).
pub struct SshConfig {
    pub host: String,
    pub user: String,
    pub port: u16,
    pub key_path: String,
    pub password: String,
    pub remote_command: String,
    pub ssh_command: Option<String>,
}

/// An `SshConfig` as values.
pub struct SshConfigView {
    pub host: Seq<char>,
    pub user: Seq<char>,
    pub port: u16,
    pub key_path: Seq<char>,
    pub password: Seq<char>,
    pub remote_command: Seq<char>,
    pub ssh_command: Option<Seq<char>>,
}

impl View for SshConfig {
    type V = SshConfigView;

    open spec fn view(&self) -> SshConfigView {
        SshConfigView {
            host: self.host@,
            user: self.user@,
            port: self.port,
            key_path: self.key_path@,
            password: self.password@,
            remote_command: self.remote_command@,
            ssh_command: match self.ssh_command {
                Some(s) => Some(s@),
                None => None,
            },
        }
    }
}

/// The configuration before the file is read.
pub open spec fn default_ssh_config() -> SshConfigView {
    SshConfigView {
        host: Seq::empty(),
        user: Seq::empty(),
        port: 22,
        key_path: Seq::empty(),
        password: Seq::empty(),
        remote_command: default_remote_command(),
        ssh_command: None,
    }
}

pub open spec fn key_host() -> Seq<char> {
    seq!['h', 'o', 's', 't']
}

pub open spec fn key_user() -> Seq<char> {
    seq!['u', 's', 'e', 'r']
}

pub open spec fn key_port() -> Seq<char> {
    seq!['p', 'o', 'r', 't']
}

pub open spec fn key_key_path() -> Seq<char> {
    seq!['k', 'e', 'y', '_', 'p', 'a', 't', 'h']
}

pub open spec fn key_password() -> Seq<char> {
    seq!['p', 'a', 's', 's', 'w', 'o', 'r', 'd']
}

pub open spec fn key_remote_command() -> Seq<char> {
    seq!['r', 'e', 'm', 'o', 't', 'e', '_', 'c', 'o', 'm', 'm', 'a', 'n', 'd']
}

pub open spec fn key_ssh_command() -> Seq<char> {
    seq!['s', 's', 'h', '_', 'c', 'o', 'm', 'm', 'a', 'n', 'd']
}

/// What one line of `ssh_settings.txt` does to the configuration. Blank
/// lines and lines that start with `#` (after trimming) are comments. A line
/// counts when it holds an `=`; the key is what stands before the first `=`,
/// the value all that follows it, both trimmed. A port that does not parse
/// as a `u16` leaves the port as it was; unknown keys are ignored.
pub open spec fn apply_ssh_setting(c: SshConfigView, line: Seq<char>) -> SshConfigView {
    let t = trim(line);
    let i = find(t, '=');
    if t.len() == 0 || t[0] == '#' || i >= t.len() {
        c
    } else {
        let key = trim(t.subrange(0, i as int));
        let value = trim(t.subrange(i as int + 1, t.len() as int));
        if key == key_host() {
            SshConfigView { host: value, ..c }
        } else if key == key_user() {
            SshConfigView { user: value, ..c }
        } else if key == key_port() {
            match parse_unsigned(value, u16::MAX as nat) {
                Some(p) => SshConfigView { port: p as u16, ..c },
                None => c,
            }
        } else if key == key_key_path() {
            SshConfigView { key_path: value, ..c }
        } else if key == key_password() {
            SshConfigView { password: value, ..c }
        } else if key == key_remote_command() {
            SshConfigView { remote_command: value, ..c }
        } else if key == key_ssh_command() {
            SshConfigView { ssh_command: Some(value), ..c }
        } else {
            c
        }
    }
}

/// The lines of `ssh_settings.txt` applied in order.
pub open spec fn apply_ssh_settings(c: SshConfigView, lines: Seq<Seq<char>>) -> SshConfigView
    decreases lines.len(),
{
    if lines.len() == 0 {
        c
    } else {
        apply_ssh_settings(apply_ssh_setting(c, lines[0]), lines.drop_first())
    }
}

/// The configuration that the text of `ssh_settings.txt` describes.
pub open spec fn ssh_config_from_text(content: Seq<char>) -> SshConfigView {
    apply_ssh_settings(default_ssh_config(), lines_of(content))
}

/// The configuration before the file is read.
pub fn default_ssh_settings() -> (c: SshConfig)
    ensures
        c@ == default_ssh_config(),
{
    let cmd = "nvidia-smi -i 0 --query-gpu=utilization.gpu --format=csv,noheader,nounits -lms 200".to_string();
    SshConfig {
        host: String::new(),
        user: String::new(),
        port: 22,
        key_path: String::new(),
        password: String::new(),
        remote_command: cmd,
        ssh_command: None,
    }
}

/// Applies the line `v[a..b]` of `ssh_settings.txt` to `c`.
fn apply_ssh_setting_range(c: &mut SshConfig, v: &[char], a: usize, b: usize)
    requires
        a <= b <= v@.len(),
    ensures
        final(c)@ == apply_ssh_setting(old(c)@, v@.subrange(a as int, b as int)),
{
    let ghost line = v@.subrange(a as int, b as int);
    let (ta, tb) = trim_bounds(v, a, b);
    let ghost t = v@.subrange(ta as int, tb as int);
    if ta == tb || v[ta] == '#' {
        return;
    }
    let i = find_char(v, ta, tb, '=');
    if i == tb {
        return;
    }
    assert(t.subrange(0, i - ta) =~= v@.subrange(ta as int, i as int));
    assert(t.subrange(i - ta + 1, t.len() as int) =~= v@.subrange(i + 1, tb as int));
    let (ka, kb) = trim_bounds(v, ta, i);
    let (va, vb) = trim_bounds(v, i + 1, tb);
    let w_host = ['h', 'o', 's', 't'];
    let w_user = ['u', 's', 'e', 'r'];
    let w_port = ['p', 'o', 'r', 't'];
    let w_key = ['k', 'e', 'y', '_', 'p', 'a', 't', 'h'];
    let w_pass = ['p', 'a', 's', 's', 'w', 'o', 'r', 'd'];
    let w_remote = ['r', 'e', 'm', 'o', 't', 'e', '_', 'c', 'o', 'm', 'm', 'a', 'n', 'd'];
    let w_ssh = ['s', 's', 'h', '_', 'c', 'o', 'm', 'm', 'a', 'n', 'd'];
    assert(w_host@ == key_host());
    assert(w_user@ == key_user());
    assert(w_port@ == key_port());
    assert(w_key@ == key_key_path());
    assert(w_pass@ == key_password());
    assert(w_remote@ == key_remote_command());
    assert(w_ssh@ == key_ssh_command());
    if range_is(v, ka, kb, &w_host) {
        c.host = string_of_range(v, va, vb);
    } else if range_is(v, ka, kb, &w_user) {
        c.user = string_of_range(v, va, vb);
    } else if range_is(v, ka, kb, &w_port) {
        if let Some(p) = parse_unsigned_range(v, va, vb, 0xffff) {
            c.port = p as u16;
        }
    } else if range_is(v, ka, kb, &w_key) {
        c.key_path = string_of_range(v, va, vb);
    } else if range_is(v, ka, kb, &w_pass) {
        c.password = string_of_range(v, va, vb);
    } else if range_is(v, ka, kb, &w_remote) {
        c.remote_command = string_of_range(v, va, vb);
    } else if range_is(v, ka, kb, &w_ssh) {
        c.ssh_command = Some(string_of_range(v, va, vb));
    }
}

/// The configuration that the text of `ssh_settings.txt` describes (what
/// `load_ssh_config` makes of the file it reads).
pub fn parse_ssh_config(content: &str) -> (c: SshConfig)
    ensures
        c@ == ssh_config_from_text(content@),
{
    let v = chars_of(content);
    let len = v.len();
    let mut c = default_ssh_settings();
    let mut pos: usize = 0;
    assert(v@.subrange(0, len as int) =~= v@);
    while pos < len
        invariant
            pos <= len == v@.len(),
            v@ == content@,
            ssh_config_from_text(content@) == apply_ssh_settings(
                c@,
                lines_of(v@.subrange(pos as int, len as int)),
            ),
        decreases len - pos,
    {
        let i = find_char(&v, pos, len, '\n');
        let ghost s = v@.subrange(pos as int, len as int);
        apply_ssh_setting_range(&mut c, &v, pos, i);
        assert(s.subrange(0, i - pos) =~= v@.subrange(pos as int, i as int));
        if i == len {
            assert(lines_of(s) == seq![s]);
            assert(v@.subrange(pos as int, i as int) =~= s);
            assert(seq![s].drop_first() =~= Seq::<Seq<char>>::empty());
            assert(lines_of(v@.subrange(len as int, len as int)) == Seq::<Seq<char>>::empty());
            pos = len;
        } else {
            let ghost tail = v@.subrange(i + 1, len as int);
            assert(s.subrange(i - pos + 1, s.len() as int) =~= tail);
            assert(lines_of(s) == seq![v@.subrange(pos as int, i as int)] + lines_of(tail));
            assert((seq![v@.subrange(pos as int, i as int)] + lines_of(tail)).drop_first()
                =~= lines_of(tail));
            pos = i + 1;
        }
    }
    assert(v@.subrange(len as int, len as int) =~= Seq::<char>::empty());
    c
}

/// Whether the configured host is still unset: empty, or the template's
/// placeholder `127.0.0.1`. The monitor then waits instead of connecting.
pub open spec fn host_unset(host: Seq<char>) -> bool {
    host.len() == 0 || host == "127.0.0.1"@
}

/// Whether the configured host is still unset.
pub fn is_host_unset(host: &str) -> (r: bool)
    ensures
        r == host_unset(host@),
{
    let v = chars_of(host);
    let p = chars_of("127.0.0.1");
    assert(v@.subrange(0, v@.len() as int) =~= v@);
    v.len() == 0 || range_is(&v, 0, v.len(), p.as_slice())
}

/// The batch file that answers ssh's password prompt.
pub open spec fn askpass_script(password: Seq<char>) -> Seq<char> {
    "@echo off\necho "@ + password + seq!['\n']
}

/// The batch file that answers ssh's password prompt with `password`.
pub fn make_askpass_script(password: &str) -> (s: String)
    ensures
        s@ == askpass_script(password@),
{
    let mut v = chars_of("@echo off\necho ");
    let p = chars_of(password);
    push_chars(&mut v, p.as_slice());
    v.push('\n');
    string_of(v.as_slice())
}

/// How the monitor starts its ssh session.
pub struct SshLaunch {
    /// The program to run.
    pub program: String,
    /// Its arguments.
    pub args: Vec<String>,
    /// Whether `SSH_ASKPASS` and its companions point ssh at the password
    /// script.
    pub use_askpass: bool,
}

/// The arguments of the `ssh` client: port, key file if one is set, host
/// key and batch options, the target and the remote command.
pub open spec fn ssh_args(c: SshConfigView, has_askpass: bool) -> Seq<Seq<char>> {
    let port = seq!["-p"@, decimal(c.port as nat)];
    let key = if c.key_path.len() > 0 {
        seq!["-i"@, c.key_path]
    } else {
        Seq::empty()
    };
    let batch = if has_askpass {
        "BatchMode=no"@
    } else {
        "BatchMode=yes"@
    };
    port + key + seq![
        "-o"@,
        "StrictHostKeyChecking=accept-new"@,
        "-o"@,
        batch,
        c.user + seq!['@'] + c.host,
        c.remote_command,
    ]
}

/// The launch that `spawn_ssh_process` performs: the configured
/// `ssh_command` run by `cmd /C` when there is one, else the `ssh` client,
/// told about the password script when one was written.
pub open spec fn launch_plan(
    c: SshConfigView,
    has_askpass: bool,
) -> (Seq<char>, Seq<Seq<char>>, bool) {
    match c.ssh_command {
        Some(cmd) => ("cmd"@, seq!["/C"@, cmd], false),
        None => ("ssh"@, ssh_args(c, has_askpass), has_askpass),
    }
}

fn push_arg(args: &mut Vec<String>, s: String)
    ensures
        final(args)@.map_values(|a: String| a@) == old(args)@.map_values(|a: String| a@).push(s@),
{
    args.push(s);
    assert(args@.map_values(|a: String| a@) =~= old(args)@.map_values(|a: String| a@).push(s@));
}

/// The program, arguments and environment with which the monitor starts
/// its ssh session.
pub fn plan_launch(c: &SshConfig, has_askpass: bool) -> (l: SshLaunch)
    ensures
        l.program@ == launch_plan(c@, has_askpass).0,
        l.args@.map_values(|a: String| a@) == launch_plan(c@, has_askpass).1,
        l.use_askpass == launch_plan(c@, has_askpass).2,
{
    let mut args: Vec<String> = Vec::new();
    match &c.ssh_command {
        Some(cmd) => {
            push_arg(&mut args, "/C".to_string());
            push_arg(&mut args, cmd.clone());
            assert(args@.map_values(|a: String| a@) =~= seq!["/C"@, cmd@]);
            SshLaunch { program: "cmd".to_string(), args, use_askpass: false }
        },
        None => {
            push_arg(&mut args, "-p".to_string());
            let mut port: Vec<char> = Vec::new();
            push_decimal(&mut port, c.port as u64);
            assert(port@ =~= decimal(c.port as nat));
            push_arg(&mut args, string_of(port.as_slice()));
            let ghost port_args = seq!["-p"@, decimal(c.port as nat)];
            assert(args@.map_values(|a: String| a@) =~= port_args);
            let ghost key_args: Seq<Seq<char>> = if c.key_path@.len() > 0 {
                seq!["-i"@, c.key_path@]
            } else {
                Seq::empty()
            };
            if !c.key_path.as_str().is_empty() {
                push_arg(&mut args, "-i".to_string());
                push_arg(&mut args, c.key_path.clone());
            }
            assert(args@.map_values(|a: String| a@) =~= port_args + key_args);
            let ghost before = port_args + key_args;
            push_arg(&mut args, "-o".to_string());
            push_arg(&mut args, "StrictHostKeyChecking=accept-new".to_string());
            push_arg(&mut args, "-o".to_string());
            if has_askpass {
                push_arg(&mut args, "BatchMode=no".to_string());
            } else {
                push_arg(&mut args, "BatchMode=yes".to_string());
            }
            let ghost batch = if has_askpass {
                "BatchMode=no"@
            } else {
                "BatchMode=yes"@
            };
            assert(args@.map_values(|a: String| a@) =~= before + seq![
                "-o"@,
                "StrictHostKeyChecking=accept-new"@,
                "-o"@,
                batch,
            ]);
            let mut target = chars_of(c.user.as_str());
            target.push('@');
            let host = chars_of(c.host.as_str());
            push_chars(&mut target, host.as_slice());
            assert(target@ =~= c.user@ + seq!['@'] + c.host@);
            push_arg(&mut args, string_of(target.as_slice()));
            push_arg(&mut args, c.remote_command.clone());
            assert(args@.map_values(|a: String| a@) =~= ssh_args(c@, has_askpass));
            SshLaunch { program: "ssh".to_string(), args, use_askpass: has_askpass }
        },
    }
}

// ---------------------------------------------------------------------------
// Laws
// ---------------------------------------------------------------------------

/// A value that a `key=value` line hands over as it stands: no line feed,
/// and no white space at either end.
pub open spec fn plain_text(v: Seq<char>) -> bool {
    &&& forall|k: int| 0 <= k < v.len() ==> v[k] != '\n'
    &&& v.len() > 0 ==> !is_space(v[0]) && !is_space(v.last())
}

/// The line `k=v` splits into the key `k` and the value `v`.
proof fn lemma_key_line(k: Seq<char>, v: Seq<char>)
    requires
        k.len() > 0,
        !is_space(k[0]),
        !is_space(k.last()),
        k[0] != '#',
        forall|j: int| 0 <= j < k.len() ==> k[j] != '=',
        plain_text(v),
    ensures
        ({
            let line = k + seq!['='] + v;
            let t = trim(line);
            let i = find(t, '=');
            &&& t == line
            &&& t.len() > 0 && t[0] != '#'
            &&& i == k.len()
            &&& trim(t.subrange(0, i as int)) == k
            &&& trim(t.subrange(i as int + 1, t.len() as int)) == v
        }),
{
    let line = k + seq!['='] + v;
    assert(line[0] == k[0]);
    assert(!is_space('='));
    if v.len() > 0 {
        assert(line.last() == v.last());
    } else {
        assert(line.last() == '=');
    }
    lemma_trim_plain(line);
    lemma_find_concat(k, '=', v);
    lemma_trim_plain(k);
    lemma_trim_plain(v);
    assert(line.subrange(0, k.len() as int) =~= k);
    assert(line.subrange(k.len() as int + 1, line.len() as int) =~= v);
}

/// Law: a line `key=value` of the configuration sets the field that the key
/// names to the value, and leaves every other field as it was; `ssh_command`
/// becomes set. This holds for every value without a line feed and without
/// white space at its ends.
#[verifier::rlimit(40)]
pub proof fn law_ssh_line_sets_its_field(c: SshConfigView, v: Seq<char>)
    requires
        plain_text(v),
    ensures
        apply_ssh_setting(c, seq!['h', 'o', 's', 't', '='] + v) == (SshConfigView { host: v, ..c }),
        apply_ssh_setting(c, seq!['u', 's', 'e', 'r', '='] + v) == (SshConfigView { user: v, ..c }),
        apply_ssh_setting(c, seq!['k', 'e', 'y', '_', 'p', 'a', 't', 'h', '='] + v)
            == (SshConfigView { key_path: v, ..c }),
        apply_ssh_setting(c, seq!['p', 'a', 's', 's', 'w', 'o', 'r', 'd', '='] + v)
            == (SshConfigView { password: v, ..c }),
        apply_ssh_setting(
            c,
            seq!['r', 'e', 'm', 'o', 't', 'e', '_', 'c', 'o', 'm', 'm', 'a', 'n', 'd', '='] + v,
        ) == (SshConfigView { remote_command: v, ..c }),
        apply_ssh_setting(c, seq!['s', 's', 'h', '_', 'c', 'o', 'm', 'm', 'a', 'n', 'd', '='] + v)
            == (SshConfigView { ssh_command: Some(v), ..c }),
{
    let kh = seq!['h', 'o', 's', 't'];
    let ku = seq!['u', 's', 'e', 'r'];
    let kk = seq!['k', 'e', 'y', '_', 'p', 'a', 't', 'h'];
    let kp = seq!['p', 'a', 's', 's', 'w', 'o', 'r', 'd'];
    let kr = seq!['r', 'e', 'm', 'o', 't', 'e', '_', 'c', 'o', 'm', 'm', 'a', 'n', 'd'];
    let ks = seq!['s', 's', 'h', '_', 'c', 'o', 'm', 'm', 'a', 'n', 'd'];
    lemma_key_line(kh, v);
    lemma_key_line(ku, v);
    lemma_key_line(kk, v);
    lemma_key_line(kp, v);
    lemma_key_line(kr, v);
    lemma_key_line(ks, v);
    assert(kh + seq!['='] + v =~= seq!['h', 'o', 's', 't', '='] + v);
    assert(ku + seq!['='] + v =~= seq!['u', 's', 'e', 'r', '='] + v);
    assert(kk + seq!['='] + v =~= seq!['k', 'e', 'y', '_', 'p', 'a', 't', 'h', '='] + v);
    assert(kp + seq!['='] + v =~= seq!['p', 'a', 's', 's', 'w', 'o', 'r', 'd', '='] + v);
    assert(kr + seq!['='] + v =~= seq![
        'r', 'e', 'm', 'o', 't', 'e', '_', 'c', 'o', 'm', 'm', 'a', 'n', 'd', '=',
    ] + v);
    assert(ks + seq!['='] + v =~= seq!['s', 's', 'h', '_', 'c', 'o', 'm', 'm', 'a', 'n', 'd', '=']
        + v);
    assert(ku[0] != key_host()[0]);
    assert(kk[0] != key_password()[0]);
    assert(kk[0] != key_host()[0]);
    assert(kp[0] != key_port()[0] || kp[1] != key_port()[1]);
    assert(kp[1] != key_port()[1]);
    assert(kr[0] != key_remote_command()[0] || kr =~= key_remote_command());
    assert(ks[0] != key_ssh_command()[0] || ks =~= key_ssh_command());
}

/// Law: a port line `port=n`, with `n` written in decimal, sets the port to
/// `n` and leaves every other field as it was.
pub proof fn law_ssh_port_line(c: SshConfigView, n: u16)
    ensures
        apply_ssh_setting(c, seq!['p', 'o', 'r', 't', '='] + decimal(n as nat)) == (SshConfigView {
            port: n,
            ..c
        }),
{
    let k = seq!['p', 'o', 'r', 't'];
    let v = decimal(n as nat);
    lemma_parse_decimal(n as nat, u16::MAX as nat);
    crate::text::lemma_decimal(n as nat);
    lemma_key_line(k, v);
    assert(k + seq!['='] + v =~= seq!['p', 'o', 'r', 't', '='] + v);
    assert(k[0] != key_host()[0]);
    assert(k[0] != key_user()[0]);
    assert(k =~= key_port());
}

/// `lines_of` of a text that ends with a line feed, followed by one more
/// line, is the lines of the text and then that line.
proof fn lemma_lines_append(prefix: Seq<char>, line: Seq<char>)
    requires
        prefix.len() == 0 || prefix.last() == '\n',
        line.len() > 0,
        forall|k: int| 0 <= k < line.len() ==> line[k] != '\n',
    ensures
        lines_of(prefix + line) == lines_of(prefix).push(line),
    decreases prefix.len(),
{
    if prefix.len() == 0 {
        assert(prefix + line =~= line);
        crate::text::lemma_find_absent(line, '\n');
        assert(lines_of(prefix) == Seq::<Seq<char>>::empty());
        assert(lines_of(line) == seq![line]);
        assert(Seq::<Seq<char>>::empty().push(line) =~= seq![line]);
    } else {
        lemma_find_bound(prefix, '\n');
        let i = find(prefix, '\n');
        assert(i < prefix.len()) by {
            if i == prefix.len() {
                assert(prefix[prefix.len() - 1] == '\n');
            }
        }
        let a = prefix.subrange(0, i as int);
        let rest = prefix.subrange(i as int + 1, prefix.len() as int);
        assert(prefix =~= a + seq!['\n'] + rest);
        assert(prefix + line =~= a + seq!['\n'] + (rest + line));
        lemma_lines_concat(a, rest + line);
        lemma_lines_concat(a, rest);
        if rest.len() > 0 {
            assert(rest.last() == prefix.last());
        }
        lemma_lines_append(rest, line);
        assert(seq![a] + lines_of(rest).push(line) =~= (seq![a] + lines_of(rest)).push(line));
    }
}

proof fn lemma_apply_ssh_settings_push(c: SshConfigView, ls: Seq<Seq<char>>, l: Seq<char>)
    ensures
        apply_ssh_settings(c, ls.push(l)) == apply_ssh_setting(apply_ssh_settings(c, ls), l),
    decreases ls.len(),
{
    if ls.len() == 0 {
        assert(ls.push(l) =~= seq![l]);
        assert(seq![l].drop_first() =~= Seq::<Seq<char>>::empty());
        assert(apply_ssh_settings(c, ls) == c);
        assert(apply_ssh_settings(c, seq![l]) == apply_ssh_settings(
            apply_ssh_setting(c, l),
            seq![l].drop_first(),
        ));
    } else {
        assert(ls.push(l).drop_first() =~= ls.drop_first().push(l));
        assert(ls.push(l)[0] == ls[0]);
        lemma_apply_ssh_settings_push(apply_ssh_setting(c, ls[0]), ls.drop_first(), l);
    }
}

/// Law: the last line of the configuration file acts on the configuration
/// that the lines before it describe; so of several lines for one key the
/// last one counts.
pub proof fn law_ssh_last_line_applies_last(prefix: Seq<char>, line: Seq<char>)
    requires
        prefix.len() == 0 || prefix.last() == '\n',
        forall|k: int| 0 <= k < line.len() ==> line[k] != '\n',
    ensures
        ssh_config_from_text(prefix + line) == apply_ssh_setting(ssh_config_from_text(prefix), line),
{
    if line.len() == 0 {
        assert(prefix + line =~= prefix);
        assert(trim(line).len() == 0) by {
            lemma_trim_plain(line);
        }
    } else {
        lemma_lines_append(prefix, line);
        lemma_apply_ssh_settings_push(default_ssh_config(), lines_of(prefix), line);
    }
}

/// Law: the session runs `ssh` itself unless a whole command is configured.
/// Its arguments are, in order: `-p` and the configured port in decimal;
/// `-i` and the key file whenever one is configured, whether or not a
/// password script exists; the host key option; `BatchMode=no` exactly when
/// the password script is used, else `BatchMode=yes`; `user@host`; and the
/// remote command. A configured command is run as `cmd /C` with it, without
/// the password script.
pub proof fn law_ssh_launch_arguments(c: SshConfigView, has_askpass: bool)
    ensures
        ({
            let (program, args, askpass) = launch_plan(c, has_askpass);
            let o = if c.key_path.len() > 0 {
                4int
            } else {
                2int
            };
            match c.ssh_command {
                Some(cmd) => program == "cmd"@ && args == seq!["/C"@, cmd] && !askpass,
                None => {
                    &&& program == "ssh"@
                    &&& askpass == has_askpass
                    &&& args.len() == o + 6
                    &&& args[0] == "-p"@
                    &&& args[1] == decimal(c.port as nat)
                    &&& c.key_path.len() > 0 ==> args[2] == "-i"@ && args[3] == c.key_path
                    &&& args[o] == "-o"@
                    &&& args[o + 1] == "StrictHostKeyChecking=accept-new"@
                    &&& args[o + 2] == "-o"@
                    &&& args[o + 3] == (if has_askpass {
                        "BatchMode=no"@
                    } else {
                        "BatchMode=yes"@
                    })
                    &&& args[o + 4] == c.user + seq!['@'] + c.host
                    &&& args[o + 5] == c.remote_command
                },
            }
        }),
{
}

} // verus!
