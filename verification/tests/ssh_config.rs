use starcore::ssh::{
    default_ssh_settings, is_host_unset, make_askpass_script, parse_ssh_config, plan_launch,
    SSH_SETTINGS_TEMPLATE,
};

const DEFAULT_REMOTE: &str =
    "nvidia-smi -i 0 --query-gpu=utilization.gpu --format=csv,noheader,nounits -lms 200";


#[test]
fn default_ssh_settings_values() {
    let c = default_ssh_settings();
    assert_eq!(c.host, "");
    assert_eq!(c.user, "");
    assert_eq!(c.port, 22);
    assert_eq!(c.key_path, "");
    assert_eq!(c.password, "");
    assert_eq!(c.remote_command, DEFAULT_REMOTE);
    assert_eq!(c.ssh_command, None);
}

#[test]
fn template_parses_to_unset_host() {
    let c = parse_ssh_config(SSH_SETTINGS_TEMPLATE);
    assert_eq!(c.host, "127.0.0.1");
    assert_eq!(c.user, "gpumonitor");
    assert_eq!(c.port, 22);
    assert_eq!(c.password, "");
    assert_eq!(c.key_path, "");
    assert_eq!(c.remote_command, DEFAULT_REMOTE);
    assert_eq!(c.ssh_command, None);
    assert!(is_host_unset(&c.host));
}

#[test]
fn ssh_config_value_keeps_later_equals() {
    let c = parse_ssh_config("host = gpu.example.org \nssh_command= ssh -p 2222 me@gpu \"a=b\"\n");
    assert_eq!(c.host, "gpu.example.org");
    assert_eq!(c.ssh_command, Some("ssh -p 2222 me@gpu \"a=b\"".to_string()));
}

#[test]
fn ssh_config_bad_port_keeps_previous() {
    let c = parse_ssh_config("port=2200\nport=70000\n");
    assert_eq!(c.port, 2200);
    let c = parse_ssh_config("port=abc");
    assert_eq!(c.port, 22);
    let c = parse_ssh_config("port=+2022");
    assert_eq!(c.port, 2022);
}

#[test]
fn ssh_config_comments_and_noise_ignored() {
    let c = parse_ssh_config("  # host=skip\nhost\n=value\nunknown=1\n\nuser=bob\r\n");
    assert_eq!(c.host, "");
    assert_eq!(c.user, "bob");
}

#[test]
fn ssh_config_empty_value_sets_empty() {
    let c = parse_ssh_config("remote_command=\nssh_command=");
    assert_eq!(c.remote_command, "");
    assert_eq!(c.ssh_command, Some(String::new()));
}

#[test]
fn host_unset_cases() {
    assert!(is_host_unset(""));
    assert!(is_host_unset("127.0.0.1"));
    assert!(!is_host_unset("127.0.0.2"));
    assert!(!is_host_unset("gpu-box"));
}

#[test]
fn askpass_script_text() {
    assert_eq!(make_askpass_script("s3cret"), "@echo off\necho s3cret\n");
    assert_eq!(make_askpass_script(""), "@echo off\necho \n");
}

#[test]
fn launch_plain_ssh_without_key() {
    let mut c = default_ssh_settings();
    c.host = "10.0.0.5".to_string();
    c.user = "ops".to_string();
    c.port = 2222;
    let l = plan_launch(&c, false);
    assert_eq!(l.program, "ssh");
    assert_eq!(
        l.args,
        vec![
            "-p", "2222", "-o", "StrictHostKeyChecking=accept-new", "-o", "BatchMode=yes",
            "ops@10.0.0.5", DEFAULT_REMOTE,
        ]
    );
    assert!(!l.use_askpass);
}

#[test]
fn launch_ssh_with_key_and_password() {
    let mut c = default_ssh_settings();
    c.host = "gpu".to_string();
    c.user = "me".to_string();
    c.key_path = "C:\\keys\\id".to_string();
    c.remote_command = "cat load".to_string();
    let l = plan_launch(&c, true);
    assert_eq!(l.program, "ssh");
    assert_eq!(
        l.args,
        vec![
            "-p", "22", "-i", "C:\\keys\\id", "-o", "StrictHostKeyChecking=accept-new", "-o",
            "BatchMode=no", "me@gpu", "cat load",
        ]
    );
    assert!(l.use_askpass);
}

#[test]
fn launch_custom_command_through_cmd() {
    let mut c = default_ssh_settings();
    c.host = "gpu".to_string();
    c.ssh_command = Some("plink gpu nvidia-smi".to_string());
    let l = plan_launch(&c, true);
    assert_eq!(l.program, "cmd");
    assert_eq!(l.args, vec!["/C", "plink gpu nvidia-smi"]);
    assert!(!l.use_askpass);
}
