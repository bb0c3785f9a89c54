use pv_inspect::commands::{decimal_string, mount_args, port_forward_args, shell_command};
use pv_inspect::credential::provision_credential;

#[test]
fn ports_in_decimal() {
    assert_eq!(decimal_string(0), "0");
    assert_eq!(decimal_string(7), "7");
    assert_eq!(decimal_string(10), "10");
    assert_eq!(decimal_string(2222), "2222");
    assert_eq!(decimal_string(65535), "65535");
}

#[test]
fn port_forward_arguments() {
    let a = port_forward_args(&"default".to_string(), &"pvc-inspect-data-1-abcde".to_string(), 40123);
    assert_eq!(a, vec!["-n", "default", "port-forward", "pvc-inspect-data-1-abcde", "40123:2222"]);
}

#[test]
fn mount_arguments() {
    let a = mount_args(&"/tmp/key".to_string(), 5000, &"/mnt/x".to_string());
    assert_eq!(
        a,
        vec![
            "ssh@127.0.0.1:/data",
            "-o",
            "auto_unmount",
            "-o",
            "UserKnownHostsFile=/dev/null",
            "-o",
            "IdentityFile=/tmp/key",
            "-o",
            "StrictHostKeyChecking=no",
            "-f",
            "-p",
            "5000",
            "/mnt/x"
        ]
    );
}

#[test]
fn shell_starts_in_data() {
    assert_eq!(shell_command(), vec!["/bin/bash", "-c", "cd /data && /bin/bash"]);
}

#[test]
fn credential_is_an_openssh_ed25519_key() {
    let a = provision_credential().unwrap();
    let b = provision_credential().unwrap();
    assert!(a.public_openssh.starts_with("ssh-ed25519 "));
    assert_ne!(a.public_openssh, b.public_openssh);
}
