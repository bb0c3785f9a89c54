use vstd::prelude::*;

verus! {

pub open spec fn digit(d: nat) -> Seq<char> {
    if d == 0 {
        "0"@
    } else if d == 1 {
        "1"@
    } else if d == 2 {
        "2"@
    } else if d == 3 {
        "3"@
    } else if d == 4 {
        "4"@
    } else if d == 5 {
        "5"@
    } else if d == 6 {
        "6"@
    } else if d == 7 {
        "7"@
    } else if d == 8 {
        "8"@
    } else {
        "9"@
    }
}

/// Decimal notation of `n`, without leading zeros.
pub open spec fn decimal(n: nat) -> Seq<char>
    decreases n,
{
    if n < 10 {
        digit(n)
    } else {
        decimal(n / 10) + digit(n % 10)
    }
}

fn digit_str(d: u16) -> (r: &'static str)
    requires
        d < 10,
    ensures
        r@ == digit(d as nat),
{
    if d == 0 {
        "0"
    } else if d == 1 {
        "1"
    } else if d == 2 {
        "2"
    } else if d == 3 {
        "3"
    } else if d == 4 {
        "4"
    } else if d == 5 {
        "5"
    } else if d == 6 {
        "6"
    } else if d == 7 {
        "7"
    } else if d == 8 {
        "8"
    } else {
        "9"
    }
}

/// Writes a port number in decimal.
pub fn decimal_string(n: u16) -> (r: String)
    ensures
        r@ == decimal(n as nat),
    decreases n,
{
    if n < 10 {
        String::from_str(digit_str(n))
    } else {
        let mut s = decimal_string(n / 10);
        s.append(digit_str(n % 10));
        s
    }
}

pub open spec fn views(v: Seq<String>) -> Seq<Seq<char>> {
    v.map_values(|s: String| s@)
}

/// Arguments of the port-forward helper: the local port to the pod's SSH port.
pub open spec fn port_forward_args_of(namespace: Seq<char>, pod: Seq<char>, local_port: u16) -> Seq<
    Seq<char>,
> {
    seq!["-n"@, namespace, "port-forward"@, pod, decimal(local_port as nat) + ":2222"@]
}

pub fn port_forward_args(namespace: &String, pod: &String, local_port: u16) -> (r: Vec<String>)
    ensures
        views(r@) == port_forward_args_of(namespace@, pod@, local_port),
{
    let mut pair = decimal_string(local_port);
    pair.append(":2222");
    let mut r: Vec<String> = Vec::new();
    r.push(String::from_str("-n"));
    r.push(namespace.clone());
    r.push(String::from_str("port-forward"));
    r.push(pod.clone());
    r.push(pair);
    assert(views(r@) =~= port_forward_args_of(namespace@, pod@, local_port));
    r
}

/// Arguments of the remote-mount helper: the pod's data path over the
/// forwarded port, authenticated with the session's identity file.
pub open spec fn mount_args_of(identity_file: Seq<char>, local_port: u16, mountpoint: Seq<char>) -> Seq<
    Seq<char>,
> {
    seq![
        "ssh@127.0.0.1:/data"@,
        "-o"@,
        "auto_unmount"@,
        "-o"@,
        "UserKnownHostsFile=/dev/null"@,
        "-o"@,
        "IdentityFile="@ + identity_file,
        "-o"@,
        "StrictHostKeyChecking=no"@,
        "-f"@,
        "-p"@,
        decimal(local_port as nat),
        mountpoint,
    ]
}

pub fn mount_args(identity_file: &String, local_port: u16, mountpoint: &String) -> (r: Vec<String>)
    ensures
        views(r@) == mount_args_of(identity_file@, local_port, mountpoint@),
{
    let mut identity = String::from_str("IdentityFile=");
    identity.append(identity_file.as_str());
    let mut r: Vec<String> = Vec::new();
    r.push(String::from_str("ssh@127.0.0.1:/data"));
    r.push(String::from_str("-o"));
    r.push(String::from_str("auto_unmount"));
    r.push(String::from_str("-o"));
    r.push(String::from_str("UserKnownHostsFile=/dev/null"));
    r.push(String::from_str("-o"));
    r.push(identity);
    r.push(String::from_str("-o"));
    r.push(String::from_str("StrictHostKeyChecking=no"));
    r.push(String::from_str("-f"));
    r.push(String::from_str("-p"));
    r.push(decimal_string(local_port));
    r.push(mountpoint.clone());
    assert(views(r@) =~= mount_args_of(identity_file@, local_port, mountpoint@));
    r
}

/// The interactive shell, started in the claim's mount path.
pub open spec fn shell_command_of() -> Seq<Seq<char>> {
    seq!["/bin/bash"@, "-c"@, "cd /data && /bin/bash"@]
}

pub fn shell_command() -> (r: Vec<String>)
    ensures
        views(r@) == shell_command_of(),
{
    let mut r: Vec<String> = Vec::new();
    r.push(String::from_str("/bin/bash"));
    r.push(String::from_str("-c"));
    r.push(String::from_str("cd /data && /bin/bash"));
    assert(views(r@) =~= shell_command_of());
    r
}

} // verus!
