//! How the command line tool reaches the daemon: the transport named in the
//! URI scheme, the address, the connection name and the authentication step.
use vstd::prelude::*;
use crate::procedure::RemoteAuthType;
use crate::text::{decimal, push_char, push_decimal, push_str, str_eq};

verus! {

/// The default TCP port of the daemon.
pub const DEFAULT_TCP_PORT: u16 = 16509;

/// How a connection is carried.
#[derive(Clone, Copy, Debug, PartialEq, Eq, Structural)]
pub enum Transport {
    Tcp,
    Unix,
}

/// What the client does to authenticate, given the types the daemon offers.
#[derive(Clone, Copy, Debug, PartialEq, Eq, Structural)]
pub enum AuthStep {
    /// Nothing to do.
    Nothing,
    /// Ask for polkit authentication.
    Polkit,
    /// The daemon wants a type this client cannot do.
    NotSupported,
}

/// Whether `k` is the position of the first `+` in `s`.
pub open spec fn first_plus_at(s: Seq<char>, k: int) -> bool {
    &&& 0 <= k < s.len()
    &&& s[k] == '+'
    &&& forall|j: int| 0 <= j < k ==> s[j] != '+'
}

/// Splits a scheme such as `qemu+tcp` at its first `+` into the driver and
/// the transport name.
pub fn split_scheme(scheme: &str) -> (r: (String, String))
    requires
        scheme@.contains('+'),
    ensures
        exists|k: int|
            first_plus_at(scheme@, k) && r.0@ == scheme@.subrange(0, k) && r.1@ == scheme@.subrange(
                k + 1,
                scheme@.len() as int,
            ),
{
    let n = scheme.unicode_len();
    let mut k: usize = 0;
    while k < n && scheme.get_char(k) != '+'
        invariant
            n == scheme@.len(),
            k <= n,
            scheme@.contains('+'),
            forall|j: int| 0 <= j < k ==> scheme@[j] != '+',
        decreases n - k,
    {
        k = k + 1;
    }
    if k == n {
        proof {
            let j = choose|j: int| 0 <= j < scheme@.len() && scheme@[j] == '+';
            assert(scheme@[j] != '+');
        }
    }
    let driver = String::from_str(scheme.substring_char(0, k));
    let rest = String::from_str(scheme.substring_char(k + 1, n));
    assert(first_plus_at(scheme@, k as int));
    (driver, rest)
}

/// The transport called `name`: `tcp` or `unix`.
pub fn transport_of(name: &str) -> (r: Option<Transport>)
    ensures
        r == if name@ == "tcp"@ {
            Some(Transport::Tcp)
        } else if name@ == "unix"@ {
            Some(Transport::Unix)
        } else {
            None::<Transport>
        },
{
    if str_eq(name, "tcp") {
        Some(Transport::Tcp)
    } else if str_eq(name, "unix") {
        Some(Transport::Unix)
    } else {
        None
    }
}

/// The name the connection is opened with: the driver, `://`, the URI path.
pub fn connection_name(driver: &str, path: &str) -> (r: String)
    ensures
        r@ == driver@ + "://"@ + path@,
{
    let mut s = String::from_str(driver);
    push_str(&mut s, "://");
    push_str(&mut s, path);
    s
}

/// The address to dial: the host (the local one when the URI names none), a
/// colon, the port (the daemon's default when none is named).
pub fn tcp_address(host: Option<&str>, port: Option<u16>) -> (r: String)
    ensures
        r@ == (match host {
            Some(h) => h@,
            None => "127.0.0.1"@,
        }) + seq![':'] + decimal(
            (match port {
                Some(p) => p,
                None => DEFAULT_TCP_PORT,
            }) as nat,
        ),
{
    let mut s = match host {
        Some(h) => String::from_str(h),
        None => String::from_str("127.0.0.1"),
    };
    push_char(&mut s, ':');
    let p = match port {
        Some(p) => p,
        None => DEFAULT_TCP_PORT,
    };
    push_decimal(&mut s, p as u64);
    s
}

/// The socket to connect to: the one named in the URI query, or the system default.
pub fn unix_socket_path(socket: Option<String>) -> (r: String)
    ensures
        r@ == match socket {
            Some(s) => s@,
            None => "/var/run/libvirt/libvirt-sock"@,
        },
{
    match socket {
        Some(s) => s,
        None => String::from_str("/var/run/libvirt/libvirt-sock"),
    }
}

/// What to do about authentication: only the first type offered counts.
pub fn auth_step(auth_list: &Vec<RemoteAuthType>) -> (r: AuthStep)
    ensures
        auth_list@.len() == 0 ==> r == AuthStep::Nothing,
        auth_list@.len() > 0 ==> r == match auth_list@[0] {
            RemoteAuthType::RemoteAuthNone => AuthStep::Nothing,
            RemoteAuthType::RemoteAuthPolkit => AuthStep::Polkit,
            RemoteAuthType::RemoteAuthSasl => AuthStep::NotSupported,
        },
{
    if auth_list.len() == 0 {
        return AuthStep::Nothing;
    }
    match auth_list[0] {
        RemoteAuthType::RemoteAuthNone => AuthStep::Nothing,
        RemoteAuthType::RemoteAuthPolkit => AuthStep::Polkit,
        RemoteAuthType::RemoteAuthSasl => AuthStep::NotSupported,
    }
}

/// The flags a connection is opened with: 1 for read-only.
pub fn open_flags(readonly: bool) -> (r: u32)
    ensures
        r == if readonly {
            1u32
        } else {
            0u32
        },
{
    if readonly {
        1
    } else {
        0
    }
}

} // verus!
