//! Per-platform tables of option levels, option names and I/O-control codes.
use vstd::prelude::*;

verus! {

/// The operating-system families whose socket headers this library knows.
#[derive(Clone, Copy, Debug, PartialEq, Eq, Structural)]
pub enum Platform {
    /// Linux and Android on the architectures that use the generic socket header.
    Linux,
    /// macOS and iOS.
    Apple,
    /// FreeBSD.
    FreeBsd,
    /// DragonFly BSD.
    DragonFly,
    /// Windows, through Winsock; its socket-level and IP-level numbers are the BSD ones.
    Windows,
}

/// Every socket option that the facade reads or writes.
#[derive(Clone, Copy, Debug, PartialEq, Eq, Structural)]
pub enum SockOpt {
    NoDelay,
    KeepAlive,
    KeepAliveIdle,
    RecvTimeout,
    SendTimeout,
    Ttl,
    OnlyV6,
    Broadcast,
    MulticastLoopV4,
    MulticastTtlV4,
    MulticastLoopV6,
    AddMembershipV4,
    DropMembershipV4,
    AddMembershipV6,
    DropMembershipV6,
    Error,
    ReuseAddress,
}

/// The two-part key under which the kernel files an option.
#[derive(Clone, Copy, Debug, PartialEq, Eq, Structural)]
pub struct OptKey {
    pub level: i32,
    pub name: i32,
}

pub const IPPROTO_IP: i32 = 0;
pub const IPPROTO_TCP: i32 = 6;
pub const IPPROTO_IPV6: i32 = 41;

/// The socket-level namespace: its level and the names filed under it.
pub open spec fn sol_socket_key(p: Platform, opt: SockOpt) -> OptKey {
    match p {
        Platform::Linux => OptKey {
            level: 1,
            name: match opt {
                SockOpt::KeepAlive => 9,
                SockOpt::RecvTimeout => 20,
                SockOpt::SendTimeout => 21,
                SockOpt::Broadcast => 6,
                SockOpt::Error => 4,
                _ => 2,  // ReuseAddress
            },
        },
        _ => OptKey {
            level: 0xffff,
            name: match opt {
                SockOpt::KeepAlive => 0x0008,
                SockOpt::RecvTimeout => 0x1006,
                SockOpt::SendTimeout => 0x1005,
                SockOpt::Broadcast => 0x0020,
                SockOpt::Error => 0x1007,
                _ => 0x0004,  // ReuseAddress
            },
        },
    }
}

/// The option table: the key of each option on each platform.
pub open spec fn spec_option_key(p: Platform, opt: SockOpt) -> OptKey {
    let linux = p == Platform::Linux;
    match opt {
        SockOpt::NoDelay => OptKey { level: IPPROTO_TCP, name: 1 },
        SockOpt::KeepAliveIdle => OptKey {
            level: IPPROTO_TCP,
            name: match p {
                Platform::Linux => 4,
                Platform::Apple => 0x10,
                // Winsock's number; keepalive on Windows goes through
                // `SIO_KEEPALIVE_VALS` instead (see `keepalive_by_control`).
                Platform::Windows => 3,
                _ => 256,
            },
        },
        SockOpt::Ttl => OptKey { level: IPPROTO_IP, name: if linux { 2 } else { 4 } },
        SockOpt::MulticastTtlV4 => OptKey { level: IPPROTO_IP, name: if linux { 33 } else { 10 } },
        SockOpt::MulticastLoopV4 => OptKey { level: IPPROTO_IP, name: if linux { 34 } else { 11 } },
        SockOpt::AddMembershipV4 => OptKey { level: IPPROTO_IP, name: if linux { 35 } else { 12 } },
        SockOpt::DropMembershipV4 => OptKey { level: IPPROTO_IP, name: if linux { 36 } else { 13 } },
        SockOpt::OnlyV6 => OptKey { level: IPPROTO_IPV6, name: if linux { 26 } else { 27 } },
        SockOpt::MulticastLoopV6 => OptKey { level: IPPROTO_IPV6, name: if linux { 19 } else { 11 } },
        SockOpt::AddMembershipV6 => OptKey { level: IPPROTO_IPV6, name: if linux { 20 } else { 12 } },
        SockOpt::DropMembershipV6 => OptKey { level: IPPROTO_IPV6, name: if linux { 21 } else { 13 } },
        _ => sol_socket_key(p, opt),
    }
}

/// Looks up the level and name of `opt` on platform `p`.
pub fn option_key(p: Platform, opt: SockOpt) -> (r: OptKey)
    ensures
        r == spec_option_key(p, opt),
{
    let linux = matches!(p, Platform::Linux);
    match opt {
        SockOpt::NoDelay => OptKey { level: IPPROTO_TCP, name: 1 },
        SockOpt::KeepAliveIdle => OptKey {
            level: IPPROTO_TCP,
            name: match p {
                Platform::Linux => 4,
                Platform::Apple => 0x10,
                Platform::Windows => 3,
                _ => 256,
            },
        },
        SockOpt::Ttl => OptKey { level: IPPROTO_IP, name: if linux { 2 } else { 4 } },
        SockOpt::MulticastTtlV4 => OptKey { level: IPPROTO_IP, name: if linux { 33 } else { 10 } },
        SockOpt::MulticastLoopV4 => OptKey { level: IPPROTO_IP, name: if linux { 34 } else { 11 } },
        SockOpt::AddMembershipV4 => OptKey { level: IPPROTO_IP, name: if linux { 35 } else { 12 } },
        SockOpt::DropMembershipV4 => OptKey { level: IPPROTO_IP, name: if linux { 36 } else { 13 } },
        SockOpt::OnlyV6 => OptKey { level: IPPROTO_IPV6, name: if linux { 26 } else { 27 } },
        SockOpt::MulticastLoopV6 => OptKey { level: IPPROTO_IPV6, name: if linux { 19 } else { 11 } },
        SockOpt::AddMembershipV6 => OptKey { level: IPPROTO_IPV6, name: if linux { 20 } else { 12 } },
        SockOpt::DropMembershipV6 => OptKey { level: IPPROTO_IPV6, name: if linux { 21 } else { 13 } },
        _ => {
            let level: i32 = if linux { 1 } else { 0xffff };
            let name: i32 = match opt {
                SockOpt::KeepAlive => if linux { 9 } else { 0x0008 },
                SockOpt::RecvTimeout => if linux { 20 } else { 0x1006 },
                SockOpt::SendTimeout => if linux { 21 } else { 0x1005 },
                SockOpt::Broadcast => if linux { 6 } else { 0x0020 },
                SockOpt::Error => if linux { 4 } else { 0x1007 },
                _ => if linux { 2 } else { 0x0004 },
            };
            OptKey { level, name }
        },
    }
}

/// No two options share a key on the same platform.
pub proof fn lemma_option_keys_distinct(p: Platform, a: SockOpt, b: SockOpt)
    requires
        a != b,
    ensures
        spec_option_key(p, a) != spec_option_key(p, b),
{
}

/// The I/O-control request that switches non-blocking mode.
pub open spec fn spec_fionbio(p: Platform) -> u64 {
    if p == Platform::Linux { 0x5421 } else { 0x8004667e }
}

/// The I/O-control request that sets the close-on-exec flag (POSIX platforms only).
pub open spec fn spec_fioclex(p: Platform) -> u64 {
    if p == Platform::Linux { 0x5451 } else { 0x20006601 }
}

/// The I/O-control request code for switching non-blocking mode on `p`.
pub fn fionbio(p: Platform) -> (r: u64)
    ensures
        r == spec_fionbio(p),
{
    if matches!(p, Platform::Linux) { 0x5421 } else { 0x8004667e }
}

/// The I/O-control request code for setting close-on-exec on `p`.
pub fn fioclex(p: Platform) -> (r: u64)
    ensures
        r == spec_fioclex(p),
{
    if matches!(p, Platform::Linux) { 0x5451 } else { 0x20006601 }
}

} // verus!
