//! Event field types whose byte form is fixed: socket addresses and points in time.

use crate::encoding::{be_bytes, be_bytes_of_2, be_bytes_of_4, le_bytes, put_uint_le};
use vstd::prelude::*;

verus! {

/// The value used in `SocketAddrV4::family` to identify IPv4 addresses.
pub const AF_INET: u16 = 2;

/// The value used in `SocketAddrV6::family` to identify IPv6 addresses.
pub const AF_INET6: u16 = 23;

/// The number of seconds between the epoch of `FILETIME` and the UNIX epoch.
pub const WINDOWS_EPOCH_TO_UNIX_EPOCH_SECS: u64 = 11_644_473_600;

/// The number of `FILETIME` intervals of 100 nanoseconds in a second.
pub const FILETIME_INTERVALS_PER_SEC: u64 = 10_000_000;

/// An IPv4 socket address in the layout that a decoder of socket addresses expects.
#[derive(Clone, Debug)]
pub struct SocketAddrV4 {
    /// Address family identifier.
    pub family: u16,
    /// Port identifier, stored in big-endian form.
    pub port: [u8; 2],
    /// IPv4 address, stored in big-endian form.
    pub address: [u8; 4],
    /// Zero padding.
    pub zero: [u8; 8],
}

impl SocketAddrV4 {
    /// The sixteen bytes of the address as an event record carries them.
    pub open spec fn wire_bytes(&self) -> Seq<u8> {
        le_bytes(self.family as nat, 2) + self.port@ + self.address@ + self.zero@
    }

    /// The address of the given octets and port.
    pub fn new(octets: [u8; 4], port: u16) -> (addr: SocketAddrV4)
        ensures
            addr.family == AF_INET,
            addr.port@ == be_bytes(port as nat, 2),
            addr.address == octets,
            addr.zero@ == seq![0u8, 0u8, 0u8, 0u8, 0u8, 0u8, 0u8, 0u8],
    {
        let port_bytes: [u8; 2] = [(port / 256) as u8, (port % 256) as u8];
        let zero: [u8; 8] = [0, 0, 0, 0, 0, 0, 0, 0];
        proof {
            be_bytes_of_2(port_bytes[0], port_bytes[1]);
            assert(port_bytes@ =~= be_bytes(port as nat, 2));
            assert(zero@ =~= seq![0u8, 0u8, 0u8, 0u8, 0u8, 0u8, 0u8, 0u8]);
        }
        SocketAddrV4 { family: AF_INET, port: port_bytes, address: octets, zero }
    }

    /// The sixteen bytes of the address as an event record carries them.
    pub fn to_bytes(&self) -> (bytes: Vec<u8>)
        ensures
            bytes@ == self.wire_bytes(),
    {
        let mut bytes: Vec<u8> = Vec::new();
        put_uint_le(&mut bytes, self.family as u64, 2);
        put_array(&mut bytes, self.port.as_slice());
        put_array(&mut bytes, self.address.as_slice());
        put_array(&mut bytes, self.zero.as_slice());
        bytes
    }
}

/// An IPv6 socket address in the layout that a decoder of socket addresses expects.
#[derive(Clone, Debug)]
pub struct SocketAddrV6 {
    /// Address family identifier.
    pub family: u16,
    /// Port identifier, stored in big-endian form.
    pub port: [u8; 2],
    /// IPv6 flow info.
    pub flow_info: [u8; 4],
    /// IPv6 address.
    pub address: [u8; 16],
    /// IPv6 scope.
    pub scope_id: [u8; 4],
}

impl SocketAddrV6 {
    /// The twenty-eight bytes of the address as an event record carries them.
    pub open spec fn wire_bytes(&self) -> Seq<u8> {
        le_bytes(self.family as nat, 2) + self.port@ + self.flow_info@ + self.address@
            + self.scope_id@
    }

    /// The address of the given octets, port, flow information and scope.
    pub fn new(octets: [u8; 16], port: u16, flow_info: u32, scope_id: u32) -> (addr: SocketAddrV6)
        ensures
            addr.family == AF_INET6,
            addr.port@ == be_bytes(port as nat, 2),
            addr.flow_info@ == be_bytes(flow_info as nat, 4),
            addr.address == octets,
            addr.scope_id@ == be_bytes(scope_id as nat, 4),
    {
        let port_bytes: [u8; 2] = [(port / 256) as u8, (port % 256) as u8];
        let flow_bytes: [u8; 4] = be_array_4(flow_info);
        let scope_bytes: [u8; 4] = be_array_4(scope_id);
        proof {
            be_bytes_of_2(port_bytes[0], port_bytes[1]);
            assert(port_bytes@ =~= be_bytes(port as nat, 2));
        }
        SocketAddrV6 {
            family: AF_INET6,
            port: port_bytes,
            flow_info: flow_bytes,
            address: octets,
            scope_id: scope_bytes,
        }
    }

    /// The twenty-eight bytes of the address as an event record carries them.
    pub fn to_bytes(&self) -> (bytes: Vec<u8>)
        ensures
            bytes@ == self.wire_bytes(),
    {
        let mut bytes: Vec<u8> = Vec::new();
        put_uint_le(&mut bytes, self.family as u64, 2);
        put_array(&mut bytes, self.port.as_slice());
        put_array(&mut bytes, self.flow_info.as_slice());
        put_array(&mut bytes, self.address.as_slice());
        put_array(&mut bytes, self.scope_id.as_slice());
        bytes
    }
}

/// The four bytes of a number, most significant byte first.
pub fn be_array_4(value: u32) -> (bytes: [u8; 4])
    ensures
        bytes@ == be_bytes(value as nat, 4),
{
    let bytes: [u8; 4] = [
        (value / 0x100_0000) as u8,
        (value / 0x1_0000 % 256) as u8,
        (value / 0x100 % 256) as u8,
        (value % 256) as u8,
    ];
    proof {
        be_bytes_of_4(bytes[0], bytes[1], bytes[2], bytes[3]);
        assert(bytes@ =~= be_bytes(value as nat, 4));
    }
    bytes
}

/// Appends the bytes of a slice to a buffer.
pub fn put_array(buf: &mut Vec<u8>, src: &[u8])
    ensures
        final(buf)@ == old(buf)@ + src@,
{
    let mut i: usize = 0;
    proof {
        assert(buf@ =~= old(buf)@ + src@.subrange(0, 0));
    }
    while i < src.len()
        invariant
            i <= src@.len(),
            buf@ == old(buf)@ + src@.subrange(0, i as int),
        decreases src@.len() - i,
    {
        buf.push(src[i]);
        proof {
            assert(src@.subrange(0, i as int).push(src@[i as int]) =~= src@.subrange(
                0,
                i as int + 1,
            ));
        }
        i = i + 1;
    }
    proof {
        assert(src@.subrange(0, src@.len() as int) =~= src@);
    }
}

/// A point in time: the number of intervals of 100 nanoseconds since the
/// first of January 1601.
#[derive(Copy, Clone, PartialEq, Eq, Structural, Hash, Debug)]
pub struct FILETIME(pub u64);

/// Says that a point in time has no `FILETIME`.
#[derive(Copy, Clone, PartialEq, Eq, Structural, Debug)]
pub struct OutOfRangeError;

/// The number of `FILETIME` intervals between the `FILETIME` epoch and the
/// point in time that lies `secs` seconds and `nanos` nanoseconds after the
/// UNIX epoch.
pub open spec fn filetime_intervals(secs: nat, nanos: nat) -> nat {
    (secs + WINDOWS_EPOCH_TO_UNIX_EPOCH_SECS as nat) * FILETIME_INTERVALS_PER_SEC as nat + nanos
        / 100
}

/// Whether the seconds since the UNIX epoch can be counted from the
/// `FILETIME` epoch in 64 bits.
pub open spec fn filetime_in_range(secs: nat) -> bool {
    secs + WINDOWS_EPOCH_TO_UNIX_EPOCH_SECS as nat <= u64::MAX as nat
}

/// The `FILETIME` of a point in time, given as the time that has passed since
/// the UNIX epoch, or `None` for a point before it.
pub open spec fn filetime_of(elapsed: Option<(u64, u32)>) -> Result<FILETIME, OutOfRangeError> {
    match elapsed {
        Some((secs, nanos)) => if filetime_in_range(secs as nat) {
            Ok(
                FILETIME(
                    (filetime_intervals(secs as nat, nanos as nat) % 0x1_0000_0000_0000_0000) as u64,
                ),
            )
        } else {
            Err(OutOfRangeError)
        },
        None => Err(OutOfRangeError),
    }
}

impl FILETIME {
    /// Converts the time that has passed since the UNIX epoch, in seconds and
    /// nanoseconds, to a `FILETIME`. A point in time before the UNIX epoch,
    /// given as `None`, is out of range, and so is one whose seconds cannot be
    /// counted from the `FILETIME` epoch in 64 bits. The count of intervals is
    /// cut to 64 bits.
    pub fn from_unix_elapsed(elapsed: Option<(u64, u32)>) -> (r: Result<FILETIME, OutOfRangeError>)
        ensures
            r == filetime_of(elapsed),
    {
        match elapsed {
            Some((secs, nanos)) => {
                if secs > u64::MAX - WINDOWS_EPOCH_TO_UNIX_EPOCH_SECS {
                    Err(OutOfRangeError)
                } else {
                    let windows_secs: u128 = secs as u128 + WINDOWS_EPOCH_TO_UNIX_EPOCH_SECS as u128;
                    assert(FILETIME_INTERVALS_PER_SEC == 10_000_000);
                    let intervals: u128 = windows_secs * 10_000_000 + (nanos / 100) as u128;
                    Ok(FILETIME((intervals % 0x1_0000_0000_0000_0000) as u64))
                }
            },
            None => Err(OutOfRangeError),
        }
    }

    /// Converts a point in time to a `FILETIME`: that of the time that has
    /// passed between the UNIX epoch and the point. A point before the UNIX
    /// epoch is out of range.
    pub fn try_from(t: std::time::SystemTime) -> (r: Result<FILETIME, OutOfRangeError>)
        ensures
            r == filetime_of(unix_elapsed_of(t)),
    {
        let elapsed = unix_elapsed(&t);
        FILETIME::from_unix_elapsed(elapsed)
    }

    /// The eight bytes of the count as an event record carries them.
    pub fn to_bytes(&self) -> (bytes: Vec<u8>)
        ensures
            bytes@ == le_bytes(self.0 as nat, 8),
    {
        let mut bytes: Vec<u8> = Vec::new();
        put_uint_le(&mut bytes, self.0, 8);
        bytes
    }
}

/// A point in time of the system clock.
#[verifier::external_type_specification]
#[verifier::external_body]
pub struct ExSystemTime(std::time::SystemTime);

/// The time that has passed between the UNIX epoch and a point in time, in
/// whole seconds and nanoseconds, or `None` for a point before the epoch.
pub uninterp spec fn unix_elapsed_of(t: std::time::SystemTime) -> Option<(u64, u32)>;

/// The time that has passed between the UNIX epoch and a point in time, in
/// whole seconds and nanoseconds, or `None` for a point before the epoch.
///
/// Calls `std::time::SystemTime::duration_since` with `UNIX_EPOCH`, and
/// `Duration::as_secs` and `Duration::subsec_nanos` on what it returns. The
/// result depends on the point in time alone, so it has a name; nothing
/// else is claimed of it.
#[verifier::external_body]
fn unix_elapsed(t: &std::time::SystemTime) -> (elapsed: Option<(u64, u32)>)
    ensures
        elapsed == unix_elapsed_of(*t),
{
    match t.duration_since(std::time::UNIX_EPOCH) {
        Ok(d) => Some((d.as_secs(), d.subsec_nanos())),
        Err(_) => None,
    }
}

} // verus!
