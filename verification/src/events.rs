//! Readiness flags and the two composite masks built from them.
use vstd::prelude::*;

verus! {

/// A set of readiness flags, in the integer type of the host's polling record.
pub type Events = libc::c_short;

/// The associated file is available for read operations.
pub const POLLIN: Events = 0x001;

/// There is urgent data available for read operations.
pub const POLLPRI: Events = 0x002;

/// The associated file is available for write operations.
pub const POLLOUT: Events = 0x004;

/// Error condition happened on the associated file descriptor.
/// The host always reports this flag; it need not be asked for.
pub const POLLERR: Events = 0x008;

/// Hang up happened on the associated file descriptor.
/// The host always reports this flag; it need not be asked for.
pub const POLLHUP: Events = 0x010;

/// The associated file is invalid.
/// The host always reports this flag; it need not be asked for.
pub const POLLNVAL: Events = 0x020;

/// The associated file is ready to be read.
pub const READ: Events = POLLIN | POLLHUP | POLLERR | POLLPRI;

/// The associated file is ready to be written.
pub const WRITE: Events = POLLOUT | POLLERR;

/// The flags that mark a failed or invalid descriptor.
pub const FAILED: Events = POLLERR | POLLNVAL;

/// `libc::POLLIN`, the host's flag for data to read. The contract claims
/// that it is the bit 0x001, as the host's headers define it.
#[verifier::external_body]
pub(crate) fn host_pollin() -> (flag: Events)
    ensures
        flag == POLLIN,
{
    libc::POLLIN
}

/// `libc::POLLPRI`, the host's flag for urgent data to read. The contract
/// claims that it is the bit 0x002, as the host's headers define it.
#[verifier::external_body]
pub(crate) fn host_pollpri() -> (flag: Events)
    ensures
        flag == POLLPRI,
{
    libc::POLLPRI
}

/// `libc::POLLOUT`, the host's flag for room to write. The contract claims
/// that it is the bit 0x004, as the host's headers define it.
#[verifier::external_body]
pub(crate) fn host_pollout() -> (flag: Events)
    ensures
        flag == POLLOUT,
{
    libc::POLLOUT
}

/// `libc::POLLERR`, the host's flag for an error condition. The contract
/// claims that it is the bit 0x008, as the host's headers define it.
#[verifier::external_body]
pub(crate) fn host_pollerr() -> (flag: Events)
    ensures
        flag == POLLERR,
{
    libc::POLLERR
}

/// `libc::POLLHUP`, the host's flag for a hang up. The contract claims that
/// it is the bit 0x010, as the host's headers define it.
#[verifier::external_body]
pub(crate) fn host_pollhup() -> (flag: Events)
    ensures
        flag == POLLHUP,
{
    libc::POLLHUP
}

/// `libc::POLLNVAL`, the host's flag for an invalid descriptor. The contract
/// claims that it is the bit 0x020, as the host's headers define it.
#[verifier::external_body]
pub(crate) fn host_pollnval() -> (flag: Events)
    ensures
        flag == POLLNVAL,
{
    libc::POLLNVAL
}

/// The mask [`READ`], put together from the host's own flags.
pub fn read_mask() -> (mask: Events)
    ensures
        mask == READ,
{
    host_pollin() | host_pollhup() | host_pollerr() | host_pollpri()
}

/// The mask [`WRITE`], put together from the host's own flags.
pub fn write_mask() -> (mask: Events)
    ensures
        mask == WRITE,
{
    host_pollout() | host_pollerr()
}

/// The mask [`FAILED`], put together from the host's own flags.
pub fn failed_mask() -> (mask: Events)
    ensures
        mask == FAILED,
{
    host_pollerr() | host_pollnval()
}

/// The composite masks are exactly the unions of their flags, and every
/// single flag of a composite mask alone is enough to meet it.
pub proof fn lemma_masks(revents: Events)
    ensures
        READ == 0x01b,
        WRITE == 0x00c,
        FAILED == 0x028,
        (revents & READ != 0) <==> (revents & POLLIN != 0 || revents & POLLHUP != 0 || revents
            & POLLERR != 0 || revents & POLLPRI != 0),
        (revents & WRITE != 0) <==> (revents & POLLOUT != 0 || revents & POLLERR != 0),
        (revents & FAILED != 0) <==> (revents & POLLERR != 0 || revents & POLLNVAL != 0),
        revents & POLLERR != 0 ==> revents & READ != 0 && revents & WRITE != 0,
{
    assert(0x001i16 | 0x010i16 | 0x008i16 | 0x002i16 == 0x01bi16) by (bit_vector);
    assert(0x004i16 | 0x008i16 == 0x00ci16) by (bit_vector);
    assert(0x008i16 | 0x020i16 == 0x028i16) by (bit_vector);
    assert((revents & 0x01bi16 != 0) <==> (revents & 0x001i16 != 0 || revents & 0x010i16 != 0
        || revents & 0x008i16 != 0 || revents & 0x002i16 != 0)) by (bit_vector);
    assert((revents & 0x00ci16 != 0) <==> (revents & 0x004i16 != 0 || revents & 0x008i16 != 0))
        by (bit_vector);
    assert((revents & 0x028i16 != 0) <==> (revents & 0x008i16 != 0 || revents & 0x020i16 != 0))
        by (bit_vector);
}

} // verus!
