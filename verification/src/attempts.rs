//! The eight-byte message by which a forked child reports an OS error code
//! to its parent over a pipe, and the check of a raw system-call result.

use vstd::prelude::*;

verus! {

/// The footer that closes every error message sent over the pipe: `NOEX`.
pub const CLOEXEC_MSG_FOOTER: [u8; 4] = [78u8, 79u8, 69u8, 88u8];

/// The footer as a sequence of bytes.
pub open spec fn footer_bytes() -> Seq<u8> {
    seq![78u8, 79u8, 69u8, 88u8]
}

/// The four bytes of `v`, most significant first.
pub open spec fn be_bytes(v: u32) -> Seq<u8> {
    seq![(v >> 24u32) as u8, (v >> 16u32) as u8, (v >> 8u32) as u8, v as u8]
}

/// The value whose big-endian bytes are `b0 b1 b2 b3`.
pub open spec fn be_value(b0: u8, b1: u8, b2: u8, b3: u8) -> u32 {
    ((b0 as u32) << 24u32) | ((b1 as u32) << 16u32) | ((b2 as u32) << 8u32) | (b3 as u32)
}

/// The message that carries `errno`: its bits as a `u32`, big-endian, then the footer.
pub open spec fn errno_message_spec(errno: i32) -> Seq<u8> {
    be_bytes(errno as u32) + footer_bytes()
}

/// What the parent reads from a message: the code when the footer is intact.
pub open spec fn decoded_errno_spec(m: Seq<u8>) -> Option<i32> {
    if m.len() == 8 && m.subrange(4, 8) == footer_bytes() {
        Some(be_value(m[0], m[1], m[2], m[3]) as i32)
    } else {
        None
    }
}

/// Builds the message that reports `errno` to the parent.
pub fn encode_errno_message(errno: i32) -> (m: [u8; 8])
    ensures
        m@ == errno_message_spec(errno),
{
    let v: u32 = errno as u32;
    let m: [u8; 8] = [
        (v >> 24u32) as u8,
        (v >> 16u32) as u8,
        (v >> 8u32) as u8,
        v as u8,
        CLOEXEC_MSG_FOOTER[0],
        CLOEXEC_MSG_FOOTER[1],
        CLOEXEC_MSG_FOOTER[2],
        CLOEXEC_MSG_FOOTER[3],
    ];
    assert(m@ =~= errno_message_spec(errno));
    m
}

/// Reads an error code back from a message; `None` when its footer is not `NOEX`.
pub fn decode_errno_message(m: [u8; 8]) -> (r: Option<i32>)
    ensures
        r == decoded_errno_spec(m@),
{
    if m[4] == CLOEXEC_MSG_FOOTER[0] && m[5] == CLOEXEC_MSG_FOOTER[1] && m[6]
        == CLOEXEC_MSG_FOOTER[2] && m[7] == CLOEXEC_MSG_FOOTER[3] {
        let v: u32 = ((m[0] as u32) << 24u32) | ((m[1] as u32) << 16u32) | ((m[2] as u32)
            << 8u32) | (m[3] as u32);
        assert(m@.subrange(4, 8) =~= footer_bytes());
        Some(v as i32)
    } else {
        assert(m@.subrange(4, 8) != footer_bytes() || m@.len() != 8) by {
            if m@.subrange(4, 8) == footer_bytes() {
                assert(m@.subrange(4, 8)[0] == m[4]);
                assert(m@.subrange(4, 8)[1] == m[5]);
                assert(m@.subrange(4, 8)[2] == m[6]);
                assert(m@.subrange(4, 8)[3] == m[7]);
            }
        }
        None
    }
}

/// Reading a message gives back the error code that it was built from.
pub proof fn lemma_errno_message_round_trip(errno: i32)
    ensures
        decoded_errno_spec(errno_message_spec(errno)) == Some(errno),
{
    let m = errno_message_spec(errno);
    assert(m.subrange(4, 8) =~= footer_bytes());
    let v = errno as u32;
    assert(be_value((v >> 24u32) as u8, (v >> 16u32) as u8, (v >> 8u32) as u8, v as u8) == v)
        by (bit_vector);
    assert((v as i32) == errno) by (bit_vector)
        requires
            v == errno as u32,
    ;
}

/// `std::io::Error`, carried through without being looked into.
#[verifier::external_type_specification]
#[verifier::external_body]
pub struct ExIoError(std::io::Error);

/// Calls `std::io::Error::last_os_error`, which reads the error code that the
/// last failed system call of this thread left behind. Nothing is claimed of the
/// error it builds: it depends on the state of the thread.
#[verifier::external_body]
fn last_os_error() -> (e: std::io::Error) {
    std::io::Error::last_os_error()
}

/// Checks a raw system-call result: `-1` means failure, reported as the
/// thread's last OS error; any other value is passed through.
pub fn check_result(result: i32) -> (r: Result<i32, std::io::Error>)
    ensures
        r is Err <==> result == -1,
        r matches Ok(v) ==> v == result,
{
    if result == -1 {
        Err(last_os_error())
    } else {
        Ok(result)
    }
}

/// Reads the constant `libc::EINVAL`, the code for an invalid argument. Its
/// value differs from one platform to another in libc's source (22 on Linux,
/// macOS and Windows; other values on WASI, Hurd and Haiku), so no value is
/// claimed here.
#[verifier::external_body]
fn invalid_argument_code() -> (code: i32) {
    libc::EINVAL
}

/// The code that a child reports for an error: the OS code when the error
/// has one, else `EINVAL`.
pub fn reported_errno(raw: Option<i32>) -> (code: i32)
    ensures
        raw matches Some(e) ==> code == e,
{
    match raw {
        Some(e) => e,
        None => invalid_argument_code(),
    }
}

} // verus!
