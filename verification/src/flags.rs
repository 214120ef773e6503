//! The file status flags of a descriptor, as the word that `fcntl` reads
//! and writes.
//!
//! Which bits of that word are flags, and which bit is the non-blocking
//! flag, is the platform's business and is left to `nix`.

use nix::fcntl::OFlag;
use vstd::prelude::*;

verus! {

/// The status word to install on a descriptor whose status word reads
/// `bits`, so that reads and writes on it no longer block: the bits of
/// the flag set that `OFlag::from_bits_truncate` builds from `bits`, after
/// `OFlag::insert` has put `OFlag::O_NONBLOCK` into it.
pub uninterp spec fn nonblocking(bits: i32) -> i32;

/// The non-blocking flag as a status word: what an empty status word
/// becomes.
pub open spec fn nonblock_flag() -> i32 {
    nonblocking(0)
}

/// Whether `flags` holds every bit of the non-blocking flag.
pub open spec fn holds_nonblock(flags: i32) -> bool {
    flags & nonblock_flag() == nonblock_flag()
}

/// Computes the status word that makes a descriptor non-blocking from the
/// word that was read from it.
///
/// Builds the flag set of `bits` with `nix::fcntl::OFlag::from_bits_truncate`,
/// which keeps the bits that belong to a flag of the platform and drops
/// the others, calls `OFlag::insert` on it with `OFlag::O_NONBLOCK`, and
/// reads the bits of the set back. Both steps work on the bits alone, so
/// the same word always gives the same result; the result is named and
/// not spelled out, because the flags and their values differ between
/// platforms. What `insert` puts in is there afterwards: the result holds
/// every bit of `O_NONBLOCK`, which is the word that this function makes
/// of the empty word.
#[verifier::external_body]
pub(crate) fn nonblocking_flags(bits: i32) -> (flags: i32)
    ensures
        flags == nonblocking(bits),
        holds_nonblock(flags),
{
    let mut set = OFlag::from_bits_truncate(bits);
    set.insert(OFlag::O_NONBLOCK);
    set.bits()
}

} // verus!
