//! The packet adapter: what the framework assumes of `dnssector`, which
//! turns a raw buffer into a structured packet and back.
//!
//! Nothing in this file is proved. Each item states what the adapter's source
//! shows, in terms that the rest of the crate builds on.

use dnssector::DNSSector;
use dnssector::ParsedPacket;
use vstd::prelude::*;

verus! {

/// `dnssector::ParsedPacket`, a validated DNS message that hooks read and
/// rewrite in place. The framework carries it and never looks inside.
#[verifier::external_type_specification]
#[verifier::external_body]
pub struct ExParsedPacket(dnssector::ParsedPacket);

/// `dnssector::Error`, the reason for which a buffer was turned down.
#[verifier::external_type_specification]
#[verifier::external_body]
pub struct ExPacketError(dnssector::Error);

/// Whether `dnssector` accepts a buffer as a DNS message: whether
/// `DNSSector::new` followed by `DNSSector::parse` succeeds, which depends
/// on the bytes alone.
pub uninterp spec fn wire_format_accepted(bytes: Seq<u8>) -> bool;

/// The raw message that a parsed packet holds. A packet holds one from the
/// moment it is parsed; it is `None` only after an edit that failed half-way
/// and left the packet without its buffer.
pub uninterp spec fn held_bytes(packet: ParsedPacket) -> Option<Seq<u8>>;

/// Calls `DNSSector::parse` on the sector that `DNSSector::new` makes of the
/// buffer. `new` only wraps the buffer. `parse` validates every section of
/// the message and reads the buffer without writing to it, so a packet that
/// comes out holds exactly the bytes that went in.
#[verifier::external_body]
pub(crate) fn parse_wire(bytes: Vec<u8>) -> (parsed: Result<ParsedPacket, dnssector::Error>)
    ensures
        parsed is Ok <==> wire_format_accepted(bytes@),
        parsed matches Ok(packet) ==> held_bytes(packet) == Some(bytes@),
{
    DNSSector::new(bytes)?.parse()
}

/// Reads the public field `packet` of a `ParsedPacket` and says whether it is
/// filled.
#[verifier::external_body]
pub(crate) fn holds_bytes(packet: &ParsedPacket) -> (held: bool)
    ensures
        held == (held_bytes(*packet) is Some),
{
    packet.packet.is_some()
}

/// `ParsedPacket::into_packet` gives up the buffer that the packet holds. It
/// unwraps the buffer, so it may only be called on a packet that holds one.
pub assume_specification[ dnssector::ParsedPacket::into_packet ](packet: ParsedPacket) -> (bytes:
    Vec<u8>)
    requires
        held_bytes(packet) is Some,
    ensures
        bytes@ == held_bytes(packet)->0,
;

} // verus!
