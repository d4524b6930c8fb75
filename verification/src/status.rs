//! DNS response codes carried in the `Status` field of a DoH JSON envelope.
use vstd::prelude::*;

verus! {

/// A DNS response code (RCode). `Unknown` stands for any numeric code the
/// library does not recognize.
#[derive(Debug, Clone, Copy, PartialEq, Eq, Structural)]
pub enum RCode {
    /// No error condition.
    NoError,
    /// The server was unable to interpret the query.
    FormErr,
    /// The server was unable to process the query.
    ServFail,
    /// The domain name referenced in the query does not exist.
    NXDomain,
    /// The server does not support the requested kind of query.
    NotImp,
    /// The server refused to perform the operation.
    Refused,
    /// A name exists when it should not.
    YXDomain,
    /// A resource record set exists when it should not.
    YXRRSet,
    /// A resource record set that should exist does not.
    NXRRSet,
    /// The server is not authoritative for the zone.
    NotAuth,
    /// A name is not contained within the zone.
    NotZone,
    /// A numeric code outside the recognized range.
    Unknown,
}

/// The response code a numeric `Status` value stands for; values outside the
/// recognized range map to `Unknown`.
pub open spec fn spec_rcode_of(status: u32) -> RCode {
    if status == 0 {
        RCode::NoError
    } else if status == 1 {
        RCode::FormErr
    } else if status == 2 {
        RCode::ServFail
    } else if status == 3 {
        RCode::NXDomain
    } else if status == 4 {
        RCode::NotImp
    } else if status == 5 {
        RCode::Refused
    } else if status == 6 {
        RCode::YXDomain
    } else if status == 7 {
        RCode::YXRRSet
    } else if status == 8 {
        RCode::NXRRSet
    } else if status == 9 {
        RCode::NotAuth
    } else if status == 10 {
        RCode::NotZone
    } else {
        RCode::Unknown
    }
}

/// Interprets a numeric `Status` value as a response code.
pub fn rcode_of(status: u32) -> (r: RCode)
    ensures
        r == spec_rcode_of(status),
{
    match status {
        0 => RCode::NoError,
        1 => RCode::FormErr,
        2 => RCode::ServFail,
        3 => RCode::NXDomain,
        4 => RCode::NotImp,
        5 => RCode::Refused,
        6 => RCode::YXDomain,
        7 => RCode::YXRRSet,
        8 => RCode::NXRRSet,
        9 => RCode::NotAuth,
        10 => RCode::NotZone,
        _ => RCode::Unknown,
    }
}

} // verus!
