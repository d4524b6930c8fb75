//! The record-type registry: the fixed bidirectional table between a record
//! type's symbolic name and its IANA numeric code.
use vstd::prelude::*;

verus! {

/// ASCII lowercase folding of one character: uppercase ASCII letters are
/// mapped to lowercase, every other character is unchanged.
pub open spec fn lower_char(c: char) -> char {
    if 65 <= c as int && c as int <= 90 {
        ((c as u8) + 32) as char
    } else {
        c
    }
}

/// ASCII lowercase folding of a character sequence.
pub open spec fn lower_chars(s: Seq<char>) -> Seq<char> {
    s.map_values(|c: char| lower_char(c))
}

/// Relies on `str::to_ascii_lowercase`: ASCII uppercase letters are mapped to
/// their lowercase counterparts and all other characters are unchanged.
#[verifier::external_body]
fn to_ascii_lower(s: &str) -> (r: String)
    ensures
        r@ == lower_chars(s@),
{
    s.to_ascii_lowercase()
}

/// The numeric code registered for a lowercase record-type name, if any.
pub open spec fn spec_name_to_code(s: Seq<char>) -> Option<u32> {
    if s == "a"@ {
        Some(1u32)
    } else if s == "aaaa"@ {
        Some(28u32)
    } else if s == "any"@ {
        Some(0u32)
    } else if s == "caa"@ {
        Some(257u32)
    } else if s == "cds"@ {
        Some(59u32)
    } else if s == "cert"@ {
        Some(37u32)
    } else if s == "cname"@ {
        Some(5u32)
    } else if s == "dname"@ {
        Some(39u32)
    } else if s == "dnskey"@ {
        Some(48u32)
    } else if s == "ds"@ {
        Some(43u32)
    } else if s == "hinfo"@ {
        Some(13u32)
    } else if s == "ipseckey"@ {
        Some(45u32)
    } else if s == "mx"@ {
        Some(15u32)
    } else if s == "naptr"@ {
        Some(35u32)
    } else if s == "ns"@ {
        Some(2u32)
    } else if s == "nsec"@ {
        Some(47u32)
    } else if s == "nsec3"@ {
        Some(50u32)
    } else if s == "nsec3param"@ {
        Some(51u32)
    } else if s == "ptr"@ {
        Some(12u32)
    } else if s == "rp"@ {
        Some(17u32)
    } else if s == "rrsig"@ {
        Some(46u32)
    } else if s == "soa"@ {
        Some(6u32)
    } else if s == "spf"@ {
        Some(99u32)
    } else if s == "srv"@ {
        Some(33u32)
    } else if s == "sshfp"@ {
        Some(44u32)
    } else if s == "tlsa"@ {
        Some(52u32)
    } else if s == "txt"@ {
        Some(16u32)
    } else if s == "wks"@ {
        Some(11u32)
    } else {
        None
    }
}

/// The uppercase symbolic name registered for a numeric record-type code, or
/// `UNKNOWN` for a code outside the table.
pub open spec fn spec_code_to_name(code: u32) -> Seq<char> {
    if code == 1 {
        "A"@
    } else if code == 28 {
        "AAAA"@
    } else if code == 0 {
        "ANY"@
    } else if code == 257 {
        "CAA"@
    } else if code == 59 {
        "CDS"@
    } else if code == 37 {
        "CERT"@
    } else if code == 5 {
        "CNAME"@
    } else if code == 39 {
        "DNAME"@
    } else if code == 48 {
        "DNSKEY"@
    } else if code == 43 {
        "DS"@
    } else if code == 13 {
        "HINFO"@
    } else if code == 45 {
        "IPSECKEY"@
    } else if code == 15 {
        "MX"@
    } else if code == 35 {
        "NAPTR"@
    } else if code == 2 {
        "NS"@
    } else if code == 47 {
        "NSEC"@
    } else if code == 50 {
        "NSEC3"@
    } else if code == 51 {
        "NSEC3PARAM"@
    } else if code == 12 {
        "PTR"@
    } else if code == 17 {
        "RP"@
    } else if code == 46 {
        "RRSIG"@
    } else if code == 6 {
        "SOA"@
    } else if code == 99 {
        "SPF"@
    } else if code == 33 {
        "SRV"@
    } else if code == 44 {
        "SSHFP"@
    } else if code == 52 {
        "TLSA"@
    } else if code == 16 {
        "TXT"@
    } else if code == 11 {
        "WKS"@
    } else {
        "UNKNOWN"@
    }
}

/// Looks a record-type name up case-insensitively and returns its numeric
/// code, or `None` for a name outside the table.
pub fn name_to_code(rtype: &str) -> (r: Option<u32>)
    ensures
        r == spec_name_to_code(lower_chars(rtype@)),
{
    let low = to_ascii_lower(rtype);
    if low == "a".to_owned() {
        Some(1)
    } else if low == "aaaa".to_owned() {
        Some(28)
    } else if low == "any".to_owned() {
        Some(0)
    } else if low == "caa".to_owned() {
        Some(257)
    } else if low == "cds".to_owned() {
        Some(59)
    } else if low == "cert".to_owned() {
        Some(37)
    } else if low == "cname".to_owned() {
        Some(5)
    } else if low == "dname".to_owned() {
        Some(39)
    } else if low == "dnskey".to_owned() {
        Some(48)
    } else if low == "ds".to_owned() {
        Some(43)
    } else if low == "hinfo".to_owned() {
        Some(13)
    } else if low == "ipseckey".to_owned() {
        Some(45)
    } else if low == "mx".to_owned() {
        Some(15)
    } else if low == "naptr".to_owned() {
        Some(35)
    } else if low == "ns".to_owned() {
        Some(2)
    } else if low == "nsec".to_owned() {
        Some(47)
    } else if low == "nsec3".to_owned() {
        Some(50)
    } else if low == "nsec3param".to_owned() {
        Some(51)
    } else if low == "ptr".to_owned() {
        Some(12)
    } else if low == "rp".to_owned() {
        Some(17)
    } else if low == "rrsig".to_owned() {
        Some(46)
    } else if low == "soa".to_owned() {
        Some(6)
    } else if low == "spf".to_owned() {
        Some(99)
    } else if low == "srv".to_owned() {
        Some(33)
    } else if low == "sshfp".to_owned() {
        Some(44)
    } else if low == "tlsa".to_owned() {
        Some(52)
    } else if low == "txt".to_owned() {
        Some(16)
    } else if low == "wks".to_owned() {
        Some(11)
    } else {
        None
    }
}

/// Converts a numeric record-type code to its uppercase symbolic name, or
/// `UNKNOWN` for a code outside the table.
pub fn code_to_name(code: u32) -> (r: String)
    ensures
        r@ == spec_code_to_name(code),
{
    match code {
        1 => "A".to_owned(),
        28 => "AAAA".to_owned(),
        0 => "ANY".to_owned(),
        257 => "CAA".to_owned(),
        59 => "CDS".to_owned(),
        37 => "CERT".to_owned(),
        5 => "CNAME".to_owned(),
        39 => "DNAME".to_owned(),
        48 => "DNSKEY".to_owned(),
        43 => "DS".to_owned(),
        13 => "HINFO".to_owned(),
        45 => "IPSECKEY".to_owned(),
        15 => "MX".to_owned(),
        35 => "NAPTR".to_owned(),
        2 => "NS".to_owned(),
        47 => "NSEC".to_owned(),
        50 => "NSEC3".to_owned(),
        51 => "NSEC3PARAM".to_owned(),
        12 => "PTR".to_owned(),
        17 => "RP".to_owned(),
        46 => "RRSIG".to_owned(),
        6 => "SOA".to_owned(),
        99 => "SPF".to_owned(),
        33 => "SRV".to_owned(),
        44 => "SSHFP".to_owned(),
        52 => "TLSA".to_owned(),
        16 => "TXT".to_owned(),
        11 => "WKS".to_owned(),
        _ => "UNKNOWN".to_owned(),
    }
}

} // verus!
