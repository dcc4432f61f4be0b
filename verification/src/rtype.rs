//! DNS record types: the table of supported symbolic names and their IANA
//! numeric codes, with case-insensitive lookup.
use vstd::prelude::*;
use crate::text::{lower_seq, str_eq_ignore_case};

verus! {

/// A DNS record type: its IANA numeric code and its lower-case symbolic name.
#[derive(Debug, Clone, Copy)]
pub struct Rtype(pub u32, pub &'static str);

/// The record type that a symbolic name denotes, on names already in
/// lower case: the numeric code and the canonical symbol, or `None` for a
/// name outside the table.
pub open spec fn rtype_of_symbol(ls: Seq<char>) -> Option<(u32, Seq<char>)> {
    if ls == "a"@ {
        Some((1u32, "a"@))
    } else if ls == "aaaa"@ {
        Some((28u32, "aaaa"@))
    } else if ls == "any"@ {
        Some((0u32, "any"@))
    } else if ls == "caa"@ {
        Some((257u32, "caa"@))
    } else if ls == "cds"@ {
        Some((59u32, "cds"@))
    } else if ls == "cert"@ {
        Some((37u32, "cert"@))
    } else if ls == "cname"@ {
        Some((5u32, "cname"@))
    } else if ls == "dname"@ {
        Some((39u32, "dname"@))
    } else if ls == "dnskey"@ {
        Some((48u32, "dnskey"@))
    } else if ls == "ds"@ {
        Some((43u32, "ds"@))
    } else if ls == "hinfo"@ {
        Some((13u32, "hinfo"@))
    } else if ls == "ipseckey"@ {
        Some((45u32, "ipseckey"@))
    } else if ls == "mx"@ {
        Some((15u32, "mx"@))
    } else if ls == "naptr"@ {
        Some((35u32, "naptr"@))
    } else if ls == "ns"@ {
        Some((2u32, "ns"@))
    } else if ls == "nsec"@ {
        Some((47u32, "nsec"@))
    } else if ls == "nsec3"@ {
        Some((50u32, "nsec3"@))
    } else if ls == "nsec3param"@ {
        Some((51u32, "nsec3param"@))
    } else if ls == "ptr"@ {
        Some((12u32, "ptr"@))
    } else if ls == "rp"@ {
        Some((17u32, "rp"@))
    } else if ls == "rrsig"@ {
        Some((46u32, "rrsig"@))
    } else if ls == "soa"@ {
        Some((6u32, "soa"@))
    } else if ls == "spf"@ {
        Some((99u32, "spf"@))
    } else if ls == "srv"@ {
        Some((33u32, "srv"@))
    } else if ls == "sshfp"@ {
        Some((44u32, "sshfp"@))
    } else if ls == "tlsa"@ {
        Some((52u32, "tlsa"@))
    } else if ls == "txt"@ {
        Some((16u32, "txt"@))
    } else if ls == "wks"@ {
        Some((11u32, "wks"@))
    } else {
        None
    }
}

/// The upper-case display name of a numeric record-type code; codes outside
/// the table display as `UNKNOWN`.
pub open spec fn name_of_code(code: u32) -> Seq<char> {
    match code {
        1u32 => "A"@,
        28u32 => "AAAA"@,
        0u32 => "ANY"@,
        257u32 => "CAA"@,
        59u32 => "CDS"@,
        37u32 => "CERT"@,
        5u32 => "CNAME"@,
        39u32 => "DNAME"@,
        48u32 => "DNSKEY"@,
        43u32 => "DS"@,
        13u32 => "HINFO"@,
        45u32 => "IPSECKEY"@,
        15u32 => "MX"@,
        35u32 => "NAPTR"@,
        2u32 => "NS"@,
        47u32 => "NSEC"@,
        50u32 => "NSEC3"@,
        51u32 => "NSEC3PARAM"@,
        12u32 => "PTR"@,
        17u32 => "RP"@,
        46u32 => "RRSIG"@,
        6u32 => "SOA"@,
        99u32 => "SPF"@,
        33u32 => "SRV"@,
        44u32 => "SSHFP"@,
        52u32 => "TLSA"@,
        16u32 => "TXT"@,
        11u32 => "WKS"@,
        _ => "UNKNOWN"@,
    }
}

/// Every symbolic name in the table is already in lower case, so
/// lower-casing it is the identity.
proof fn lemma_symbols_are_lowercase()
    ensures
        lower_seq("a"@) == "a"@,
        lower_seq("aaaa"@) == "aaaa"@,
        lower_seq("any"@) == "any"@,
        lower_seq("caa"@) == "caa"@,
        lower_seq("cds"@) == "cds"@,
        lower_seq("cert"@) == "cert"@,
        lower_seq("cname"@) == "cname"@,
        lower_seq("dname"@) == "dname"@,
        lower_seq("dnskey"@) == "dnskey"@,
        lower_seq("ds"@) == "ds"@,
        lower_seq("hinfo"@) == "hinfo"@,
        lower_seq("ipseckey"@) == "ipseckey"@,
        lower_seq("mx"@) == "mx"@,
        lower_seq("naptr"@) == "naptr"@,
        lower_seq("ns"@) == "ns"@,
        lower_seq("nsec"@) == "nsec"@,
        lower_seq("nsec3"@) == "nsec3"@,
        lower_seq("nsec3param"@) == "nsec3param"@,
        lower_seq("ptr"@) == "ptr"@,
        lower_seq("rp"@) == "rp"@,
        lower_seq("rrsig"@) == "rrsig"@,
        lower_seq("soa"@) == "soa"@,
        lower_seq("spf"@) == "spf"@,
        lower_seq("srv"@) == "srv"@,
        lower_seq("sshfp"@) == "sshfp"@,
        lower_seq("tlsa"@) == "tlsa"@,
        lower_seq("txt"@) == "txt"@,
        lower_seq("wks"@) == "wks"@,
{
    reveal_strlit("a");
    reveal_strlit("aaaa");
    reveal_strlit("any");
    reveal_strlit("caa");
    reveal_strlit("cds");
    reveal_strlit("cert");
    reveal_strlit("cname");
    reveal_strlit("dname");
    reveal_strlit("dnskey");
    reveal_strlit("ds");
    reveal_strlit("hinfo");
    reveal_strlit("ipseckey");
    reveal_strlit("mx");
    reveal_strlit("naptr");
    reveal_strlit("ns");
    reveal_strlit("nsec");
    reveal_strlit("nsec3");
    reveal_strlit("nsec3param");
    reveal_strlit("ptr");
    reveal_strlit("rp");
    reveal_strlit("rrsig");
    reveal_strlit("soa");
    reveal_strlit("spf");
    reveal_strlit("srv");
    reveal_strlit("sshfp");
    reveal_strlit("tlsa");
    reveal_strlit("txt");
    reveal_strlit("wks");
    assert(lower_seq("a"@) =~= "a"@);
    assert(lower_seq("aaaa"@) =~= "aaaa"@);
    assert(lower_seq("any"@) =~= "any"@);
    assert(lower_seq("caa"@) =~= "caa"@);
    assert(lower_seq("cds"@) =~= "cds"@);
    assert(lower_seq("cert"@) =~= "cert"@);
    assert(lower_seq("cname"@) =~= "cname"@);
    assert(lower_seq("dname"@) =~= "dname"@);
    assert(lower_seq("dnskey"@) =~= "dnskey"@);
    assert(lower_seq("ds"@) =~= "ds"@);
    assert(lower_seq("hinfo"@) =~= "hinfo"@);
    assert(lower_seq("ipseckey"@) =~= "ipseckey"@);
    assert(lower_seq("mx"@) =~= "mx"@);
    assert(lower_seq("naptr"@) =~= "naptr"@);
    assert(lower_seq("ns"@) =~= "ns"@);
    assert(lower_seq("nsec"@) =~= "nsec"@);
    assert(lower_seq("nsec3"@) =~= "nsec3"@);
    assert(lower_seq("nsec3param"@) =~= "nsec3param"@);
    assert(lower_seq("ptr"@) =~= "ptr"@);
    assert(lower_seq("rp"@) =~= "rp"@);
    assert(lower_seq("rrsig"@) =~= "rrsig"@);
    assert(lower_seq("soa"@) =~= "soa"@);
    assert(lower_seq("spf"@) =~= "spf"@);
    assert(lower_seq("srv"@) =~= "srv"@);
    assert(lower_seq("sshfp"@) =~= "sshfp"@);
    assert(lower_seq("tlsa"@) =~= "tlsa"@);
    assert(lower_seq("txt"@) =~= "txt"@);
    assert(lower_seq("wks"@) =~= "wks"@);
}

/// Looks a symbolic record-type name up in the table, ignoring ASCII case.
pub fn rtype_from_str(s: &str) -> (r: Option<Rtype>)
    ensures
        match rtype_of_symbol(lower_seq(s@)) {
            Some(t) => (r matches Some(rt) && rt.0 == t.0 && rt.1@ == t.1),
            None => r is None,
        },
{
    proof {
        lemma_symbols_are_lowercase();
    }
    if str_eq_ignore_case(s, "a") {
        Some(Rtype(1, "a"))
    } else if str_eq_ignore_case(s, "aaaa") {
        Some(Rtype(28, "aaaa"))
    } else if str_eq_ignore_case(s, "any") {
        Some(Rtype(0, "any"))
    } else if str_eq_ignore_case(s, "caa") {
        Some(Rtype(257, "caa"))
    } else if str_eq_ignore_case(s, "cds") {
        Some(Rtype(59, "cds"))
    } else if str_eq_ignore_case(s, "cert") {
        Some(Rtype(37, "cert"))
    } else if str_eq_ignore_case(s, "cname") {
        Some(Rtype(5, "cname"))
    } else if str_eq_ignore_case(s, "dname") {
        Some(Rtype(39, "dname"))
    } else if str_eq_ignore_case(s, "dnskey") {
        Some(Rtype(48, "dnskey"))
    } else if str_eq_ignore_case(s, "ds") {
        Some(Rtype(43, "ds"))
    } else if str_eq_ignore_case(s, "hinfo") {
        Some(Rtype(13, "hinfo"))
    } else if str_eq_ignore_case(s, "ipseckey") {
        Some(Rtype(45, "ipseckey"))
    } else if str_eq_ignore_case(s, "mx") {
        Some(Rtype(15, "mx"))
    } else if str_eq_ignore_case(s, "naptr") {
        Some(Rtype(35, "naptr"))
    } else if str_eq_ignore_case(s, "ns") {
        Some(Rtype(2, "ns"))
    } else if str_eq_ignore_case(s, "nsec") {
        Some(Rtype(47, "nsec"))
    } else if str_eq_ignore_case(s, "nsec3") {
        Some(Rtype(50, "nsec3"))
    } else if str_eq_ignore_case(s, "nsec3param") {
        Some(Rtype(51, "nsec3param"))
    } else if str_eq_ignore_case(s, "ptr") {
        Some(Rtype(12, "ptr"))
    } else if str_eq_ignore_case(s, "rp") {
        Some(Rtype(17, "rp"))
    } else if str_eq_ignore_case(s, "rrsig") {
        Some(Rtype(46, "rrsig"))
    } else if str_eq_ignore_case(s, "soa") {
        Some(Rtype(6, "soa"))
    } else if str_eq_ignore_case(s, "spf") {
        Some(Rtype(99, "spf"))
    } else if str_eq_ignore_case(s, "srv") {
        Some(Rtype(33, "srv"))
    } else if str_eq_ignore_case(s, "sshfp") {
        Some(Rtype(44, "sshfp"))
    } else if str_eq_ignore_case(s, "tlsa") {
        Some(Rtype(52, "tlsa"))
    } else if str_eq_ignore_case(s, "txt") {
        Some(Rtype(16, "txt"))
    } else if str_eq_ignore_case(s, "wks") {
        Some(Rtype(11, "wks"))
    } else {
        None
    }
}

/// The upper-case display name of a numeric record-type code, `UNKNOWN`
/// for one outside the table.
pub fn rtype_name(code: u32) -> (r: String)
    ensures
        r@ == name_of_code(code),
{
    match code {
        1 => String::from_str("A"),
        28 => String::from_str("AAAA"),
        0 => String::from_str("ANY"),
        257 => String::from_str("CAA"),
        59 => String::from_str("CDS"),
        37 => String::from_str("CERT"),
        5 => String::from_str("CNAME"),
        39 => String::from_str("DNAME"),
        48 => String::from_str("DNSKEY"),
        43 => String::from_str("DS"),
        13 => String::from_str("HINFO"),
        45 => String::from_str("IPSECKEY"),
        15 => String::from_str("MX"),
        35 => String::from_str("NAPTR"),
        2 => String::from_str("NS"),
        47 => String::from_str("NSEC"),
        50 => String::from_str("NSEC3"),
        51 => String::from_str("NSEC3PARAM"),
        12 => String::from_str("PTR"),
        17 => String::from_str("RP"),
        46 => String::from_str("RRSIG"),
        6 => String::from_str("SOA"),
        99 => String::from_str("SPF"),
        33 => String::from_str("SRV"),
        44 => String::from_str("SSHFP"),
        52 => String::from_str("TLSA"),
        16 => String::from_str("TXT"),
        11 => String::from_str("WKS"),
        _ => String::from_str("UNKNOWN"),
    }
}

/// Law: symbolic lookup is case-insensitive.  Two names with the same
/// lower-case form denote the same record type — or both none.
pub proof fn lemma_lookup_case_insensitive(s: Seq<char>, t: Seq<char>)
    requires
        lower_seq(s) == lower_seq(t),
    ensures
        rtype_of_symbol(lower_seq(s)) == rtype_of_symbol(lower_seq(t)),
{
}

} // verus!
