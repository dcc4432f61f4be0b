//! Status codes returned by a DNS over HTTPS server.
use vstd::prelude::*;

verus! {

/// A DNS response code (RCode), per the IANA DNS parameters registry.
/// This is the DNS-protocol-level status of a successfully transported
/// query, not an HTTP status.
#[derive(Debug, Clone, Copy, PartialEq, Eq, Structural)]
pub enum RCode {
    /// No Error.
    NoError,
    /// Format Error.
    FormErr,
    /// Server Failure.
    ServFail,
    /// Non-Existent Domain.
    NXDomain,
    /// Not Implemented.
    NotImp,
    /// Query Refused.
    Refused,
    /// Name Exists when it should not.
    YXDomain,
    /// RR Set Exists when it should not.
    YXRRSet,
    /// RR Set that should exist does not.
    NXRRSet,
    /// Server Not Authoritative for zone.
    NotAuth,
    /// Name not contained in zone.
    NotZone,
    /// DSO-TYPE Not Implemented.
    DSOTYPENI,
    /// Unassigned.
    Unassigned12,
    /// Unassigned.
    Unassigned13,
    /// Unassigned.
    Unassigned14,
    /// Unassigned.
    Unassigned15,
    /// Bad OPT Version.
    BADVERS,
    /// Key not recognized.
    BADKEY,
    /// Signature out of time window.
    BADTIME,
    /// Bad TKEY Mode.
    BADMODE,
    /// Duplicate key name.
    BADNAME,
    /// Algorithm not supported.
    BADALG,
    /// Bad Truncation.
    BADTRUNC,
    /// Bad/missing Server Cookie.
    BADCOOKIE,
    /// Unknown: any numeric status this table does not map.
    Unknown,
}

/// The response code that a numeric wire status denotes; statuses outside
/// the table map to `Unknown`.
pub open spec fn rcode_of(code: u32) -> RCode {
    match code {
        0u32 => RCode::NoError,
        1u32 => RCode::FormErr,
        2u32 => RCode::ServFail,
        3u32 => RCode::NXDomain,
        4u32 => RCode::NotImp,
        5u32 => RCode::Refused,
        6u32 => RCode::YXDomain,
        7u32 => RCode::YXRRSet,
        8u32 => RCode::NXRRSet,
        9u32 => RCode::NotAuth,
        10u32 => RCode::NotZone,
        11u32 => RCode::DSOTYPENI,
        12u32 => RCode::Unassigned12,
        13u32 => RCode::Unassigned13,
        14u32 => RCode::Unassigned14,
        15u32 => RCode::Unassigned15,
        16u32 => RCode::BADVERS,
        17u32 => RCode::BADKEY,
        18u32 => RCode::BADTIME,
        19u32 => RCode::BADMODE,
        20u32 => RCode::BADNAME,
        21u32 => RCode::BADALG,
        22u32 => RCode::BADTRUNC,
        23u32 => RCode::BADCOOKIE,
        _ => RCode::Unknown,
    }
}

/// The description each response code displays as.
pub open spec fn rcode_message_view(c: RCode) -> Seq<char> {
    match c {
        RCode::NoError => "No Error"@,
        RCode::FormErr => "Format Error"@,
        RCode::ServFail => "Server Failure"@,
        RCode::NXDomain => "Non-Existent Domain"@,
        RCode::NotImp => "Not Implemented"@,
        RCode::Refused => "Query Refused"@,
        RCode::YXDomain => "Name Exists when it should not"@,
        RCode::YXRRSet => "RR Set Exists when it should not"@,
        RCode::NXRRSet => "RR Set that should exist does not"@,
        RCode::NotAuth => "Server Not Authoritative for zone"@,
        RCode::NotZone => "Name not contained in zone"@,
        RCode::DSOTYPENI => "DSO-TYPE Not Implemented"@,
        RCode::Unassigned12 => "Unassigned"@,
        RCode::Unassigned13 => "Unassigned"@,
        RCode::Unassigned14 => "Unassigned"@,
        RCode::Unassigned15 => "Unassigned"@,
        RCode::BADVERS => "Bad OPT Version"@,
        RCode::BADKEY => "Key not recognized"@,
        RCode::BADTIME => "Signature out of time window"@,
        RCode::BADMODE => "Bad TKEY Mode"@,
        RCode::BADNAME => "Duplicate key name"@,
        RCode::BADALG => "Algorithm not supported"@,
        RCode::BADTRUNC => "Bad Truncation"@,
        RCode::BADCOOKIE => "Bad/missing Server Cookie"@,
        RCode::Unknown => "Unknown"@,
    }
}

impl RCode {
    /// Maps a numeric DNS status from the wire to its symbolic code.
    pub fn from_code(code: u32) -> (r: RCode)
        ensures
            r == rcode_of(code),
    {
        match code {
            0 => RCode::NoError,
            1 => RCode::FormErr,
            2 => RCode::ServFail,
            3 => RCode::NXDomain,
            4 => RCode::NotImp,
            5 => RCode::Refused,
            6 => RCode::YXDomain,
            7 => RCode::YXRRSet,
            8 => RCode::NXRRSet,
            9 => RCode::NotAuth,
            10 => RCode::NotZone,
            11 => RCode::DSOTYPENI,
            12 => RCode::Unassigned12,
            13 => RCode::Unassigned13,
            14 => RCode::Unassigned14,
            15 => RCode::Unassigned15,
            16 => RCode::BADVERS,
            17 => RCode::BADKEY,
            18 => RCode::BADTIME,
            19 => RCode::BADMODE,
            20 => RCode::BADNAME,
            21 => RCode::BADALG,
            22 => RCode::BADTRUNC,
            23 => RCode::BADCOOKIE,
            _ => RCode::Unknown,
        }
    }

    /// A human-readable description of the code.
    pub fn message(&self) -> (r: String)
        ensures
            r@ == rcode_message_view(*self),
    {
        match self {
            RCode::NoError => String::from_str("No Error"),
            RCode::FormErr => String::from_str("Format Error"),
            RCode::ServFail => String::from_str("Server Failure"),
            RCode::NXDomain => String::from_str("Non-Existent Domain"),
            RCode::NotImp => String::from_str("Not Implemented"),
            RCode::Refused => String::from_str("Query Refused"),
            RCode::YXDomain => String::from_str("Name Exists when it should not"),
            RCode::YXRRSet => String::from_str("RR Set Exists when it should not"),
            RCode::NXRRSet => String::from_str("RR Set that should exist does not"),
            RCode::NotAuth => String::from_str("Server Not Authoritative for zone"),
            RCode::NotZone => String::from_str("Name not contained in zone"),
            RCode::DSOTYPENI => String::from_str("DSO-TYPE Not Implemented"),
            RCode::Unassigned12
            | RCode::Unassigned13
            | RCode::Unassigned14
            | RCode::Unassigned15 => String::from_str("Unassigned"),
            RCode::BADVERS => String::from_str("Bad OPT Version"),
            RCode::BADKEY => String::from_str("Key not recognized"),
            RCode::BADTIME => String::from_str("Signature out of time window"),
            RCode::BADMODE => String::from_str("Bad TKEY Mode"),
            RCode::BADNAME => String::from_str("Duplicate key name"),
            RCode::BADALG => String::from_str("Algorithm not supported"),
            RCode::BADTRUNC => String::from_str("Bad Truncation"),
            RCode::BADCOOKIE => String::from_str("Bad/missing Server Cookie"),
            RCode::Unknown => String::from_str("Unknown"),
        }
    }
}

} // verus!
