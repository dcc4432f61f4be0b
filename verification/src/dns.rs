//! The main interface to this crate: typed record queries over a
//! [`DnsClient`].
use vstd::prelude::*;
use crate::client::{answers_view, DnsAnswer, DnsClient};
use crate::error::DnsError;
use crate::process::{
    filter_spec, keeps, lemma_mx_sorted_rtype, mx_sorted_spec, process_mx_response,
    process_response,
};
use crate::rtype::{name_of_code, rtype_from_str, rtype_name, rtype_of_symbol, Rtype};
use crate::status::RCode;
use crate::text::lower_seq;

verus! {

/// Every outcome a typed resolve call can take: on success every
/// returned answer passes the filter for the requested code — the
/// requested type, anything under the wildcard ANY, CNAME under an
/// address query; an error is a query error or a non-`NoError` protocol
/// status, never anything else.
pub open spec fn resolve_post(r: Result<Vec<DnsAnswer>, DnsError>, code: u32) -> bool {
    &&& (r matches Ok(v) ==> forall|i: int|
        0 <= i < v.deep_view().len() ==> keeps(#[trigger] v.deep_view()[i], code))
    &&& (r matches Err(e) ==> (e matches DnsError::Query(_) || (e matches DnsError::Status(rc)
        && rc != RCode::NoError)))
}

/// Every outcome the sorted MX call can take: on success every returned
/// answer is an MX record; the errors are as for a typed resolve call.
pub open spec fn resolve_mx_post(r: Result<Vec<DnsAnswer>, DnsError>) -> bool {
    &&& (r matches Ok(v) ==> forall|i: int|
        0 <= i < v.deep_view().len() ==> (#[trigger] v.deep_view()[i]).rtype == 15)
    &&& (r matches Err(e) ==> (e matches DnsError::Query(_) || (e matches DnsError::Status(rc)
        && rc != RCode::NoError)))
}

/// The main interface to this crate.  It answers typed record queries by
/// delegating the full HTTPS exchange to its client and interpreting the
/// decoded response.
pub struct Dns<C> {
    client: C,
}

impl<C: DnsClient> Dns<C> {
    /// A resolver over a specific client.
    pub fn new(client: C) -> Dns<C> {
        Dns { client }
    }

    /// Resolves records of the given type for a name: the client's
    /// decoded response is interpreted for its DNS status and filtered
    /// for the requested type, CNAME chains surfacing under address
    /// queries and everything surfacing under ANY.
    pub fn resolve(&self, name: &str, rtype: &Rtype) -> (r: Result<Vec<DnsAnswer>, DnsError>)
        ensures
            resolve_post(r, rtype.0),
    {
        match self.client.request(name, rtype) {
            Err(e) => Err(DnsError::Query(e)),
            Ok(res) => {
                let out = process_response(res, rtype);
                proof {
                    broadcast use vstd::seq_lib::group_filter_ensures;

                    if crate::status::rcode_of(res.Status) == RCode::NoError {
                        assert(out matches Ok(v) && v.deep_view() == filter_spec(
                            answers_view(res),
                            rtype.0,
                        ));
                    }
                }
                out
            },
        }
    }

    /// Returns MX records for the given name in ascending order of
    /// priority, the priority stripped from each record's data; ties
    /// keep the order in which they were received.  Records whose data
    /// does not parse as a priority and an exchange name are dropped.
    pub fn resolve_mx_and_sort(&self, domain: &str) -> (r: Result<Vec<DnsAnswer>, DnsError>)
        ensures
            resolve_mx_post(r),
    {
        match self.client.request(domain, &Rtype(15, "mx")) {
            Err(e) => Err(DnsError::Query(e)),
            Ok(res) => {
                let out = process_mx_response(res);
                proof {
                    if crate::status::rcode_of(res.Status) == RCode::NoError {
                        lemma_mx_sorted_rtype(answers_view(res));
                        assert(out matches Ok(v) && v.deep_view() == mx_sorted_spec(
                            answers_view(res),
                        ));
                    }
                }
                out
            },
        }
    }

    /// Resolves a record type named by a string, case-insensitively; an
    /// unrecognized name fails with `InvalidRecordType` before any
    /// network activity.
    pub fn resolve_str_type(&self, name: &str, rtype: &str) -> (r: Result<Vec<DnsAnswer>, DnsError>)
        ensures
            (rtype_of_symbol(lower_seq(rtype@)) is None) <==> r == Err::<
                Vec<DnsAnswer>,
                DnsError,
            >(DnsError::InvalidRecordType),
            rtype_of_symbol(lower_seq(rtype@)) matches Some(t) ==> resolve_post(r, t.0),
    {
        match rtype_from_str(rtype) {
            Some(rt) => {
                let r = self.resolve(name, &rt);
                proof {
                    assert(r matches Err(e) ==> !(e matches DnsError::InvalidRecordType));
                }
                r
            },
            None => Err(DnsError::InvalidRecordType),
        }
    }

    /// Converts a numeric record type to its upper-case display name,
    /// `UNKNOWN` for one outside the table.
    pub fn rtype_to_name(&self, rtype: u32) -> (r: String)
        ensures
            r@ == name_of_code(rtype),
    {
        rtype_name(rtype)
    }

    /// Queries a host address for the given name.
    pub fn resolve_a(&self, name: &str) -> (r: Result<Vec<DnsAnswer>, DnsError>)
        ensures
            resolve_post(r, 1),
    {
        self.resolve(name, &Rtype(1, "a"))
    }

    /// Queries an IP6 address for the given name.
    pub fn resolve_aaaa(&self, name: &str) -> (r: Result<Vec<DnsAnswer>, DnsError>)
        ensures
            resolve_post(r, 28),
    {
        self.resolve(name, &Rtype(28, "aaaa"))
    }

    /// Queries all record types for a given name.
    pub fn resolve_any(&self, name: &str) -> (r: Result<Vec<DnsAnswer>, DnsError>)
        ensures
            resolve_post(r, 0),
    {
        self.resolve(name, &Rtype(0, "any"))
    }

    /// Queries a certification authority restriction record for the given name.
    pub fn resolve_caa(&self, name: &str) -> (r: Result<Vec<DnsAnswer>, DnsError>)
        ensures
            resolve_post(r, 257),
    {
        self.resolve(name, &Rtype(257, "caa"))
    }

    /// Queries a child DS record for the given name.
    pub fn resolve_cds(&self, name: &str) -> (r: Result<Vec<DnsAnswer>, DnsError>)
        ensures
            resolve_post(r, 59),
    {
        self.resolve(name, &Rtype(59, "cds"))
    }

    /// Queries a CERT record for the given name.
    pub fn resolve_cert(&self, name: &str) -> (r: Result<Vec<DnsAnswer>, DnsError>)
        ensures
            resolve_post(r, 37),
    {
        self.resolve(name, &Rtype(37, "cert"))
    }

    /// Queries the canonical name for an alias for the given name.
    pub fn resolve_cname(&self, name: &str) -> (r: Result<Vec<DnsAnswer>, DnsError>)
        ensures
            resolve_post(r, 5),
    {
        self.resolve(name, &Rtype(5, "cname"))
    }

    /// Queries a DNAME record for the given name.
    pub fn resolve_dname(&self, name: &str) -> (r: Result<Vec<DnsAnswer>, DnsError>)
        ensures
            resolve_post(r, 39),
    {
        self.resolve(name, &Rtype(39, "dname"))
    }

    /// Queries a DNSKEY record for the given name.
    pub fn resolve_dnskey(&self, name: &str) -> (r: Result<Vec<DnsAnswer>, DnsError>)
        ensures
            resolve_post(r, 48),
    {
        self.resolve(name, &Rtype(48, "dnskey"))
    }

    /// Queries a delegation signer record for the given name.
    pub fn resolve_ds(&self, name: &str) -> (r: Result<Vec<DnsAnswer>, DnsError>)
        ensures
            resolve_post(r, 43),
    {
        self.resolve(name, &Rtype(43, "ds"))
    }

    /// Queries a host information record for the given name.
    pub fn resolve_hinfo(&self, name: &str) -> (r: Result<Vec<DnsAnswer>, DnsError>)
        ensures
            resolve_post(r, 13),
    {
        self.resolve(name, &Rtype(13, "hinfo"))
    }

    /// Queries an IPSECKEY record for the given name.
    pub fn resolve_ipseckey(&self, name: &str) -> (r: Result<Vec<DnsAnswer>, DnsError>)
        ensures
            resolve_post(r, 45),
    {
        self.resolve(name, &Rtype(45, "ipseckey"))
    }

    /// Queries a mail exchange record for the given name, in received
    /// order and with the data unmodified.
    pub fn resolve_mx(&self, name: &str) -> (r: Result<Vec<DnsAnswer>, DnsError>)
        ensures
            resolve_post(r, 15),
    {
        self.resolve(name, &Rtype(15, "mx"))
    }

    /// Queries a naming authority pointer record for the given name.
    pub fn resolve_naptr(&self, name: &str) -> (r: Result<Vec<DnsAnswer>, DnsError>)
        ensures
            resolve_post(r, 35),
    {
        self.resolve(name, &Rtype(35, "naptr"))
    }

    /// Queries an authoritative name server record for the given name.
    pub fn resolve_ns(&self, name: &str) -> (r: Result<Vec<DnsAnswer>, DnsError>)
        ensures
            resolve_post(r, 2),
    {
        self.resolve(name, &Rtype(2, "ns"))
    }

    /// Queries a NSEC record for the given name.
    pub fn resolve_nsec(&self, name: &str) -> (r: Result<Vec<DnsAnswer>, DnsError>)
        ensures
            resolve_post(r, 47),
    {
        self.resolve(name, &Rtype(47, "nsec"))
    }

    /// Queries a NSEC3 record for the given name.
    pub fn resolve_nsec3(&self, name: &str) -> (r: Result<Vec<DnsAnswer>, DnsError>)
        ensures
            resolve_post(r, 50),
    {
        self.resolve(name, &Rtype(50, "nsec3"))
    }

    /// Queries a NSEC3PARAM record for the given name.
    pub fn resolve_nsec3param(&self, name: &str) -> (r: Result<Vec<DnsAnswer>, DnsError>)
        ensures
            resolve_post(r, 51),
    {
        self.resolve(name, &Rtype(51, "nsec3param"))
    }

    /// Queries a domain name pointer record for the given name.
    pub fn resolve_ptr(&self, name: &str) -> (r: Result<Vec<DnsAnswer>, DnsError>)
        ensures
            resolve_post(r, 12),
    {
        self.resolve(name, &Rtype(12, "ptr"))
    }

    /// Queries a responsible person record for the given name.
    pub fn resolve_rp(&self, name: &str) -> (r: Result<Vec<DnsAnswer>, DnsError>)
        ensures
            resolve_post(r, 17),
    {
        self.resolve(name, &Rtype(17, "rp"))
    }

    /// Queries a RRSIG record for the given name.
    pub fn resolve_rrsig(&self, name: &str) -> (r: Result<Vec<DnsAnswer>, DnsError>)
        ensures
            resolve_post(r, 46),
    {
        self.resolve(name, &Rtype(46, "rrsig"))
    }

    /// Queries the start of a zone of authority record for the given name.
    pub fn resolve_soa(&self, name: &str) -> (r: Result<Vec<DnsAnswer>, DnsError>)
        ensures
            resolve_post(r, 6),
    {
        self.resolve(name, &Rtype(6, "soa"))
    }

    /// Queries an SPF record for the given name.
    pub fn resolve_spf(&self, name: &str) -> (r: Result<Vec<DnsAnswer>, DnsError>)
        ensures
            resolve_post(r, 99),
    {
        self.resolve(name, &Rtype(99, "spf"))
    }

    /// Queries a server selection record for the given name.
    pub fn resolve_srv(&self, name: &str) -> (r: Result<Vec<DnsAnswer>, DnsError>)
        ensures
            resolve_post(r, 33),
    {
        self.resolve(name, &Rtype(33, "srv"))
    }

    /// Queries an SSH key fingerprint record for the given name.
    pub fn resolve_sshfp(&self, name: &str) -> (r: Result<Vec<DnsAnswer>, DnsError>)
        ensures
            resolve_post(r, 44),
    {
        self.resolve(name, &Rtype(44, "sshfp"))
    }

    /// Queries a TLSA record for the given name.
    pub fn resolve_tlsa(&self, name: &str) -> (r: Result<Vec<DnsAnswer>, DnsError>)
        ensures
            resolve_post(r, 52),
    {
        self.resolve(name, &Rtype(52, "tlsa"))
    }

    /// Queries a text strings record for the given name.
    pub fn resolve_txt(&self, name: &str) -> (r: Result<Vec<DnsAnswer>, DnsError>)
        ensures
            resolve_post(r, 16),
    {
        self.resolve(name, &Rtype(16, "txt"))
    }

    /// Queries a well known service description record for the given name.
    pub fn resolve_wks(&self, name: &str) -> (r: Result<Vec<DnsAnswer>, DnsError>)
        ensures
            resolve_post(r, 11),
    {
        self.resolve(name, &Rtype(11, "wks"))
    }
}

} // verus!
