//! The region table: an immutable list of (network-prefix, region-label)
//! entries, loaded once before polling begins.
//!
//! The real table is a JSON document fetched over HTTPS and cached to disk;
//! that loading lives with the host.  The types here carry the loaded entries
//! as plain strings, and [`FakeIpRanges`] supplies the fixed stand-in table
//! used while the real endpoint list is not wired up.

use vstd::prelude::*;

verus! {

/// One region-table entry: a CIDR prefix string and the labels attached to
/// it.  A prefix that fails to parse is discovered only during matching and
/// is a hard failure there.
pub struct IpPrefix {
    pub ip_prefix: String,
    pub region: String,
    pub service: String,
    pub network_border_group: String,
}

/// Mathematical image of [`IpPrefix`].
pub struct IpPrefixView {
    pub ip_prefix: Seq<char>,
    pub region: Seq<char>,
    pub service: Seq<char>,
    pub network_border_group: Seq<char>,
}

impl View for IpPrefix {
    type V = IpPrefixView;

    open spec fn view(&self) -> IpPrefixView {
        IpPrefixView {
            ip_prefix: self.ip_prefix@,
            region: self.region@,
            service: self.service@,
            network_border_group: self.network_border_group@,
        }
    }
}

impl DeepView for IpPrefix {
    type V = IpPrefixView;

    open spec fn deep_view(&self) -> IpPrefixView {
        self.view()
    }
}

/// The region-table document: a sync token, a creation date, and the ordered
/// prefix entries that matching scans first to last.
pub struct AwsIpRanges {
    pub sync_token: String,
    pub create_date: String,
    pub prefixes: Vec<IpPrefix>,
}

/// Stand-in source for the region table, yielding one fixed loopback entry.
pub struct FakeIpRanges {}

impl FakeIpRanges {
    pub fn new() -> Self {
        FakeIpRanges {  }
    }

    /// The fixed table: a single entry mapping `127.0.0.0/8` to region
    /// `EUC`, with empty sync token and creation date.
    pub fn get(&self) -> (r: AwsIpRanges)
        ensures
            r.sync_token@ == Seq::<char>::empty(),
            r.create_date@ == Seq::<char>::empty(),
            r.prefixes@.len() == 1,
            r.prefixes@[0]@.ip_prefix == "127.0.0.0/8"@,
            r.prefixes@[0]@.region == "EUC"@,
            r.prefixes@[0]@.service == "n/a"@,
            r.prefixes@[0]@.network_border_group == "n/a"@,
    {
        let entry = IpPrefix {
            ip_prefix: String::from_str("127.0.0.0/8"),
            network_border_group: String::from_str("n/a"),
            region: String::from_str("EUC"),
            service: String::from_str("n/a"),
        };
        let mut prefixes: Vec<IpPrefix> = Vec::new();
        prefixes.push(entry);
        AwsIpRanges { sync_token: String::new(), create_date: String::new(), prefixes }
    }
}

} // verus!
