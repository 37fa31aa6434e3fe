//! The application settings, and the monitored prefixes and ASNs that decide
//! whether an incoming routing alert concerns this operator.

use vstd::prelude::*;
use crate::api::BGPAlerterAlert;
use crate::network::{contains, net_contains, parse_network, parsed_network, Network};
use crate::text::same_text;

verus! {

/// The endpoint of the built-in RIPEstat server.
pub const RIPESTAT_MCP_ENDPONT: &'static str = "https://mcp-ripestat.taihen.org/mcp";

/// A monitored prefix.
#[derive(Debug, Clone)]
pub struct PrefixInfo {
    pub description: String,
    pub asn: Vec<u32>,
    /// More specific prefixes inside this one are not of interest.
    pub ignore_morespecifics: bool,
    /// The prefix is listed but not watched for containment.
    pub ignore: bool,
    pub group: String,
}

/// A monitored ASN.
#[derive(Debug, Clone)]
pub struct AsnInfo {
    pub group: String,
}

/// The options section of the prefixes file.
#[derive(Debug, Clone)]
pub struct Options {
    pub monitor_asns: Vec<(String, AsnInfo)>,
}

/// The monitored prefixes, keyed by their CIDR text, and the monitored ASNs,
/// keyed by their number as text; each key once.
#[derive(Debug, Clone)]
pub struct PrefixesConfig {
    pub prefixes: Vec<(String, PrefixInfo)>,
    pub monitored_asns: Vec<(String, AsnInfo)>,
}

/// Whether some entry of `v` has key `k`.
pub open spec fn has_key<V>(v: Seq<(String, V)>, k: Seq<char>) -> bool {
    exists|i: int| 0 <= i < v.len() && (#[trigger] v[i]).0@ == k
}

/// Whether a monitored entry with key `k` and settings `info` makes an alert
/// for network `a` relevant: the entry is watched, its key is a network, and
/// either it contains `a` (unless `a` is more specific and those are not of
/// interest) or `a` contains it.
pub open spec fn entry_matches(k: Seq<char>, info: PrefixInfo, a: Network) -> bool {
    &&& !info.ignore
    &&& parsed_network(k) is Some
    &&& {
        let t = parsed_network(k)->Some_0;
        let m = Network { v6: t.0, addr: t.1, prefix_len: t.2 };
        if net_contains(m, a) {
            !(info.ignore_morespecifics && a.prefix_len > m.prefix_len)
        } else {
            net_contains(a, m)
        }
    }
}

/// Whether an alert for prefix `p` concerns the monitored prefixes: it is one
/// of them, or it is a network that a watched one matches.
pub open spec fn prefix_relevant(prefixes: Seq<(String, PrefixInfo)>, p: Seq<char>) -> bool {
    has_key(prefixes, p) || match parsed_network(p) {
        None => false,
        Some(t) => exists|i: int|
            0 <= i < prefixes.len() && entry_matches(
                (#[trigger] prefixes[i]).0@,
                prefixes[i].1,
                Network { v6: t.0, addr: t.1, prefix_len: t.2 },
            ),
    }
}

fn find_key<V>(v: &Vec<(String, V)>, k: &str) -> (r: Option<usize>)
    ensures
        match r {
            Some(i) => i < v@.len() && v@[i as int].0@ == k@,
            None => !has_key(v@, k@),
        },
{
    let n = v.len();
    let mut i: usize = 0;
    while i < n
        invariant
            0 <= i <= n,
            n == v@.len(),
            forall|j: int| 0 <= j < i ==> (#[trigger] v@[j]).0@ != k@,
        decreases n - i,
    {
        if same_text(v[i].0.as_str(), k) {
            return Some(i);
        }
        i += 1;
    }
    None
}

impl PrefixesConfig {
    /// Whether `prefix` is one of the monitored prefixes, as written.
    pub fn is_prefix_monitored(&self, prefix: &str) -> (r: bool)
        ensures
            r == has_key(self.prefixes@, prefix@),
    {
        find_key(&self.prefixes, prefix).is_some()
    }

    /// Whether `asn` is one of the monitored ASNs.
    pub fn is_asn_monitored(&self, asn: &str) -> (r: bool)
        ensures
            r == has_key(self.monitored_asns@, asn@),
    {
        find_key(&self.monitored_asns, asn).is_some()
    }

    /// The settings of the monitored prefix that makes an alert for
    /// `alert_prefix` relevant: the prefix itself, else the first watched
    /// one that matches it.
    fn find_matching_prefix_info(&self, alert_prefix: &str) -> (r: Option<&PrefixInfo>)
        ensures
            r is Some == prefix_relevant(self.prefixes@, alert_prefix@),
    {
        if let Some(i) = find_key(&self.prefixes, alert_prefix) {
            return Some(&self.prefixes[i].1);
        }
        let alert_net = match parse_network(alert_prefix) {
            Some(a) => a,
            None => return None,
        };
        let ghost a = alert_net;
        let n = self.prefixes.len();
        let mut i: usize = 0;
        while i < n
            invariant
                0 <= i <= n,
                n == self.prefixes@.len(),
                alert_net == a,
                a.wf(),
                parsed_network(alert_prefix@) == Some((a.v6, a.addr, a.prefix_len)),
                forall|j: int| 0 <= j < i ==> !entry_matches((#[trigger] self.prefixes@[j]).0@, self.prefixes@[j].1, a),
            decreases n - i,
        {
            let info = &self.prefixes[i].1;
            if !info.ignore {
                if let Some(m) = parse_network(self.prefixes[i].0.as_str()) {
                    if contains(&m, &alert_net) {
                        if !(info.ignore_morespecifics && alert_net.prefix_len > m.prefix_len) {
                            assert(entry_matches(self.prefixes@[i as int].0@, self.prefixes@[i as int].1, a));
                            return Some(info);
                        }
                    } else if contains(&alert_net, &m) {
                        assert(entry_matches(self.prefixes@[i as int].0@, self.prefixes@[i as int].1, a));
                        return Some(info);
                    }
                }
            }
            i += 1;
        }
        None
    }

    /// Whether an alert for `alert_prefix` concerns a monitored prefix.
    pub fn is_prefix_relevant(&self, alert_prefix: &str) -> (r: bool)
        ensures
            r == prefix_relevant(self.prefixes@, alert_prefix@),
    {
        self.find_matching_prefix_info(alert_prefix).is_some()
    }

    /// Whether an alert concerns the monitored resources: its prefix or new
    /// prefix is relevant, or its ASN or new origin is monitored.
    pub fn is_alert_relevant(&self, alert: &BGPAlerterAlert) -> (r: bool)
        ensures
            r == (prefix_relevant(self.prefixes@, alert.details.prefix@) || (match alert.details.newprefix {
                Some(p) => prefix_relevant(self.prefixes@, p@),
                None => false,
            }) || has_key(self.monitored_asns@, alert.details.asn@) || (match alert.details.neworigin {
                Some(o) => has_key(self.monitored_asns@, o@),
                None => false,
            })),
    {
        if self.is_prefix_relevant(alert.details.prefix.as_str()) {
            return true;
        }
        if let Some(newprefix) = &alert.details.newprefix {
            if self.is_prefix_relevant(newprefix.as_str()) {
                return true;
            }
        }
        if self.is_asn_monitored(alert.details.asn.as_str()) {
            return true;
        }
        if let Some(neworigin) = &alert.details.neworigin {
            if self.is_asn_monitored(neworigin.as_str()) {
                return true;
            }
        }
        false
    }
}

/// The application settings.
#[derive(Debug, Clone)]
pub struct AppConfig {
    pub server_port: u16,
    pub llm_model_name: String,
}

/// The port the HTTP API listens on unless configured otherwise.
pub fn default_server_port() -> (r: u16)
    ensures
        r == 7654,
{
    7654
}

} // verus!
