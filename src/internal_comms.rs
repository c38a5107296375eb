//! Messages that probes emit, and the snapshot that the aggregator folds them into.

use vstd::prelude::*;

verus! {

/// One partial result of a probe, tagged by its diagnostic category.
#[derive(Debug)]
pub enum FetchedDataMessage {
    LocalInfo(LocalInfo),
    InternetInfo(InternetInfo),
    DHCPInfo(DHCPInfo),
    DNSInfo(DNSInfo),
    Traceroute(Traceroute),
    TCPInfo(TCPInfo),
    HTTPInfo(HTTPInfo),
    HTTPSInfo(HTTPSInfo),
    UDPInfo(UDPInfo),
    NTPInfo(NTPInfo),
    QUICInfo(QUICInfo),
}

/// The latest known state of every diagnostic category.
#[derive(Debug)]
pub struct NetworkInfo {
    pub local_info: LocalInfo,
    pub internet_info: InternetInfo,
    pub dhcp_info: DHCPInfo,
    pub dns_info: DNSInfo,
    pub traceroute: Traceroute,
    pub tcp_info: TCPInfo,
    pub http_info: HTTPInfo,
    pub https_info: HTTPSInfo,
    pub udp_info: UDPInfo,
    pub ntp_info: NTPInfo,
    pub quic_info: QUICInfo,
}

/// Addressing of the chosen interface.
#[derive(Debug)]
pub struct LocalInfo {
    pub local_ip: Option<String>,
    pub subnet_mask: Option<String>,
    pub gateway: Option<String>,
}

/// What the wider internet reports about this host.
#[derive(Debug)]
pub struct InternetInfo {
    pub public_ip: Option<String>,
    pub asn: Option<u32>,
    pub reverse_dns: Option<String>,
    pub isp: Option<String>,
    pub location: Option<String>,
    /// Round-trip time to Cloudflare, in microseconds.
    pub cloudflare_ping: Option<u64>,
}

#[derive(Debug)]
pub struct DHCPInfo {
    pub dhcp_server: Option<String>,
    pub lease_time: Option<u64>,
    pub last_renewed: Option<u64>,
    pub dhcp_declared_dns: Option<Vec<String>>,
}

/// Snapshot of the DNS probe.
///
/// `can_fetch` is `None` while the configuration is pending, `Some(true)` once
/// the server list is known and `Some(false)` when the probe could not start.
/// `can_bind_interface` is `Some(false)` when the chosen interface could not be
/// used to originate traffic.
#[derive(Debug)]
pub struct DNSInfo {
    pub can_fetch: Option<bool>,
    pub can_bind_interface: Option<bool>,
    pub dns_servers: Vec<DNSServer>,
}

/// One configured resolver; `can_resolve` is `None` until it has been checked.
#[derive(Debug)]
pub struct DNSServer {
    pub ip: String,
    pub can_resolve: Option<bool>,
}

#[derive(Debug)]
pub struct Traceroute {
    pub hops: Vec<TracerouteHop>,
}

/// One hop of a route; times are in microseconds.
#[derive(Debug)]
pub struct TracerouteHop {
    pub hop_number: u8,
    pub ip: String,
    pub latency: u64,
    pub jitter: u64,
    pub location: Option<String>,
}

#[derive(Debug)]
pub struct TCPInfo {
    pub attempted_to_talk_on_list: Vec<(u16, bool)>,
}

#[derive(Debug)]
pub struct HTTPInfo {
    pub can_access_1111: Option<bool>,
    pub can_access_google: Option<bool>,
    pub captive_portal: Option<bool>,
}

#[derive(Debug)]
pub struct HTTPSInfo {
    pub can_access_1111: Option<bool>,
    pub can_access_google: Option<bool>,
    pub mitm_detected: Option<bool>,
}

#[derive(Debug)]
pub struct UDPInfo {
    pub attempted_to_talk_on_list: Vec<(u16, bool)>,
}

#[derive(Debug)]
pub struct NTPInfo {
    pub do_use_ntp: Option<bool>,
    pub ntp_server: Option<String>,
    pub can_access_ntp: Option<bool>,
    pub local_time: Option<u64>,
    pub server_time: Option<u64>,
}

#[derive(Debug)]
pub struct QUICInfo {
    pub can_access_1111: Option<bool>,
    pub can_access_google: Option<bool>,
}

/// Abstract content of a DNS snapshot: the two flags and each server's
/// address with its resolution result, in list order.
pub struct DnsInfoView {
    pub can_fetch: Option<bool>,
    pub can_bind_interface: Option<bool>,
    pub servers: Seq<(Seq<char>, Option<bool>)>,
}

impl View for DNSInfo {
    type V = DnsInfoView;

    open spec fn view(&self) -> DnsInfoView {
        DnsInfoView {
            can_fetch: self.can_fetch,
            can_bind_interface: self.can_bind_interface,
            servers: self.dns_servers@.map_values(|s: DNSServer| (s.ip@, s.can_resolve)),
        }
    }
}

impl DNSInfo {
    /// A copy that agrees with `self` field by field.
    pub fn duplicate(&self) -> (r: DNSInfo)
        ensures
            r@ == self@,
    {
        let mut servers: Vec<DNSServer> = Vec::new();
        let n = self.dns_servers.len();
        let mut i: usize = 0;
        while i < n
            invariant
                n == self.dns_servers@.len(),
                i <= n,
                servers@.len() == i,
                forall|j: int|
                    0 <= j < i ==> #[trigger] servers@[j].ip@ == self.dns_servers@[j].ip@
                        && servers@[j].can_resolve == self.dns_servers@[j].can_resolve,
            decreases n - i,
        {
            let s = &self.dns_servers[i];
            servers.push(DNSServer { ip: s.ip.clone(), can_resolve: s.can_resolve });
            i = i + 1;
        }
        let r = DNSInfo {
            can_fetch: self.can_fetch,
            can_bind_interface: self.can_bind_interface,
            dns_servers: servers,
        };
        assert(r@.servers =~= self@.servers);
        r
    }
}

impl Default for LocalInfo {
    fn default() -> (r: LocalInfo)
        ensures
            r.is_unset(),
    {
        LocalInfo { local_ip: None, subnet_mask: None, gateway: None }
    }
}

impl LocalInfo {
    /// Nothing is known yet.
    pub open spec fn is_unset(&self) -> bool {
        self.local_ip is None && self.subnet_mask is None && self.gateway is None
    }
}

impl Default for InternetInfo {
    fn default() -> (r: InternetInfo)
        ensures
            r.is_unset(),
    {
        InternetInfo {
            public_ip: None,
            asn: None,
            reverse_dns: None,
            isp: None,
            location: None,
            cloudflare_ping: None,
        }
    }
}

impl InternetInfo {
    pub open spec fn is_unset(&self) -> bool {
        &&& self.public_ip is None
        &&& self.asn is None
        &&& self.reverse_dns is None
        &&& self.isp is None
        &&& self.location is None
        &&& self.cloudflare_ping is None
    }
}

impl Default for DHCPInfo {
    fn default() -> (r: DHCPInfo)
        ensures
            r.is_unset(),
    {
        DHCPInfo { dhcp_server: None, lease_time: None, last_renewed: None, dhcp_declared_dns: None }
    }
}

impl DHCPInfo {
    pub open spec fn is_unset(&self) -> bool {
        &&& self.dhcp_server is None
        &&& self.lease_time is None
        &&& self.last_renewed is None
        &&& self.dhcp_declared_dns is None
    }
}

impl Default for DNSInfo {
    fn default() -> (r: DNSInfo)
        ensures
            r.is_unset(),
    {
        DNSInfo { can_fetch: None, can_bind_interface: None, dns_servers: Vec::new() }
    }
}

impl DNSInfo {
    /// The configuration has not been read yet and no server is known.
    pub open spec fn is_unset(&self) -> bool {
        &&& self.can_fetch is None
        &&& self.can_bind_interface is None
        &&& self.dns_servers@.len() == 0
    }
}

impl Default for Traceroute {
    fn default() -> (r: Traceroute)
        ensures
            r.is_unset(),
    {
        Traceroute { hops: Vec::new() }
    }
}

impl Traceroute {
    pub open spec fn is_unset(&self) -> bool {
        self.hops@.len() == 0
    }
}

impl Default for TCPInfo {
    fn default() -> (r: TCPInfo)
        ensures
            r.is_unset(),
    {
        TCPInfo { attempted_to_talk_on_list: Vec::new() }
    }
}

impl TCPInfo {
    pub open spec fn is_unset(&self) -> bool {
        self.attempted_to_talk_on_list@.len() == 0
    }
}

impl Default for HTTPInfo {
    fn default() -> (r: HTTPInfo)
        ensures
            r.is_unset(),
    {
        HTTPInfo { can_access_1111: None, can_access_google: None, captive_portal: None }
    }
}

impl HTTPInfo {
    pub open spec fn is_unset(&self) -> bool {
        self.can_access_1111 is None && self.can_access_google is None && self.captive_portal is None
    }
}

impl Default for HTTPSInfo {
    fn default() -> (r: HTTPSInfo)
        ensures
            r.is_unset(),
    {
        HTTPSInfo { can_access_1111: None, can_access_google: None, mitm_detected: None }
    }
}

impl HTTPSInfo {
    pub open spec fn is_unset(&self) -> bool {
        self.can_access_1111 is None && self.can_access_google is None && self.mitm_detected is None
    }
}

impl Default for UDPInfo {
    fn default() -> (r: UDPInfo)
        ensures
            r.is_unset(),
    {
        UDPInfo { attempted_to_talk_on_list: Vec::new() }
    }
}

impl UDPInfo {
    pub open spec fn is_unset(&self) -> bool {
        self.attempted_to_talk_on_list@.len() == 0
    }
}

impl Default for NTPInfo {
    fn default() -> (r: NTPInfo)
        ensures
            r.is_unset(),
    {
        NTPInfo {
            do_use_ntp: None,
            ntp_server: None,
            can_access_ntp: None,
            local_time: None,
            server_time: None,
        }
    }
}

impl NTPInfo {
    pub open spec fn is_unset(&self) -> bool {
        &&& self.do_use_ntp is None
        &&& self.ntp_server is None
        &&& self.can_access_ntp is None
        &&& self.local_time is None
        &&& self.server_time is None
    }
}

impl Default for QUICInfo {
    fn default() -> (r: QUICInfo)
        ensures
            r.is_unset(),
    {
        QUICInfo { can_access_1111: None, can_access_google: None }
    }
}

impl QUICInfo {
    pub open spec fn is_unset(&self) -> bool {
        self.can_access_1111 is None && self.can_access_google is None
    }
}

impl Default for NetworkInfo {
    fn default() -> (r: NetworkInfo)
        ensures
            r.is_unset(),
    {
        NetworkInfo {
            local_info: LocalInfo::default(),
            internet_info: InternetInfo::default(),
            dhcp_info: DHCPInfo::default(),
            dns_info: DNSInfo::default(),
            traceroute: Traceroute::default(),
            tcp_info: TCPInfo::default(),
            http_info: HTTPInfo::default(),
            https_info: HTTPSInfo::default(),
            udp_info: UDPInfo::default(),
            ntp_info: NTPInfo::default(),
            quic_info: QUICInfo::default(),
        }
    }
}

impl NetworkInfo {
    /// Every category is still unknown.
    pub open spec fn is_unset(&self) -> bool {
        &&& self.local_info.is_unset()
        &&& self.internet_info.is_unset()
        &&& self.dhcp_info.is_unset()
        &&& self.dns_info.is_unset()
        &&& self.traceroute.is_unset()
        &&& self.tcp_info.is_unset()
        &&& self.http_info.is_unset()
        &&& self.https_info.is_unset()
        &&& self.udp_info.is_unset()
        &&& self.ntp_info.is_unset()
        &&& self.quic_info.is_unset()
    }

    /// The snapshot after one message: the message's payload replaces the
    /// sub-snapshot of its category, and the other categories stay as they were.
    pub open spec fn with_message(self, message: FetchedDataMessage) -> NetworkInfo {
        match message {
            FetchedDataMessage::LocalInfo(i) => NetworkInfo { local_info: i, ..self },
            FetchedDataMessage::InternetInfo(i) => NetworkInfo { internet_info: i, ..self },
            FetchedDataMessage::DHCPInfo(i) => NetworkInfo { dhcp_info: i, ..self },
            FetchedDataMessage::DNSInfo(i) => NetworkInfo { dns_info: i, ..self },
            FetchedDataMessage::Traceroute(i) => NetworkInfo { traceroute: i, ..self },
            FetchedDataMessage::TCPInfo(i) => NetworkInfo { tcp_info: i, ..self },
            FetchedDataMessage::HTTPInfo(i) => NetworkInfo { http_info: i, ..self },
            FetchedDataMessage::HTTPSInfo(i) => NetworkInfo { https_info: i, ..self },
            FetchedDataMessage::UDPInfo(i) => NetworkInfo { udp_info: i, ..self },
            FetchedDataMessage::NTPInfo(i) => NetworkInfo { ntp_info: i, ..self },
            FetchedDataMessage::QUICInfo(i) => NetworkInfo { quic_info: i, ..self },
        }
    }

    /// The snapshot after a run of messages, folded in the order given.
    pub open spec fn with_messages(self, messages: Seq<FetchedDataMessage>) -> NetworkInfo
        decreases messages.len(),
    {
        if messages.len() == 0 {
            self
        } else {
            self.with_messages(messages.drop_last()).with_message(messages.last())
        }
    }

    /// Folds one message into the snapshot (last writer wins per category).
    pub fn apply(&mut self, message: FetchedDataMessage)
        ensures
            *final(self) == old(self).with_message(message),
    {
        match message {
            FetchedDataMessage::LocalInfo(i) => self.local_info = i,
            FetchedDataMessage::InternetInfo(i) => self.internet_info = i,
            FetchedDataMessage::DHCPInfo(i) => self.dhcp_info = i,
            FetchedDataMessage::DNSInfo(i) => self.dns_info = i,
            FetchedDataMessage::Traceroute(i) => self.traceroute = i,
            FetchedDataMessage::TCPInfo(i) => self.tcp_info = i,
            FetchedDataMessage::HTTPInfo(i) => self.http_info = i,
            FetchedDataMessage::HTTPSInfo(i) => self.https_info = i,
            FetchedDataMessage::UDPInfo(i) => self.udp_info = i,
            FetchedDataMessage::NTPInfo(i) => self.ntp_info = i,
            FetchedDataMessage::QUICInfo(i) => self.quic_info = i,
        }
    }

    /// Folds a batch of messages into the snapshot, first to last.
    pub fn apply_all(&mut self, messages: Vec<FetchedDataMessage>)
        ensures
            *final(self) == old(self).with_messages(messages@),
    {
        let ghost start = *self;
        let ghost all = messages@;
        let mut rest = messages;
        while rest.len() > 0
            invariant
                rest@.len() <= all.len(),
                rest@ =~= all.subrange(all.len() - rest@.len(), all.len() as int),
                *self == start.with_messages(all.subrange(0, all.len() - rest@.len())),
            decreases rest@.len(),
        {
            let ghost k = all.len() - rest@.len();
            let m = rest.remove(0);
            proof {
                assert(all.subrange(0, k + 1).drop_last() =~= all.subrange(0, k));
                assert(rest@ =~= all.subrange(k + 1, all.len() as int));
            }
            self.apply(m);
        }
        proof {
            assert(all.subrange(0, all.len() as int) =~= all);
        }
    }
}

/// A run of DNS snapshots leaves exactly the last one of the run as the
/// stored DNS sub-snapshot, whatever the snapshot held before.
pub proof fn lemma_dns_last_writer_wins(info: NetworkInfo, messages: Seq<FetchedDataMessage>)
    requires
        messages.len() > 0,
        forall|i: int| 0 <= i < messages.len() ==> #[trigger] messages[i] is DNSInfo,
    ensures
        info.with_messages(messages).dns_info == messages.last()->DNSInfo_0,
{
    assert(messages.last() is DNSInfo);
}

/// A message of one category leaves every other category as it was.
pub proof fn lemma_categories_independent(info: NetworkInfo, message: FetchedDataMessage)
    ensures
        !(message is LocalInfo) ==> info.with_message(message).local_info == info.local_info,
        !(message is InternetInfo) ==> info.with_message(message).internet_info
            == info.internet_info,
        !(message is DHCPInfo) ==> info.with_message(message).dhcp_info == info.dhcp_info,
        !(message is DNSInfo) ==> info.with_message(message).dns_info == info.dns_info,
        !(message is Traceroute) ==> info.with_message(message).traceroute == info.traceroute,
        !(message is TCPInfo) ==> info.with_message(message).tcp_info == info.tcp_info,
        !(message is HTTPInfo) ==> info.with_message(message).http_info == info.http_info,
        !(message is HTTPSInfo) ==> info.with_message(message).https_info == info.https_info,
        !(message is UDPInfo) ==> info.with_message(message).udp_info == info.udp_info,
        !(message is NTPInfo) ==> info.with_message(message).ntp_info == info.ntp_info,
        !(message is QUICInfo) ==> info.with_message(message).quic_info == info.quic_info,
{
}

/// Folding one batch after another is folding the two batches joined, so
/// draining a stream over several ticks ends where draining it at once does.
pub proof fn lemma_batches_compose(
    info: NetworkInfo,
    first: Seq<FetchedDataMessage>,
    second: Seq<FetchedDataMessage>,
)
    ensures
        info.with_messages(first).with_messages(second) == info.with_messages(first + second),
    decreases second.len(),
{
    if second.len() > 0 {
        lemma_batches_compose(info, first, second.drop_last());
        assert((first + second).drop_last() =~= first + second.drop_last());
        assert((first + second).last() == second.last());
    } else {
        assert(first + second =~= first);
    }
}

/// The stored DNS sub-snapshot is the last DNS message of the stream,
/// verbatim, whatever the earlier messages, the messages of other categories
/// after it, and the snapshot before the stream.
pub proof fn lemma_last_dns_message_wins(
    info: NetworkInfo,
    messages: Seq<FetchedDataMessage>,
    k: int,
)
    requires
        0 <= k < messages.len(),
        messages[k] is DNSInfo,
        forall|j: int| k < j < messages.len() ==> !(#[trigger] messages[j] is DNSInfo),
    ensures
        info.with_messages(messages).dns_info == messages[k]->DNSInfo_0,
    decreases messages.len(),
{
    if k == messages.len() - 1 {
        assert(messages.last() is DNSInfo);
    } else {
        let prefix = messages.drop_last();
        assert forall|j: int| k < j < prefix.len() implies !(#[trigger] prefix[j] is DNSInfo) by {
            assert(prefix[j] == messages[j]);
        }
        lemma_last_dns_message_wins(info, prefix, k);
        let last = messages.last();
        assert(!(messages[messages.len() - 1] is DNSInfo));
        lemma_categories_independent(info.with_messages(prefix), last);
    }
}

} // verus!
