//! The DNS reachability probe: reading the resolver list, checking each
//! server once, and the snapshots emitted along the way.

use crate::internal_comms::{DNSInfo, DNSServer, DnsInfoView};
use crate::session::texts;
use vstd::prelude::*;

verus! {

/// The name asked for when checking whether a server resolves.
pub const PROBE_DOMAIN: &'static str = "example.com";

/// How long a server gets to answer, in milliseconds.
pub const CHECK_TIMEOUT_MS: u64 = 1000;

/// Least time between the starts of two consecutive checks, in milliseconds.
pub const MIN_CHECK_SPACING_MS: u64 = 50;

/// The nameserver addresses that a resolver configuration declares, in file
/// order, or `None` where the text is not a valid configuration.
pub uninterp spec fn parsed_nameservers(text: Seq<char>) -> Option<Seq<Seq<char>>>;

/// Relies on resolv_conf::Config::parse, and on the Display text of each
/// nameserver address it returns.
#[verifier::external_body]
fn parse_nameservers(text: &str) -> (r: Option<Vec<String>>)
    ensures
        r is Some == parsed_nameservers(text@) is Some,
        r matches Some(v) ==> parsed_nameservers(text@) == Some(texts(v@)),
{
    match resolv_conf::Config::parse(text) {
        Ok(config) => Some(config.nameservers.iter().map(|n| n.to_string()).collect()),
        Err(_) => None,
    }
}

/// Lower-case ASCII letters and digits in non-empty labels separated by
/// single dots, at most 63 characters in all (so no label is too long for
/// the wire).
pub open spec fn is_plain_domain(s: Seq<char>) -> bool {
    &&& 0 < s.len() <= 63
    &&& forall|i: int|
        0 <= i < s.len() ==> (('a' <= #[trigger] s[i] && s[i] <= 'z') || ('0' <= s[i] && s[i]
            <= '9') || s[i] == '.')
    &&& s[0] != '.'
    &&& s[s.len() - 1] != '.'
    &&& forall|i: int| 0 <= i < s.len() - 1 ==> !(#[trigger] s[i] == '.' && s[i + 1] == '.')
}

/// Number of characters of the label that starts at `i`: up to the next dot
/// or the end of the name.
pub open spec fn label_len(s: Seq<char>, i: int) -> nat
    decreases s.len() - i,
{
    if i < 0 || i >= s.len() || s[i] == '.' {
        0
    } else {
        1 + label_len(s, i + 1)
    }
}

/// Wire form of the labels of `s` from position `i` on: each label as its
/// length byte followed by its ASCII bytes, and a closing zero byte.
pub open spec fn wire_labels(s: Seq<char>, i: int) -> Seq<u8>
    decreases s.len() - i,
{
    if i < 0 || i >= s.len() {
        seq![0u8]
    } else {
        let k = label_len(s, i);
        let next = i + k + 1;
        seq![k as u8] + s.subrange(i, i + k).map_values(|c: char| c as u8) + if next > s.len() {
            seq![0u8]
        } else {
            wire_labels(s, next)
        }
    }
}

/// Wire form of a domain name.
pub open spec fn wire_name(domain: Seq<char>) -> Seq<u8> {
    wire_labels(domain, 0)
}

/// Relies on rustdns: Message::default (a query with a random identifier,
/// recursion desired and the authentic-data bit set), Message::add_question
/// for the A record of `domain` in class IN, and Message::to_vec. For a plain
/// name IDNA processing leaves the name as it is, add_question does not panic
/// and to_vec does not fail; the bytes after the identifier are then fixed.
#[verifier::external_body]
fn encode_query(domain: &str) -> (r: Vec<u8>)
    requires
        is_plain_domain(domain@),
    ensures
        r@.len() == 16 + wire_name(domain@).len(),
        r@[2] == 0x01u8,
        r@[3] == 0x20u8,
        r@.subrange(4, 12) == seq![0u8, 1, 0, 0, 0, 0, 0, 0],
        r@.subrange(12, 12 + wire_name(domain@).len() as int) == wire_name(domain@),
        r@.subrange(12 + wire_name(domain@).len() as int, 16 + wire_name(domain@).len() as int) == seq![
            0u8,
            1,
            0,
            1,
        ],
{
    let mut message = rustdns::Message::default();
    message.add_question(domain, rustdns::Type::A, rustdns::Class::Internet);
    message.to_vec().expect("a plain host name always encodes")
}

/// The wire form of the query sent to each server: after a random two-byte
/// identifier, a standard query with recursion desired and one question, for
/// the A record of the probe domain in class IN, and no other record.
pub fn probe_query() -> (r: Vec<u8>)
    ensures
        r@.len() == 16 + wire_name(PROBE_DOMAIN@).len(),
        r@[2] == 0x01u8,
        r@[3] == 0x20u8,
        r@.subrange(4, 12) == seq![0u8, 1, 0, 0, 0, 0, 0, 0],
        r@.subrange(12, 12 + wire_name(PROBE_DOMAIN@).len() as int) == wire_name(PROBE_DOMAIN@),
        r@.subrange(12 + wire_name(PROBE_DOMAIN@).len() as int, 16 + wire_name(PROBE_DOMAIN@).len() as int)
            == seq![0u8, 1, 0, 1],
{
    proof {
        reveal_strlit("example.com");
    }
    encode_query(PROBE_DOMAIN)
}

/// Outcome of one resolution check.
#[derive(Debug, Clone, Copy, PartialEq, Eq, Structural)]
pub enum CheckDNSResolutionResponse {
    Success,
    Failure,
    /// The local interface could not be used to originate traffic.
    CannotBind,
}

/// How the exchange with a server failed.
#[derive(Debug, Clone, Copy, PartialEq, Eq, Structural)]
pub enum TransportError {
    /// No socket could be opened on, or bound to, the interface's address.
    Bind,
    Send,
    Receive,
    Timeout,
    /// What came back could not be decoded as a DNS message.
    MalformedReply,
}

/// A decoded reply succeeds exactly when it carries the "no error" code.
pub open spec fn verdict_spec(rcode: u16) -> CheckDNSResolutionResponse {
    if rcode == 0 {
        CheckDNSResolutionResponse::Success
    } else {
        CheckDNSResolutionResponse::Failure
    }
}

pub open spec fn classify_spec(reply: Result<u16, TransportError>) -> CheckDNSResolutionResponse {
    match reply {
        Err(TransportError::Bind) => CheckDNSResolutionResponse::CannotBind,
        Err(_) => CheckDNSResolutionResponse::Failure,
        Ok(rcode) => verdict_spec(rcode),
    }
}

pub fn verdict_for_rcode(rcode: u16) -> (r: CheckDNSResolutionResponse)
    ensures
        r == verdict_spec(rcode),
{
    if rcode == 0 {
        CheckDNSResolutionResponse::Success
    } else {
        CheckDNSResolutionResponse::Failure
    }
}

/// Classifies what the exchange with one server gave: the response code of
/// the decoded reply, or how it failed. A bind failure is its own outcome;
/// a reply succeeds exactly when its code is "no error"; every other
/// transport failure, a malformed reply included, is a failure.
pub fn classify_reply(reply: Result<u16, TransportError>) -> (r: CheckDNSResolutionResponse)
    ensures
        r == classify_spec(reply),
{
    match reply {
        Err(TransportError::Bind) => CheckDNSResolutionResponse::CannotBind,
        Err(_) => CheckDNSResolutionResponse::Failure,
        Ok(rcode) => verdict_for_rcode(rcode),
    }
}

/// How long to wait after a check that took `elapsed_ms`, so that the next
/// check starts no sooner than the minimum spacing after this one started.
pub fn spacing_wait_ms(elapsed_ms: u64) -> (r: u64)
    ensures
        elapsed_ms < MIN_CHECK_SPACING_MS ==> r == MIN_CHECK_SPACING_MS - elapsed_ms,
        elapsed_ms >= MIN_CHECK_SPACING_MS ==> r == 0,
        elapsed_ms + r >= MIN_CHECK_SPACING_MS,
{
    if elapsed_ms < MIN_CHECK_SPACING_MS {
        MIN_CHECK_SPACING_MS - elapsed_ms
    } else {
        0
    }
}

/// The list without repeats, each entry kept where it was first seen.
pub open spec fn dedup(s: Seq<Seq<char>>) -> Seq<Seq<char>>
    decreases s.len(),
{
    if s.len() == 0 {
        Seq::empty()
    } else {
        let d = dedup(s.drop_last());
        if d.contains(s.last()) {
            d
        } else {
            d.push(s.last())
        }
    }
}

/// Deduplication keeps exactly the entries of the list, once each.
pub proof fn lemma_dedup_members(s: Seq<Seq<char>>)
    ensures
        dedup(s).no_duplicates(),
        forall|x: Seq<char>| dedup(s).contains(x) <==> s.contains(x),
    decreases s.len(),
{
    if s.len() > 0 {
        lemma_dedup_members(s.drop_last());
        let d = dedup(s.drop_last());
        assert forall|x: Seq<char>| s.contains(x) <==> (s.drop_last().contains(x) || x == s.last()) by {
            if s.contains(x) {
                let i = choose|i: int| 0 <= i < s.len() && s[i] == x;
                if i < s.len() - 1 {
                    assert(s.drop_last()[i] == x);
                }
            }
            if x == s.last() {
                assert(s[s.len() - 1] == x);
            }
            if s.drop_last().contains(x) {
                let i = choose|i: int| 0 <= i < s.drop_last().len() && s.drop_last()[i] == x;
                assert(s[i] == x);
            }
        }
        if !d.contains(s.last()) {
            let e = d.push(s.last());
            assert forall|x: Seq<char>| e.contains(x) <==> (d.contains(x) || x == s.last()) by {
                if e.contains(x) {
                    let i = choose|i: int| 0 <= i < e.len() && e[i] == x;
                    if i < d.len() {
                        assert(d[i] == x);
                    }
                }
                if d.contains(x) {
                    let i = choose|i: int| 0 <= i < d.len() && d[i] == x;
                    assert(e[i] == x);
                }
                if x == s.last() {
                    assert(e[e.len() - 1] == x);
                }
            }
            assert forall|i: int, j: int| 0 <= i < e.len() && 0 <= j < e.len() && i != j implies e[i]
                != e[j] by {
                if i < d.len() && j < d.len() {
                } else if i == d.len() {
                    assert(e[j] == d[j]);
                    assert(d.contains(d[j]));
                } else {
                    assert(e[i] == d[i]);
                    assert(d.contains(d[i]));
                }
            }
        }
    }
}

/// A list without repeats is its own deduplication.
pub proof fn lemma_dedup_distinct(s: Seq<Seq<char>>)
    requires
        s.no_duplicates(),
    ensures
        dedup(s) == s,
    decreases s.len(),
{
    if s.len() > 0 {
        let t = s.drop_last();
        assert(t.no_duplicates());
        lemma_dedup_distinct(t);
        lemma_dedup_members(t);
        if dedup(t).contains(s.last()) {
            let i = choose|i: int| 0 <= i < t.len() && t[i] == s.last();
            assert(s[i] == s[s.len() - 1]);
        }
        assert(t.push(s.last()) =~= s);
    }
}

/// Deduplicating twice gives what deduplicating once gave.
pub proof fn lemma_dedup_idempotent(s: Seq<Seq<char>>)
    ensures
        dedup(dedup(s)) == dedup(s),
{
    lemma_dedup_members(s);
    lemma_dedup_distinct(dedup(s));
}

/// Deduplication keeps first-seen order: of two kept entries, the later one
/// first occurs in the list after an occurrence of the earlier one.
pub proof fn lemma_dedup_first_seen_order(s: Seq<Seq<char>>, i: int, j: int)
    requires
        0 <= i < j < dedup(s).len(),
    ensures
        exists|p: int, q: int|
            #![trigger s[p], s[q]]
            {
                &&& 0 <= p < q < s.len()
                &&& s[p] == dedup(s)[i]
                &&& s[q] == dedup(s)[j]
                &&& !s.take(q).contains(dedup(s)[j])
            },
    decreases s.len(),
{
    let t = s.drop_last();
    let d = dedup(t);
    lemma_dedup_members(t);
    if j < d.len() {
        lemma_dedup_first_seen_order(t, i, j);
        let (p, q) = choose|p: int, q: int|
            #![trigger t[p], t[q]]
            0 <= p < q < t.len() && t[p] == d[i] && t[q] == d[j] && !t.take(q).contains(d[j]);
        assert(s.take(q) =~= t.take(q));
        assert(s[p] == t[p] && s[q] == t[q]);
        assert(!s.take(q).contains(dedup(s)[j]));
    } else {
        let x = s.last();
        assert(!d.contains(x));
        assert(dedup(s) == d.push(x));
        assert(d.contains(d[i]));
        assert(t.contains(d[i]));
        let p = choose|p: int| 0 <= p < t.len() && t[p] == d[i];
        let q = s.len() - 1;
        assert(s.take(q) =~= t);
        assert(s[p] == t[p]);
        assert(!s.take(q).contains(dedup(s)[j]));
    }
}

/// Removes repeated server addresses, keeping each where it was first seen.
pub fn dedup_servers(servers: Vec<String>) -> (r: Vec<String>)
    ensures
        texts(r@) == dedup(texts(servers@)),
{
    let mut r: Vec<String> = Vec::new();
    let n = servers.len();
    let mut i: usize = 0;
    while i < n
        invariant
            n == servers@.len(),
            i <= n,
            texts(r@) == dedup(texts(servers@.subrange(0, i as int))),
        decreases n - i,
    {
        let s = &servers[i];
        let mut found = false;
        let mut j: usize = 0;
        while j < r.len()
            invariant
                j <= r@.len(),
                found == (exists|k: int| 0 <= k < j && #[trigger] r@[k]@ == s@),
            decreases r@.len() - j,
        {
            if r[j] == *s {
                found = true;
            }
            j = j + 1;
        }
        proof {
            let prefix = texts(servers@.subrange(0, i as int));
            let next = texts(servers@.subrange(0, i + 1));
            assert(next.drop_last() =~= prefix);
            assert(next.last() == s@);
            if found {
                let k = choose|k: int| 0 <= k < r@.len() && #[trigger] r@[k]@ == s@;
                assert(texts(r@)[k] == s@);
            }
            if texts(r@).contains(s@) {
                let k = choose|k: int| 0 <= k < texts(r@).len() && texts(r@)[k] == s@;
                assert(r@[k]@ == s@);
            }
        }
        if !found {
            let c = s.clone();
            r.push(c);
        }
        i = i + 1;
        proof {
            assert(texts(r@) =~= dedup(texts(servers@.subrange(0, i as int))));
        }
    }
    proof {
        assert(servers@.subrange(0, n as int) =~= servers@);
    }
    r
}

/// Where the probe is in its single pass.
#[derive(Debug, Clone, Copy, PartialEq, Eq, Structural)]
pub enum DnsProbeStage {
    ReadingConfig,
    FindingAddress,
    Checking,
    Stopped,
}

/// The outside work that the probe asks for next.
#[derive(Debug, PartialEq, Eq)]
pub enum DnsProbeCommand {
    /// Read the system resolver configuration.
    ReadConfig,
    /// Look up the address of the chosen interface.
    FindInterfaceAddress,
    /// Run one resolution check against this server.
    Check(String),
    /// Nothing more to do.
    Stop,
}

/// The decisions of the DNS probe: fed with what the outside work gave, it
/// says what to emit and what to do next.
#[derive(Debug)]
pub struct DnsProbe {
    stage: DnsProbeStage,
    servers: Vec<String>,
    info: DNSInfo,
    next: usize,
}

/// Abstract state of the probe: its stage, the deduplicated server list, the
/// latest snapshot and how many servers have been checked.
pub struct DnsProbeView {
    pub stage: DnsProbeStage,
    pub servers: Seq<Seq<char>>,
    pub snapshot: DnsInfoView,
    pub checked: int,
}

pub open spec fn emitted(r: Option<DNSInfo>) -> Option<DnsInfoView> {
    match r {
        Some(i) => Some(i@),
        None => None,
    }
}

/// The configuration could not be read or parsed.
pub open spec fn unavailable_view() -> DnsInfoView {
    DnsInfoView { can_fetch: Some(false), can_bind_interface: None, servers: Seq::empty() }
}

/// The chosen interface cannot originate traffic.
pub open spec fn cannot_bind_view() -> DnsInfoView {
    DnsInfoView { can_fetch: Some(false), can_bind_interface: Some(false), servers: Seq::empty() }
}

/// The full server list, none of it checked yet.
pub open spec fn listed_view(servers: Seq<Seq<char>>) -> DnsInfoView {
    DnsInfoView {
        can_fetch: Some(true),
        can_bind_interface: None,
        servers: servers.map_values(|s: Seq<char>| (s, None::<bool>)),
    }
}

pub open spec fn initial_view() -> DnsProbeView {
    DnsProbeView {
        stage: DnsProbeStage::ReadingConfig,
        servers: Seq::empty(),
        snapshot: DnsInfoView { can_fetch: None, can_bind_interface: None, servers: Seq::empty() },
        checked: 0,
    }
}

/// After the configuration was read (`None`: unreadable or unparseable).
pub open spec fn after_config(v: DnsProbeView, servers: Option<Seq<Seq<char>>>) -> (DnsProbeView, Option<DnsInfoView>) {
    if v.stage != DnsProbeStage::ReadingConfig {
        (v, None)
    } else {
        match servers {
            None => (
                DnsProbeView { stage: DnsProbeStage::Stopped, snapshot: unavailable_view(), ..v },
                Some(unavailable_view()),
            ),
            Some(list) => (
                DnsProbeView { stage: DnsProbeStage::FindingAddress, servers: dedup(list), ..v },
                None,
            ),
        }
    }
}

/// After the interface address lookup succeeded or failed.
pub open spec fn after_address(v: DnsProbeView, found: bool) -> (DnsProbeView, Option<DnsInfoView>) {
    if v.stage != DnsProbeStage::FindingAddress {
        (v, None)
    } else if !found {
        (
            DnsProbeView { stage: DnsProbeStage::Stopped, snapshot: cannot_bind_view(), ..v },
            Some(cannot_bind_view()),
        )
    } else {
        (
            DnsProbeView {
                stage: if v.servers.len() > 0 {
                    DnsProbeStage::Checking
                } else {
                    DnsProbeStage::Stopped
                },
                snapshot: listed_view(v.servers),
                checked: 0,
                ..v
            },
            Some(listed_view(v.servers)),
        )
    }
}

/// After the check of the next server ended with `outcome`.
pub open spec fn after_check(v: DnsProbeView, outcome: CheckDNSResolutionResponse) -> (DnsProbeView, Option<DnsInfoView>) {
    if v.stage != DnsProbeStage::Checking {
        (v, None)
    } else if outcome == CheckDNSResolutionResponse::CannotBind {
        (
            DnsProbeView { stage: DnsProbeStage::Stopped, snapshot: cannot_bind_view(), ..v },
            Some(cannot_bind_view()),
        )
    } else {
        let snapshot = DnsInfoView {
            servers: v.snapshot.servers.update(
                v.checked,
                (v.servers[v.checked], Some(outcome == CheckDNSResolutionResponse::Success)),
            ),
            ..v.snapshot
        };
        (
            DnsProbeView {
                stage: if v.checked + 1 < v.servers.len() {
                    DnsProbeStage::Checking
                } else {
                    DnsProbeStage::Stopped
                },
                snapshot: snapshot,
                checked: v.checked + 1,
                ..v
            },
            Some(snapshot),
        )
    }
}

/// What a read of the configuration file yields: its nameservers, or `None`
/// where it could not be read or parsed.
pub open spec fn config_servers(text: Result<Seq<char>, ()>) -> Option<Seq<Seq<char>>> {
    match text {
        Ok(t) => parsed_nameservers(t),
        Err(_) => None,
    }
}

pub open spec fn text_view(text: Result<String, ()>) -> Result<Seq<char>, ()> {
    match text {
        Ok(t) => Ok(t@),
        Err(e) => Err(e),
    }
}

impl View for DnsProbe {
    type V = DnsProbeView;

    closed spec fn view(&self) -> DnsProbeView {
        DnsProbeView {
            stage: self.stage,
            servers: texts(self.servers@),
            snapshot: self.info@,
            checked: self.next as int,
        }
    }
}

impl DnsProbeView {
    /// While checking, the next server exists and the snapshot lists every
    /// server in order.
    pub open spec fn wf(self) -> bool {
        &&& 0 <= self.checked <= self.servers.len()
        &&& (self.stage == DnsProbeStage::ReadingConfig || self.stage
            == DnsProbeStage::FindingAddress) ==> self.checked == 0
        &&& self.stage == DnsProbeStage::Checking ==> {
            &&& self.checked < self.servers.len()
            &&& self.snapshot.can_fetch == Some(true)
            &&& self.snapshot.servers.len() == self.servers.len()
            &&& forall|j: int|
                0 <= j < self.servers.len() ==> (#[trigger] self.snapshot.servers[j]).0
                    == self.servers[j]
        }
    }
}

impl DnsProbe {
    pub open spec fn wf(&self) -> bool {
        self@.wf()
    }

    /// A probe about to read the configuration.
    pub fn new() -> (r: DnsProbe)
        ensures
            r.wf(),
            r@ == initial_view(),
    {
        let r = DnsProbe { stage: DnsProbeStage::ReadingConfig, servers: Vec::new(), info: DNSInfo::default(), next: 0 };
        assert(r@.servers =~= Seq::<Seq<char>>::empty());
        assert(r@.snapshot.servers =~= Seq::<(Seq<char>, Option<bool>)>::empty());
        r
    }

    pub fn stage(&self) -> (r: DnsProbeStage)
        ensures
            r == self@.stage,
    {
        self.stage
    }

    /// The outside work to do next; while checking, the server to check.
    pub fn command(&self) -> (r: DnsProbeCommand)
        requires
            self.wf(),
        ensures
            self@.stage == DnsProbeStage::ReadingConfig ==> r == DnsProbeCommand::ReadConfig,
            self@.stage == DnsProbeStage::FindingAddress ==> r
                == DnsProbeCommand::FindInterfaceAddress,
            self@.stage == DnsProbeStage::Stopped ==> r == DnsProbeCommand::Stop,
            self@.stage == DnsProbeStage::Checking ==> (r matches DnsProbeCommand::Check(s) && s@
                == self@.servers[self@.checked]),
    {
        match self.stage {
            DnsProbeStage::ReadingConfig => DnsProbeCommand::ReadConfig,
            DnsProbeStage::FindingAddress => DnsProbeCommand::FindInterfaceAddress,
            DnsProbeStage::Checking => DnsProbeCommand::Check(self.servers[self.next].clone()),
            DnsProbeStage::Stopped => DnsProbeCommand::Stop,
        }
    }

    /// Takes the configured server list (`Err`: the configuration could not
    /// be read or parsed). An unusable configuration ends the probe with the
    /// "unavailable" snapshot; otherwise the list is deduplicated and the
    /// interface address is asked for next.
    pub fn config_read(&mut self, servers: Result<Vec<String>, ()>) -> (r: Option<DNSInfo>)
        requires
            old(self).wf(),
        ensures
            final(self).wf(),
            (final(self)@, emitted(r)) == after_config(
                old(self)@,
                match servers {
                    Ok(v) => Some(texts(v@)),
                    Err(_) => None,
                },
            ),
    {
        if self.stage != DnsProbeStage::ReadingConfig {
            return None;
        }
        match servers {
            Err(_) => {
                self.stage = DnsProbeStage::Stopped;
                self.info = DNSInfo { can_fetch: Some(false), can_bind_interface: None, dns_servers: Vec::new() };
                assert(self.info@.servers =~= Seq::<(Seq<char>, Option<bool>)>::empty());
                Some(self.info.duplicate())
            },
            Ok(list) => {
                self.servers = dedup_servers(list);
                self.stage = DnsProbeStage::FindingAddress;
                None
            },
        }
    }

    /// Takes the text of the resolver configuration (`Err`: it could not be
    /// read) and acts as [`DnsProbe::config_read`] on the nameservers it declares.
    pub fn config_text_read(&mut self, text: Result<String, ()>) -> (r: Option<DNSInfo>)
        requires
            old(self).wf(),
        ensures
            final(self).wf(),
            (final(self)@, emitted(r)) == after_config(old(self)@, config_servers(text_view(text))),
    {
        let servers = match text {
            Ok(t) => match parse_nameservers(t.as_str()) {
                Some(v) => Ok(v),
                None => Err(()),
            },
            Err(_) => Err(()),
        };
        self.config_read(servers)
    }

    /// Takes the outcome of the interface address lookup. Without an address
    /// the probe ends with the "cannot bind" snapshot; with one it emits the
    /// full server list, nothing checked yet, and starts checking it.
    pub fn interface_address_found(&mut self, found: bool) -> (r: Option<DNSInfo>)
        requires
            old(self).wf(),
        ensures
            final(self).wf(),
            (final(self)@, emitted(r)) == after_address(old(self)@, found),
    {
        if self.stage != DnsProbeStage::FindingAddress {
            return None;
        }
        if !found {
            self.stage = DnsProbeStage::Stopped;
            self.info = DNSInfo { can_fetch: Some(false), can_bind_interface: Some(false), dns_servers: Vec::new() };
            assert(self.info@.servers =~= Seq::<(Seq<char>, Option<bool>)>::empty());
            return Some(self.info.duplicate());
        }
        let mut listed: Vec<DNSServer> = Vec::new();
        let n = self.servers.len();
        let mut i: usize = 0;
        while i < n
            invariant
                n == self.servers@.len(),
                i <= n,
                listed@.len() == i,
                forall|j: int|
                    0 <= j < i ==> #[trigger] listed@[j].ip@ == self.servers@[j]@
                        && listed@[j].can_resolve is None,
            decreases n - i,
        {
            listed.push(DNSServer { ip: self.servers[i].clone(), can_resolve: None });
            i = i + 1;
        }
        self.info = DNSInfo { can_fetch: Some(true), can_bind_interface: None, dns_servers: listed };
        self.next = 0;
        self.stage = if n > 0 {
            DnsProbeStage::Checking
        } else {
            DnsProbeStage::Stopped
        };
        assert(self.info@.servers =~= listed_view(texts(self.servers@)).servers);
        Some(self.info.duplicate())
    }

    /// Takes the outcome of the check of the next server. A bind failure ends
    /// the probe with the "cannot bind" snapshot; otherwise that server's
    /// entry records success or failure, the whole snapshot is emitted again,
    /// and the probe moves on to the following server or stops after the last.
    pub fn check_finished(&mut self, outcome: CheckDNSResolutionResponse) -> (r: Option<DNSInfo>)
        requires
            old(self).wf(),
        ensures
            final(self).wf(),
            (final(self)@, emitted(r)) == after_check(old(self)@, outcome),
    {
        if self.stage != DnsProbeStage::Checking {
            return None;
        }
        if outcome == CheckDNSResolutionResponse::CannotBind {
            self.stage = DnsProbeStage::Stopped;
            self.info = DNSInfo { can_fetch: Some(false), can_bind_interface: Some(false), dns_servers: Vec::new() };
            assert(self.info@.servers =~= Seq::<(Seq<char>, Option<bool>)>::empty());
            return Some(self.info.duplicate());
        }
        let ghost before = self@;
        let i = self.next;
        let n = self.servers.len();
        assert(i < n);
        let ip = self.servers[i].clone();
        let ok = outcome == CheckDNSResolutionResponse::Success;
        self.info.dns_servers.set(i, DNSServer { ip, can_resolve: Some(ok) });
        self.next = i + 1;
        if self.next == n {
            self.stage = DnsProbeStage::Stopped;
        }
        proof {
            let expected = after_check(before, outcome).0;
            assert(self@.snapshot.servers =~= expected.snapshot.servers);
        }
        Some(self.info.duplicate())
    }

    /// Takes what the exchange with the next server gave (the decoded
    /// response code, or how it failed) and acts as
    /// [`DnsProbe::check_finished`] on its classification.
    pub fn reply_received(&mut self, reply: Result<u16, TransportError>) -> (r: Option<DNSInfo>)
        requires
            old(self).wf(),
        ensures
            final(self).wf(),
            (final(self)@, emitted(r)) == after_check(old(self)@, classify_spec(reply)),
    {
        let outcome = classify_reply(reply);
        self.check_finished(outcome)
    }
}

/// Once stopped the probe emits nothing more, whatever it is fed.
pub proof fn lemma_stopped_is_silent(
    v: DnsProbeView,
    servers: Option<Seq<Seq<char>>>,
    found: bool,
    outcome: CheckDNSResolutionResponse,
)
    requires
        v.stage == DnsProbeStage::Stopped,
    ensures
        after_config(v, servers) == (v, None::<DnsInfoView>),
        after_address(v, found) == (v, None::<DnsInfoView>),
        after_check(v, outcome) == (v, None::<DnsInfoView>),
{
}

/// An unusable configuration stops the probe at once with exactly the
/// "unavailable" snapshot, and a configuration without nameservers yields an
/// available but empty list once the interface address is known.
pub proof fn lemma_config_outcomes(v: DnsProbeView)
    requires
        v.stage == DnsProbeStage::ReadingConfig,
    ensures
        after_config(v, None).1 == Some(unavailable_view()),
        after_config(v, None).0.stage == DnsProbeStage::Stopped,
        after_address(after_config(v, Some(Seq::empty())).0, true).1 == Some(
            DnsInfoView { can_fetch: Some(true), can_bind_interface: None, servers: Seq::empty() },
        ),
        after_address(after_config(v, Some(Seq::empty())).0, true).0.stage == DnsProbeStage::Stopped,
{
    let w = after_config(v, Some(Seq::empty())).0;
    assert(dedup(Seq::<Seq<char>>::empty()) =~= Seq::<Seq<char>>::empty());
    assert(listed_view(w.servers).servers =~= Seq::<(Seq<char>, Option<bool>)>::empty());
}

/// One input to the probe, in abstract form: the configured server list
/// (`None`: unusable), whether the interface has an address, or the outcome
/// of one check.
pub enum DnsEvent {
    Config(Option<Seq<Seq<char>>>),
    Address(bool),
    Check(CheckDNSResolutionResponse),
}

/// The probe's reaction to one event.
pub open spec fn step(v: DnsProbeView, e: DnsEvent) -> (DnsProbeView, Option<DnsInfoView>) {
    match e {
        DnsEvent::Config(servers) => after_config(v, servers),
        DnsEvent::Address(found) => after_address(v, found),
        DnsEvent::Check(outcome) => after_check(v, outcome),
    }
}

/// The state after a run of events, first to last, and every snapshot
/// emitted along the way, in order.
pub open spec fn run(v: DnsProbeView, events: Seq<DnsEvent>) -> (DnsProbeView, Seq<DnsInfoView>)
    decreases events.len(),
{
    if events.len() == 0 {
        (v, Seq::empty())
    } else {
        let (w, out) = run(v, events.drop_last());
        let (x, o) = step(w, events.last());
        (
            x,
            match o {
                Some(i) => out.push(i),
                None => out,
            },
        )
    }
}

/// The server addresses that a snapshot lists, in order.
pub open spec fn listed_servers(i: DnsInfoView) -> Seq<Seq<char>> {
    i.servers.map_values(|p: (Seq<char>, Option<bool>)| p.0)
}

/// What holds throughout a run once the configuration declared `cfg`.
spec fn configured_with(v: DnsProbeView, cfg: Seq<Seq<char>>) -> bool {
    &&& v.wf()
    &&& v.stage != DnsProbeStage::ReadingConfig
    &&& v.servers == dedup(cfg)
    &&& v.snapshot.can_fetch == Some(true) ==> listed_servers(v.snapshot) == v.servers
}

proof fn lemma_step_keeps_listing(v: DnsProbeView, cfg: Seq<Seq<char>>, e: DnsEvent)
    requires
        configured_with(v, cfg),
    ensures
        configured_with(step(v, e).0, cfg),
        step(v, e).1 matches Some(i) ==> (i.can_fetch == Some(true) ==> listed_servers(i) == dedup(
            cfg,
        )),
{
    match e {
        DnsEvent::Config(_) => {},
        DnsEvent::Address(found) => {
            if v.stage == DnsProbeStage::FindingAddress && found {
                assert(listed_servers(listed_view(v.servers)) =~= v.servers);
            }
        },
        DnsEvent::Check(outcome) => {
            if v.stage == DnsProbeStage::Checking && outcome != CheckDNSResolutionResponse::CannotBind {
                let w = step(v, e).0;
                assert(listed_servers(v.snapshot).len() == v.snapshot.servers.len());
                assert(listed_servers(w.snapshot) =~= listed_servers(v.snapshot)) by {
                    assert forall|j: int| 0 <= j < w.snapshot.servers.len() implies #[trigger] w.snapshot.servers[j].0 == v.snapshot.servers[j].0 by {
                        if j != v.checked {
                        }
                    }
                }
            }
        },
    }
}

/// Over any run that begins by reading a configuration declaring `cfg`,
/// every snapshot that lists servers lists exactly the deduplicated `cfg`,
/// in first-seen order, whatever the later events and however long each
/// check took (time is no input of the probe).
pub proof fn lemma_run_lists_deduplicated(cfg: Seq<Seq<char>>, events: Seq<DnsEvent>)
    requires
        events.len() > 0,
        events[0] == DnsEvent::Config(Some(cfg)),
    ensures
        forall|k: int|
            0 <= k < run(initial_view(), events).1.len() && (#[trigger] run(
                initial_view(),
                events,
            ).1[k]).can_fetch == Some(true) ==> listed_servers(run(initial_view(), events).1[k])
                == dedup(cfg),
{
    lemma_run_invariant(cfg, events);
}

proof fn lemma_run_invariant(cfg: Seq<Seq<char>>, events: Seq<DnsEvent>)
    requires
        events.len() > 0,
        events[0] == DnsEvent::Config(Some(cfg)),
    ensures
        configured_with(run(initial_view(), events).0, cfg),
        forall|k: int|
            0 <= k < run(initial_view(), events).1.len() && (#[trigger] run(
                initial_view(),
                events,
            ).1[k]).can_fetch == Some(true) ==> listed_servers(run(initial_view(), events).1[k])
                == dedup(cfg),
    decreases events.len(),
{
    if events.len() == 1 {
        assert(events.drop_last() =~= Seq::<DnsEvent>::empty());
        assert(events.last() == events[0]);
        let r0 = run(initial_view(), events.drop_last());
        assert(r0.0 == initial_view());
        assert(r0.1 =~= Seq::<DnsInfoView>::empty());
        let v = run(initial_view(), events).0;
        assert(v == after_config(initial_view(), Some(cfg)).0);
        assert(v.stage == DnsProbeStage::FindingAddress);
    } else {
        let prefix = events.drop_last();
        assert(prefix[0] == events[0]);
        lemma_run_invariant(cfg, prefix);
        let (w, out) = run(initial_view(), prefix);
        lemma_step_keeps_listing(w, cfg, events.last());
        let all = run(initial_view(), events).1;
        assert forall|k: int|
            0 <= k < all.len() && (#[trigger] all[k]).can_fetch == Some(true) implies listed_servers(
            all[k],
        ) == dedup(cfg) by {
            if k < out.len() {
                assert(all[k] == out[k]);
            }
        }
    }
}

/// One check event per outcome, in order.
pub open spec fn checks(outcomes: Seq<CheckDNSResolutionResponse>) -> Seq<DnsEvent> {
    outcomes.map_values(|o: CheckDNSResolutionResponse| DnsEvent::Check(o))
}

/// The snapshot after the first `outcomes.len()` servers of `servers` were
/// checked with those outcomes, in list order.
pub open spec fn checked_view(
    servers: Seq<Seq<char>>,
    outcomes: Seq<CheckDNSResolutionResponse>,
) -> DnsInfoView {
    DnsInfoView {
        can_fetch: Some(true),
        can_bind_interface: None,
        servers: Seq::new(
            servers.len(),
            |j: int|
                (
                    servers[j],
                    if j < outcomes.len() {
                        Some(outcomes[j] == CheckDNSResolutionResponse::Success)
                    } else {
                        None
                    },
                ),
        ),
    }
}

/// After the configuration declared `cfg`, the interface address was found
/// and the checks ended with `outcomes` (no bind failure), the latest
/// snapshot pairs each server, in first-seen order, with the outcome of its
/// own check, whichever check took longest; the unchecked ones are still
/// unknown.
pub proof fn lemma_outcomes_in_discovery_order(
    cfg: Seq<Seq<char>>,
    outcomes: Seq<CheckDNSResolutionResponse>,
)
    requires
        outcomes.len() <= dedup(cfg).len(),
        forall|i: int|
            0 <= i < outcomes.len() ==> #[trigger] outcomes[i]
                != CheckDNSResolutionResponse::CannotBind,
    ensures
        ({
            let r = run(
                initial_view(),
                seq![DnsEvent::Config(Some(cfg)), DnsEvent::Address(true)] + checks(outcomes),
            );
            &&& r.0.servers == dedup(cfg)
            &&& r.0.snapshot == checked_view(dedup(cfg), outcomes)
            &&& r.0.checked == outcomes.len()
            &&& r.1.last() == checked_view(dedup(cfg), outcomes)
            &&& r.0.stage == if outcomes.len() < dedup(cfg).len() {
                DnsProbeStage::Checking
            } else {
                DnsProbeStage::Stopped
            }
        }),
    decreases outcomes.len(),
{
    let d = dedup(cfg);
    let head = seq![DnsEvent::Config(Some(cfg)), DnsEvent::Address(true)];
    let events = head + checks(outcomes);
    if outcomes.len() == 0 {
        assert(checks(outcomes) =~= Seq::<DnsEvent>::empty());
        assert(events =~= head);
        assert(head.drop_last() =~= seq![DnsEvent::Config(Some(cfg))]);
        assert(seq![DnsEvent::Config(Some(cfg))].drop_last() =~= Seq::<DnsEvent>::empty());
        let one = seq![DnsEvent::Config(Some(cfg))];
        assert(one.last() == DnsEvent::Config(Some(cfg)));
        let r0 = run(initial_view(), one.drop_last());
        assert(r0.0 == initial_view() && r0.1 == Seq::<DnsInfoView>::empty());
        let r1 = run(initial_view(), one);
        assert(r1.0 == after_config(initial_view(), Some(cfg)).0);
        assert(r1.1 == Seq::<DnsInfoView>::empty());
        assert(head.last() == DnsEvent::Address(true));
        assert(listed_view(d).servers =~= checked_view(d, outcomes).servers);
        let r2 = run(initial_view(), head);
        assert(r2.0 == after_address(r1.0, true).0);
        assert(r2.1 == seq![listed_view(d)]);
    } else {
        let prev = outcomes.drop_last();
        assert forall|i: int| 0 <= i < prev.len() implies #[trigger] prev[i]
            != CheckDNSResolutionResponse::CannotBind by {
            assert(prev[i] == outcomes[i]);
        }
        lemma_outcomes_in_discovery_order(cfg, prev);
        assert(events.drop_last() =~= head + checks(prev));
        assert(events.last() == DnsEvent::Check(outcomes.last()));
        let w = run(initial_view(), head + checks(prev)).0;
        let o = outcomes.last();
        assert(o == outcomes[outcomes.len() - 1]);
        assert(o != CheckDNSResolutionResponse::CannotBind);
        let x = after_check(w, o).0;
        let k = prev.len() as int;
        assert forall|j: int| 0 <= j < d.len() implies #[trigger] x.snapshot.servers[j]
            == checked_view(d, outcomes).servers[j] by {
            if j < k {
                assert(prev[j] == outcomes[j]);
            }
        }
        assert(x.snapshot.servers =~= checked_view(d, outcomes).servers);
    }
}

} // verus!
