//! Verified core of the process watcher: the edge-triggered state-machine
//! reducer, the stopped-state resolution table, socket selection, region
//! matching, and the per-tick poll step that strings them together.
//!
//! The host side owns the polling thread, the OS queries and the event
//! channel; it hands each tick's raw observations to [`poll_step`] and sends
//! whatever emissions come back.

use vstd::prelude::*;

use crate::aws_iprange::{IpPrefix, IpPrefixView};
use crate::models::{ProcessState, ProcessStateView};

verus! {

/// The IPv4 remote endpoint of an established TCP socket.
#[derive(Clone, Copy, Debug)]
pub struct TcpEndpoint {
    pub remote_addr: u32,
    pub remote_port: u16,
}

/// One row of the OS socket table, reduced to the plain values the selection
/// logic reads: the owning process ids and, for a TCP socket, its remote
/// endpoint.  The host fills these from its socket-table query, already
/// filtered to IPv4.
#[derive(Debug)]
pub struct SocketRecord {
    pub associated_pids: Vec<u32>,
    pub tcp: Option<TcpEndpoint>,
}

/// Mathematical image of [`SocketRecord`].
pub struct SocketRecordView {
    pub associated_pids: Seq<u32>,
    pub tcp: Option<TcpEndpoint>,
}

impl View for SocketRecord {
    type V = SocketRecordView;

    open spec fn view(&self) -> SocketRecordView {
        SocketRecordView { associated_pids: self.associated_pids@, tcp: self.tcp }
    }
}

impl DeepView for SocketRecord {
    type V = SocketRecordView;

    open spec fn deep_view(&self) -> SocketRecordView {
        self.view()
    }
}

/// The first socket-table row associated with the given process id, in table
/// order; the selection considers no later row.
pub open spec fn spec_first_socket_of(sockets: Seq<SocketRecordView>, process_id: u32) -> Option<
    SocketRecordView,
>
    decreases sockets.len(),
{
    if sockets.len() == 0 {
        None
    } else if sockets[0].associated_pids.contains(process_id) {
        Some(sockets[0])
    } else {
        spec_first_socket_of(sockets.drop_first(), process_id)
    }
}

/// The remote addresses the process holds on the target port: the remote
/// address of its first socket-table row, if that row is a TCP socket whose
/// remote port equals the target, and nothing otherwise.
pub open spec fn spec_find_process_ips(
    sockets: Seq<SocketRecordView>,
    process_id: u32,
    port: u16,
) -> Seq<u32> {
    match spec_first_socket_of(sockets, process_id) {
        None => Seq::empty(),
        Some(row) => match row.tcp {
            Some(endpoint) => if endpoint.remote_port == port {
                seq![endpoint.remote_addr]
            } else {
                Seq::empty()
            },
            None => Seq::empty(),
        },
    }
}

fn pids_contain(pids: &Vec<u32>, process_id: u32) -> (r: bool)
    ensures
        r == pids@.contains(process_id),
{
    let mut j: usize = 0;
    while j < pids.len()
        invariant
            j <= pids@.len(),
            forall|k: int| 0 <= k < j ==> pids@[k] != process_id,
        decreases pids@.len() - j,
    {
        if pids[j] == process_id {
            return true;
        }
        j += 1;
    }
    false
}

/// Index of the first socket-table row associated with the process id.
fn first_socket_index(sockets: &Vec<SocketRecord>, process_id: u32) -> (r: Option<usize>)
    ensures
        match r {
            Some(k) => k < sockets@.len() && spec_first_socket_of(
                sockets.deep_view(),
                process_id,
            ) == Some(sockets.deep_view()[k as int]),
            None => spec_first_socket_of(sockets.deep_view(), process_id) is None,
        },
{
    let ghost all = sockets.deep_view();
    proof {
        assert(all.skip(0) =~= all);
    }
    let mut i: usize = 0;
    while i < sockets.len()
        invariant
            i <= all.len(),
            all.len() == sockets@.len(),
            all =~= sockets.deep_view(),
            spec_first_socket_of(all, process_id) == spec_first_socket_of(
                all.skip(i as int),
                process_id,
            ),
        decreases all.len() - i,
    {
        let row = &sockets[i];
        if pids_contain(&row.associated_pids, process_id) {
            proof {
                assert(all.skip(i as int)[0] == all[i as int]);
                assert(all.skip(i as int).len() > 0);
                assert(spec_first_socket_of(all.skip(i as int), process_id) == Some(
                    all[i as int],
                ));
            }
            return Some(i);
        }
        proof {
            assert(all.skip(i as int)[0] == all[i as int]);
            assert(all.skip(i as int).drop_first() =~= all.skip(i as int + 1));
        }
        i += 1;
    }
    proof {
        assert(all.skip(i as int) =~= Seq::<SocketRecordView>::empty());
    }
    None
}

/// Selects, from a snapshot of the socket table, the remote IPv4 addresses
/// that the process holds an established TCP connection to on the target
/// port.  Mirrors the enumeration's selection: only the first row associated
/// with the process id is considered.
pub fn find_process_ips(sockets: &Vec<SocketRecord>, process_id: u32, port: u16) -> (ip_addrs: Vec<
    u32,
>)
    ensures
        ip_addrs@ == spec_find_process_ips(sockets.deep_view(), process_id, port),
{
    let ghost all = sockets.deep_view();
    let found = first_socket_index(sockets, process_id);
    let mut ip_addrs: Vec<u32> = Vec::new();
    match found {
        None => {},
        Some(k) => {
            let row = &sockets[k];
            proof {
                assert(row.deep_view() == all[k as int]);
            }
            match &row.tcp {
                Some(endpoint) => {
                    if endpoint.remote_port == port {
                        ip_addrs.push(endpoint.remote_addr);
                        proof {
                            assert(ip_addrs@ =~= seq![endpoint.remote_addr]);
                        }
                    }
                },
                None => {},
            }
        },
    }
    proof {
        assert(ip_addrs@ =~= spec_find_process_ips(all, process_id, port));
    }
    ip_addrs
}

#[verifier::external_type_specification]
#[verifier::external_body]
pub struct ExIpNetworkError(ipnetwork::IpNetworkError);

/// What ipnetwork's `FromStr` for `IpNetwork` makes of a prefix string:
/// `Err` when the string parses as no network at all, `Ok(None)` when it
/// parses but not as an IPv4 network, and `Ok(Some((base, len)))` for an
/// IPv4 network with masked base address `base` and prefix length `len`.
pub uninterp spec fn cidr_v4_of(s: Seq<char>) -> Result<Option<(u32, u8)>, ()>;

/// A malformed network prefix encountered during matching; carries the
/// prefix string that failed to parse.  A hard failure for the whole poll
/// iteration: a corrupt region table is a configuration defect.
#[derive(Debug)]
pub struct MatchError {
    pub prefix: String,
}

impl View for MatchError {
    type V = Seq<char>;

    open spec fn view(&self) -> Seq<char> {
        self.prefix@
    }
}

/// Relies on ipnetwork's `IpNetwork` `FromStr` implementation: the outcome
/// is a function of the string alone; an accepted IPv4 network always has a
/// prefix length of at most 32 (`Ipv4Network::new` rejects larger), and its
/// `network()` / `prefix()` accessors yield the masked base address and the
/// prefix length.
#[verifier::external_body]
fn parse_cidr(s: &str) -> (r: Result<Option<(u32, u8)>, ipnetwork::IpNetworkError>)
    ensures
        match r {
            Ok(net) => cidr_v4_of(s@) == Ok::<Option<(u32, u8)>, ()>(net),
            Err(_) => cidr_v4_of(s@) is Err,
        },
        r matches Ok(Some((base, len))) ==> len <= 32,
{
    match s.parse::<ipnetwork::IpNetwork>() {
        Ok(ipnetwork::IpNetwork::V4(net)) => Ok(Some((u32::from(net.network()), net.prefix()))),
        Ok(ipnetwork::IpNetwork::V6(_)) => Ok(None),
        Err(e) => Err(e),
    }
}

/// CIDR containment: an address lies in `base/len` exactly when its top
/// `len` bits agree with the base address's top `len` bits.
pub open spec fn cidr_contains(base: u32, len: u8, ip_addr: u32) -> bool
    recommends
        len <= 32,
{
    if len == 0 {
        true
    } else {
        (ip_addr >> ((32 - len) as u32)) == (base >> ((32 - len) as u32))
    }
}

/// Decides CIDR containment of an IPv4 address, both as 32-bit values.
pub fn cidr_match(base: u32, len: u8, ip_addr: u32) -> (r: bool)
    requires
        len <= 32,
    ensures
        r == cidr_contains(base, len, ip_addr),
{
    if len == 0 {
        true
    } else {
        let shift: u32 = 32 - (len as u32);
        (ip_addr >> shift) == (base >> shift)
    }
}

/// Region resolution over the ordered table: the region of the first entry
/// whose network contains the address, `Ok(None)` when no entry matches, and
/// `Err` with the offending prefix string when an entry reached during the
/// scan fails to parse.
pub open spec fn spec_match_ip(prefixes: Seq<IpPrefixView>, ip_addr: u32) -> Result<
    Option<Seq<char>>,
    Seq<char>,
>
    decreases prefixes.len(),
{
    if prefixes.len() == 0 {
        Ok(None)
    } else {
        match cidr_v4_of(prefixes[0].ip_prefix) {
            Err(_) => Err(prefixes[0].ip_prefix),
            Ok(None) => spec_match_ip(prefixes.drop_first(), ip_addr),
            Ok(Some((base, len))) => if cidr_contains(base, len, ip_addr) {
                Ok(Some(prefixes[0].region))
            } else {
                spec_match_ip(prefixes.drop_first(), ip_addr)
            },
        }
    }
}

/// Scans the region table in order and returns the region label of the
/// first prefix containing the address, or `None` when no entry matches; a
/// prefix string that fails to parse aborts the scan with a [`MatchError`].
pub fn match_ip(prefixes: &Vec<IpPrefix>, ip_addr: u32) -> (r: Result<Option<String>, MatchError>)
    ensures
        match r {
            Ok(Some(region)) => spec_match_ip(prefixes.deep_view(), ip_addr) == Ok::<
                _,
                Seq<char>,
            >(Some(region@)),
            Ok(None) => spec_match_ip(prefixes.deep_view(), ip_addr) == Ok::<
                Option<Seq<char>>,
                Seq<char>,
            >(None),
            Err(e) => spec_match_ip(prefixes.deep_view(), ip_addr) == Err::<
                Option<Seq<char>>,
                _,
            >(e@),
        },
{
    let ghost all = prefixes.deep_view();
    proof {
        assert(all.skip(0) =~= all);
    }
    let mut i: usize = 0;
    while i < prefixes.len()
        invariant
            i <= all.len(),
            all.len() == prefixes@.len(),
            all =~= prefixes.deep_view(),
            spec_match_ip(all, ip_addr) == spec_match_ip(all.skip(i as int), ip_addr),
        decreases all.len() - i,
    {
        let entry = &prefixes[i];
        proof {
            assert(all.skip(i as int)[0] == all[i as int]);
            assert(all.skip(i as int).len() > 0);
        }
        match parse_cidr(entry.ip_prefix.as_str()) {
            Err(_) => {
                return Err(MatchError { prefix: entry.ip_prefix.clone() });
            },
            Ok(Some((base, len))) => {
                if cidr_match(base, len, ip_addr) {
                    return Ok(Some(entry.region.clone()));
                }
            },
            Ok(None) => {},
        }
        proof {
            assert(all.skip(i as int).drop_first() =~= all.skip(i as int + 1));
        }
        i += 1;
    }
    proof {
        assert(all.skip(i as int) =~= Seq::<IpPrefixView>::empty());
    }
    Ok(None)
}

/// The edge-triggered dedup rule: an observed `ProcessRunning` is suppressed
/// while a listening determination is already held; otherwise a changed
/// observation is emitted, an unchanged one is not.
pub open spec fn spec_reduce(
    prev: ProcessStateView,
    observed: ProcessStateView,
) -> Option<ProcessStateView> {
    if observed is ProcessRunning && (prev is ProcessNotListening
        || prev is ProcessListening) {
        None
    } else if observed != prev {
        Some(observed)
    } else {
        None
    }
}

/// The state held after the reducer consumes an observation: the emitted
/// state if there was an emission, the previous state otherwise.
pub open spec fn spec_step(prev: ProcessStateView, observed: ProcessStateView) -> ProcessStateView {
    match spec_reduce(prev, observed) {
        Some(next) => next,
        None => prev,
    }
}

/// Pure reducer: decides whether the newly observed condition is emitted,
/// and updates the held last-emitted state accordingly.
pub fn reduce(last_message: &mut ProcessState, new_message: ProcessState) -> (emitted: Option<
    ProcessState,
>)
    ensures
        emitted.deep_view() == spec_reduce(old(last_message)@, new_message@),
        final(last_message)@ == spec_step(old(last_message)@, new_message@),
{
    let should_skip = matches!(new_message, ProcessState::ProcessRunning) && matches!(
        *last_message,
        ProcessState::ProcessNotListening | ProcessState::ProcessListening(_),
    );
    if should_skip {
        return None;
    }
    if !(*last_message == new_message) {
        let outgoing = new_message.clone();
        *last_message = new_message;
        Some(outgoing)
    } else {
        None
    }
}

/// Next state when the process id can no longer be found: "stopped" is
/// synthesized from the held state, with `ProcessNotRunning` and
/// `ProcesStopped` as silent self-loops so absence is announced only once.
pub open spec fn spec_stopped_resolution(prev: ProcessStateView) -> Option<ProcessStateView> {
    match prev {
        ProcessStateView::Unknown => Some(ProcessStateView::ProcessNotRunning),
        ProcessStateView::ProcessNotRunning => None,
        ProcessStateView::ProcessRunning => Some(ProcessStateView::ProcesStopped),
        ProcessStateView::ProcessNotListening => Some(ProcessStateView::ProcesStopped),
        ProcessStateView::ProcessListening(_) => Some(ProcessStateView::ProcesStopped),
        ProcessStateView::ProcesStopped => None,
    }
}

/// Applies the stopped-resolution table and routes the synthesized state
/// through the reducer, as the watcher does when the process disappears.
pub fn handle_process_stopped(last_message: &mut ProcessState) -> (emitted: Option<ProcessState>)
    ensures
        emitted.deep_view() == spec_stopped_resolution(old(last_message)@),
        final(last_message)@ == (match spec_stopped_resolution(old(last_message)@) {
            Some(next) => next,
            None => old(last_message)@,
        }),
{
    let new_message = match last_message {
        ProcessState::Unknown => ProcessState::ProcessNotRunning,
        ProcessState::ProcessNotRunning => {
            return None;
        },
        ProcessState::ProcessRunning => ProcessState::ProcesStopped,
        ProcessState::ProcessNotListening => ProcessState::ProcesStopped,
        ProcessState::ProcessListening(_) => ProcessState::ProcesStopped,
        ProcessState::ProcesStopped => {
            return None;
        },
    };
    reduce(last_message, new_message)
}

/// How the cached process id of the watcher evolves on one tick: a cached id
/// is kept while its refresh still finds the process and dropped otherwise;
/// with no cached id, a fresh scan of the process table decides.
pub open spec fn spec_resolve_process_id(cached: Option<u32>, probe: PidProbe) -> Option<u32> {
    match probe {
        PidProbe::Refreshed { alive } => if alive {
            cached
        } else {
            None
        },
        PidProbe::Scanned { found } => found,
    }
}

/// What the host's per-tick process query yielded: a targeted refresh of the
/// cached id (did the process still exist?), or, with nothing cached, a full
/// scan by name (the first matching process id, if any).
#[derive(Clone, Copy, Debug)]
pub enum PidProbe {
    Refreshed { alive: bool },
    Scanned { found: Option<u32> },
}

/// Updates the watcher's process-id cache from this tick's probe.  The probe
/// kind must correspond to the cache: a refresh is only made for a cached
/// id, a scan only when none is cached.
pub fn resolve_process_id(cached: Option<u32>, probe: PidProbe) -> (r: Option<u32>)
    requires
        (cached is Some) <==> (probe is Refreshed),
    ensures
        r == spec_resolve_process_id(cached, probe),
{
    match probe {
        PidProbe::Refreshed { alive } => if alive {
            cached
        } else {
            None
        },
        PidProbe::Scanned { found } => found,
    }
}

/// Outcome of one poll tick: the states emitted (in order), the held state
/// afterwards, and the prefix string of a malformed table entry if one
/// aborted region matching.
pub struct PollTickView {
    pub emissions: Seq<ProcessStateView>,
    pub last: ProcessStateView,
    pub fault: Option<Seq<char>>,
}

/// The emission sequence of one reducer outcome.
pub open spec fn spec_emit(emitted: Option<ProcessStateView>) -> Seq<ProcessStateView> {
    match emitted {
        Some(state) => seq![state],
        None => Seq::empty(),
    }
}

/// Folds the resolved remote addresses through region matching and the
/// reducer: each address reduces toward `ProcessListening(region)` or
/// `ProcessNotListening`; a malformed prefix stops the fold with a fault.
pub open spec fn spec_listen_steps(
    last: ProcessStateView,
    ip_addrs: Seq<u32>,
    prefixes: Seq<IpPrefixView>,
) -> PollTickView
    decreases ip_addrs.len(),
{
    if ip_addrs.len() == 0 {
        PollTickView { emissions: Seq::empty(), last, fault: None }
    } else {
        match spec_match_ip(prefixes, ip_addrs[0]) {
            Err(prefix) => PollTickView { emissions: Seq::empty(), last, fault: Some(prefix) },
            Ok(matched) => {
                let observed = match matched {
                    Some(region) => ProcessStateView::ProcessListening(region),
                    None => ProcessStateView::ProcessNotListening,
                };
                let rest = spec_listen_steps(
                    spec_step(last, observed),
                    ip_addrs.drop_first(),
                    prefixes,
                );
                PollTickView {
                    emissions: spec_emit(spec_reduce(last, observed)) + rest.emissions,
                    last: rest.last,
                    fault: rest.fault,
                }
            },
        }
    }
}

/// One full poll tick over the held state: with a process id, reduce toward
/// `ProcessRunning` first, then toward the listening determination of each
/// resolved address (or `ProcessNotListening` when none resolved); with no
/// process id, apply the stopped-resolution table.
pub open spec fn spec_poll_tick(
    last: ProcessStateView,
    process_id: Option<u32>,
    sockets: Seq<SocketRecordView>,
    port: u16,
    prefixes: Seq<IpPrefixView>,
) -> PollTickView {
    match process_id {
        None => PollTickView {
            emissions: spec_emit(spec_stopped_resolution(last)),
            last: match spec_stopped_resolution(last) {
                Some(next) => next,
                None => last,
            },
            fault: None,
        },
        Some(pid) => {
            let running_emit = spec_reduce(last, ProcessStateView::ProcessRunning);
            let after_running = spec_step(last, ProcessStateView::ProcessRunning);
            let ip_addrs = spec_find_process_ips(sockets, pid, port);
            if ip_addrs.len() == 0 {
                PollTickView {
                    emissions: spec_emit(running_emit) + spec_emit(
                        spec_reduce(after_running, ProcessStateView::ProcessNotListening),
                    ),
                    last: spec_step(after_running, ProcessStateView::ProcessNotListening),
                    fault: None,
                }
            } else {
                let rest = spec_listen_steps(after_running, ip_addrs, prefixes);
                PollTickView {
                    emissions: spec_emit(running_emit) + rest.emissions,
                    last: rest.last,
                    fault: rest.fault,
                }
            }
        },
    }
}

/// Runs one poll tick: feeds this tick's observations (process id, socket
/// snapshot, region table) through the reducer and returns the emissions to
/// publish, together with the malformed prefix that aborted matching, if
/// any.  Emissions gathered before a fault are still returned, as they were
/// already sent when the fault arose.
#[verifier::loop_isolation(false)]
pub fn poll_step(
    last_message: &mut ProcessState,
    process_id: Option<u32>,
    sockets: &Vec<SocketRecord>,
    port: u16,
    prefixes: &Vec<IpPrefix>,
) -> (r: (Vec<ProcessState>, Option<MatchError>))
    ensures
        ({
            let tick = spec_poll_tick(
                old(last_message)@,
                process_id,
                sockets.deep_view(),
                port,
                prefixes.deep_view(),
            );
            &&& r.0.deep_view() == tick.emissions
            &&& final(last_message)@ == tick.last
            &&& (match r.1 {
                Some(fault) => tick.fault == Some(fault@),
                None => tick.fault is None,
            })
        }),
{
    let ghost table = prefixes.deep_view();
    let mut current = last_message.clone();
    let mut emissions: Vec<ProcessState> = Vec::new();
    let pid = match process_id {
        None => {
            if let Some(message) = handle_process_stopped(&mut current) {
                emissions.push(message);
            }
            proof {
                assert(emissions.deep_view() =~= spec_emit(
                    spec_stopped_resolution(old(last_message)@),
                ));
            }
            *last_message = current;
            return (emissions, None);
        },
        Some(pid) => pid,
    };
    if let Some(message) = reduce(&mut current, ProcessState::ProcessRunning) {
        emissions.push(message);
    }
    let ghost after_running = current@;
    let ip_addrs = find_process_ips(sockets, pid, port);
    let ghost addrs = ip_addrs@;
    if ip_addrs.len() == 0 {
        if let Some(message) = reduce(&mut current, ProcessState::ProcessNotListening) {
            emissions.push(message);
        }
        proof {
            let tick = spec_poll_tick(
                old(last_message)@,
                process_id,
                sockets.deep_view(),
                port,
                table,
            );
            assert(emissions.deep_view() =~= tick.emissions);
        }
        *last_message = current;
        return (emissions, None);
    }
    let ghost base = emissions.deep_view();
    let ghost full = spec_listen_steps(after_running, addrs, table);
    proof {
        assert(addrs.skip(0) =~= addrs);
    }
    let mut j: usize = 0;
    while j < ip_addrs.len()
        invariant
            j <= addrs.len(),
            addrs.len() == ip_addrs@.len(),
            addrs == ip_addrs@,
            table == prefixes.deep_view(),
            full == spec_listen_steps(after_running, addrs, table),
            ({
                let rest = spec_listen_steps(current@, addrs.skip(j as int), table);
                &&& full.last == rest.last
                &&& full.fault == rest.fault
                &&& base + full.emissions =~= emissions.deep_view() + rest.emissions
            }),
        decreases addrs.len() - j,
    {
        let ghost rest = spec_listen_steps(current@, addrs.skip(j as int), table);
        proof {
            assert(addrs.skip(j as int)[0] == addrs[j as int]);
            assert(addrs.skip(j as int).len() > 0);
            assert(addrs.skip(j as int).drop_first() =~= addrs.skip(j as int + 1));
        }
        let observed = match match_ip(prefixes, ip_addrs[j]) {
            Err(fault) => {
                proof {
                    let tick = spec_poll_tick(
                        old(last_message)@,
                        process_id,
                        sockets.deep_view(),
                        port,
                        table,
                    );
                    assert(base + full.emissions =~= emissions.deep_view());
                    assert(base =~= spec_emit(
                        spec_reduce(old(last_message)@, ProcessStateView::ProcessRunning),
                    ));
                    assert(tick.emissions =~= base + full.emissions);
                    assert(tick.emissions == emissions.deep_view());
                }
                *last_message = current;
                return (emissions, Some(fault));
            },
            Ok(Some(region)) => ProcessState::ProcessListening(region),
            Ok(None) => ProcessState::ProcessNotListening,
        };
        if let Some(message) = reduce(&mut current, observed) {
            emissions.push(message);
        }
        proof {
            let next_rest = spec_listen_steps(current@, addrs.skip(j as int + 1), table);
            assert(base + full.emissions =~= emissions.deep_view() + next_rest.emissions);
        }
        j += 1;
    }
    proof {
        assert(addrs.skip(j as int) =~= Seq::<u32>::empty());
        assert(base + full.emissions =~= emissions.deep_view());
        let tick = spec_poll_tick(old(last_message)@, process_id, sockets.deep_view(), port, table);
        assert(tick.emissions =~= base + full.emissions);
        assert(emissions.deep_view() == tick.emissions);
    }
    *last_message = current;
    (emissions, None)
}

/// Idempotence of the reducer: once an observation has been consumed,
/// feeding the identical observation again emits nothing and leaves the held
/// state unchanged — so two consecutive identical conditions yield at most
/// the first emission.
pub proof fn lemma_reduce_idempotent(prev: ProcessStateView, observed: ProcessStateView)
    ensures
        spec_reduce(spec_step(prev, observed), observed) is None,
        spec_step(spec_step(prev, observed), observed) == spec_step(prev, observed),
{
}

/// The emissions the reducer makes over a whole sequence of observed raw
/// conditions, in order.
pub open spec fn spec_reduce_trace(
    prev: ProcessStateView,
    observations: Seq<ProcessStateView>,
) -> Seq<ProcessStateView>
    decreases observations.len(),
{
    if observations.len() == 0 {
        Seq::empty()
    } else {
        spec_emit(spec_reduce(prev, observations[0])) + spec_reduce_trace(
            spec_step(prev, observations[0]),
            observations.drop_first(),
        )
    }
}

/// Over any sequence of observed raw conditions, repeating a condition
/// changes nothing: the trace with two consecutive identical observations
/// equals the trace with one, so consecutive duplicates yield at most one
/// emission between them.
pub proof fn lemma_consecutive_duplicates_collapse(
    prev: ProcessStateView,
    observed: ProcessStateView,
    rest: Seq<ProcessStateView>,
)
    ensures
        spec_reduce_trace(prev, seq![observed, observed] + rest) == spec_reduce_trace(
            prev,
            seq![observed] + rest,
        ),
{
    let twice = seq![observed, observed] + rest;
    let once = seq![observed] + rest;
    lemma_reduce_idempotent(prev, observed);
    let after = spec_step(prev, observed);
    assert(twice.drop_first() =~= once);
    assert(once.drop_first() =~= rest);
    assert(spec_reduce_trace(prev, twice) =~= spec_emit(spec_reduce(prev, observed))
        + spec_reduce_trace(after, once));
    assert(spec_reduce_trace(after, once) =~= spec_emit(spec_reduce(after, observed))
        + spec_reduce_trace(spec_step(after, observed), rest));
    assert(spec_reduce_trace(prev, twice) =~= spec_reduce_trace(prev, once));
}

/// Suppression rule: while the held state is `ProcessNotListening` or
/// `ProcessListening(_)`, an observed `ProcessRunning` produces no emission
/// and does not alter the held state.
pub proof fn lemma_running_suppressed(prev: ProcessStateView)
    requires
        prev is ProcessNotListening || prev is ProcessListening,
    ensures
        spec_reduce(prev, ProcessStateView::ProcessRunning) is None,
        spec_step(prev, ProcessStateView::ProcessRunning) == prev,
{
}

/// From a held listening state, losing the process id resolves to exactly
/// one emission: `ProcesStopped`.
pub proof fn lemma_stopped_from_listening(prev: ProcessStateView)
    requires
        prev is ProcessListening,
    ensures
        spec_stopped_resolution(prev) == Some(ProcessStateView::ProcesStopped),
{
}

/// While the process stays absent, the terminal states are self-loops:
/// losing the process id again yields no further emission.
pub proof fn lemma_stopped_self_loop(prev: ProcessStateView)
    requires
        prev is ProcessNotRunning || prev is ProcesStopped,
    ensures
        spec_stopped_resolution(prev) is None,
{
}

} // verus!
