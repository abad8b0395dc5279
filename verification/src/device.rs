//! Transport resolver: finding the device on the local network, by its name
//! first and by service discovery when the name does not lead to it.

use vstd::prelude::*;
use vstd::string::*;
use crate::error::{failure, result_model, ErrorKind, ErrorModel, InstallerError};
use crate::http::{
    get_request_model, HttpOutcome, HttpOutcomeModel, HttpRequest, HttpRequestModel, Method,
};
use crate::text::{contains_text, occurs_in};

verus! {

/// The device, located.
#[derive(Clone, Debug, PartialEq, Eq)]
pub struct MoveDevice {
    pub hostname: String,
    pub ip: String,
}

/// The mathematical content of a [`MoveDevice`].
pub struct MoveDeviceModel {
    pub hostname: Seq<char>,
    pub ip: Seq<char>,
}

impl DeepView for MoveDevice {
    type V = MoveDeviceModel;

    open spec fn deep_view(&self) -> MoveDeviceModel {
        MoveDeviceModel { hostname: self.hostname@, ip: self.ip@ }
    }
}

/// How the device is known on the local network.
#[derive(Clone, Debug, PartialEq, Eq)]
pub struct DeviceIdentity {
    /// The name that resolves to the device.
    pub local_name: String,
    /// What the host name of the device's advertised service holds.
    pub service_hint: String,
}

/// The mathematical content of a [`DeviceIdentity`].
pub struct DeviceIdentityModel {
    pub local_name: Seq<char>,
    pub service_hint: Seq<char>,
}

impl DeepView for DeviceIdentity {
    type V = DeviceIdentityModel;

    open spec fn deep_view(&self) -> DeviceIdentityModel {
        DeviceIdentityModel { local_name: self.local_name@, service_hint: self.service_hint@ }
    }
}

/// What came of resolving the device's name.
#[derive(Clone, Debug, PartialEq, Eq)]
pub enum NameLookup {
    /// The name could not be resolved.
    Failed { reason: String },
    /// The addresses that the name stands for, in the order in which they were given.
    Resolved { addresses: Vec<String> },
}

/// The mathematical content of a [`NameLookup`].
pub enum NameLookupModel {
    Failed { reason: Seq<char> },
    Resolved { addresses: Seq<Seq<char>> },
}

impl DeepView for NameLookup {
    type V = NameLookupModel;

    open spec fn deep_view(&self) -> NameLookupModel {
        match self {
            NameLookup::Failed { reason } => NameLookupModel::Failed { reason: reason@ },
            NameLookup::Resolved { addresses } => NameLookupModel::Resolved {
                addresses: addresses.deep_view(),
            },
        }
    }
}

/// What service discovery reported within one poll.
#[derive(Clone, Debug, PartialEq, Eq)]
pub enum BrowseEvent {
    /// A service was resolved to a host and its addresses.
    Resolved { hostname: String, addresses: Vec<String> },
    /// Something else happened, or nothing at all.
    Other,
}

/// The mathematical content of a [`BrowseEvent`].
pub enum BrowseEventModel {
    Resolved { hostname: Seq<char>, addresses: Seq<Seq<char>> },
    Other,
}

impl DeepView for BrowseEvent {
    type V = BrowseEventModel;

    open spec fn deep_view(&self) -> BrowseEventModel {
        match self {
            BrowseEvent::Resolved { hostname, addresses } => BrowseEventModel::Resolved {
                hostname: hostname@,
                addresses: addresses.deep_view(),
            },
            BrowseEvent::Other => BrowseEventModel::Other,
        }
    }
}

/// How service discovery ended without a device.
#[derive(Clone, Debug, PartialEq, Eq)]
pub enum BrowseEnd {
    /// The discovery service could not be started.
    DaemonFailed { reason: String },
    /// Browsing could not be started.
    BrowseFailed { reason: String },
    /// The time allowed for browsing ran out.
    TimedOut,
}

/// The mathematical content of a [`BrowseEnd`].
pub enum BrowseEndModel {
    DaemonFailed { reason: Seq<char> },
    BrowseFailed { reason: Seq<char> },
    TimedOut,
}

impl DeepView for BrowseEnd {
    type V = BrowseEndModel;

    open spec fn deep_view(&self) -> BrowseEndModel {
        match self {
            BrowseEnd::DaemonFailed { reason } => BrowseEndModel::DaemonFailed { reason: reason@ },
            BrowseEnd::BrowseFailed { reason } => BrowseEndModel::BrowseFailed { reason: reason@ },
            BrowseEnd::TimedOut => BrowseEndModel::TimedOut,
        }
    }
}

/// Where the search for the device stands: what to do next, or how it ended.
#[derive(Clone, Debug, PartialEq, Eq)]
pub enum Discovery {
    /// Send `request` to learn whether the device answers at `ip`.
    Probe { ip: String, request: HttpRequest },
    /// Browse for the device's service. `reasons` tells why the search has not ended yet.
    Browse { reasons: Vec<String> },
    /// The device was found.
    Found(MoveDevice),
    /// The device was not found by any method.
    NotFound(InstallerError),
}

/// The mathematical content of a [`Discovery`].
pub enum DiscoveryModel {
    Probe { ip: Seq<char>, request: HttpRequestModel },
    Browse { reasons: Seq<Seq<char>> },
    Found(MoveDeviceModel),
    NotFound(ErrorModel),
}

impl DeepView for Discovery {
    type V = DiscoveryModel;

    open spec fn deep_view(&self) -> DiscoveryModel {
        match self {
            Discovery::Probe { ip, request } => DiscoveryModel::Probe {
                ip: ip@,
                request: request.deep_view(),
            },
            Discovery::Browse { reasons } => DiscoveryModel::Browse {
                reasons: reasons.deep_view(),
            },
            Discovery::Found(device) => DiscoveryModel::Found(device.deep_view()),
            Discovery::NotFound(error) => DiscoveryModel::NotFound(error.deep_view()),
        }
    }
}

/// The time allowed for browsing, in milliseconds.
pub const BROWSE_BUDGET_MS: u64 = 5000;

/// The longest time to wait for one event, in milliseconds.
pub const POLL_INTERVAL_MS: u64 = 100;

/// The identity of the Move.
pub open spec fn move_identity() -> DeviceIdentityModel {
    DeviceIdentityModel { local_name: "move.local"@, service_hint: "move"@ }
}

/// The device known as `identity`, at `ip`.
pub open spec fn device_at(identity: DeviceIdentityModel, ip: Seq<char>) -> MoveDeviceModel {
    MoveDeviceModel { hostname: identity.local_name, ip }
}

/// The request that probes the device at the base address `base_url`.
pub open spec fn validate_device_request_model(base_url: Seq<char>) -> HttpRequestModel {
    get_request_model(base_url, None)
}

/// Whether the device was reached.
///
/// Any answer counts, whatever its status: only a failed exchange is a failure.
pub open spec fn validate_device_model(outcome: HttpOutcomeModel) -> Result<bool, ErrorModel> {
    match outcome {
        HttpOutcomeModel::Failed { reason } => failure(
            ErrorKind::Unreachable,
            "Cannot reach device: "@ + reason,
        ),
        HttpOutcomeModel::Answered(_) => Ok(true),
    }
}

/// What to do once the device's name was looked up: probe the first address,
/// or browse when there is none.
pub open spec fn discover_move_model(
    identity: DeviceIdentityModel,
    lookup: NameLookupModel,
) -> DiscoveryModel {
    match lookup {
        NameLookupModel::Failed { reason } => DiscoveryModel::Browse {
            reasons: seq!["Hostname resolution failed: "@ + reason],
        },
        NameLookupModel::Resolved { addresses } => if addresses.len() == 0 {
            DiscoveryModel::Browse {
                reasons: seq!["No addresses returned for "@ + identity.local_name],
            }
        } else {
            DiscoveryModel::Probe {
                ip: addresses[0],
                request: validate_device_request_model("http://"@ + addresses[0]),
            }
        },
    }
}

/// What to do once the address `ip` was probed: the device is found if it
/// answered, else browse.
pub open spec fn probe_concluded_model(
    identity: DeviceIdentityModel,
    ip: Seq<char>,
    probed: Result<bool, ErrorModel>,
) -> DiscoveryModel {
    match probed {
        Ok(_) => DiscoveryModel::Found(device_at(identity, ip)),
        Err(error) => DiscoveryModel::Browse {
            reasons: seq!["Device validation failed: "@ + error.message],
        },
    }
}

/// How long to wait for the next event once `elapsed_ms` milliseconds of
/// browsing have passed; nothing once the time allowed has run out.
pub open spec fn browse_poll_model(elapsed_ms: u64) -> Option<u64> {
    if elapsed_ms >= BROWSE_BUDGET_MS {
        None
    } else if BROWSE_BUDGET_MS - elapsed_ms < POLL_INTERVAL_MS {
        Some((BROWSE_BUDGET_MS - elapsed_ms) as u64)
    } else {
        Some(POLL_INTERVAL_MS)
    }
}

/// The message of the final failure: the plain statement, then the reasons,
/// each on a line of its own, in the order in which they arose.
pub open spec fn not_found_message(reasons: Seq<Seq<char>>) -> Seq<char>
    decreases reasons.len(),
{
    if reasons.len() == 0 {
        "Move device not found. Please ensure Move is on the same WiFi network."@
    } else {
        not_found_message(reasons.drop_last()) + "\n"@ + reasons.last()
    }
}

/// The final failure, for the given reasons.
pub open spec fn not_found(reasons: Seq<Seq<char>>) -> ErrorModel {
    ErrorModel { kind: ErrorKind::NotFound, message: not_found_message(reasons) }
}

/// What to do once service discovery reported `event`.
///
/// The first service whose host name holds the hint is the device, at the
/// first of its addresses. Everything else is passed over.
pub open spec fn discover_via_mdns_model(
    identity: DeviceIdentityModel,
    reasons: Seq<Seq<char>>,
    event: BrowseEventModel,
) -> DiscoveryModel {
    match event {
        BrowseEventModel::Resolved { hostname, addresses } => if occurs_in(
            hostname,
            identity.service_hint,
        ) {
            if addresses.len() == 0 {
                DiscoveryModel::NotFound(not_found(reasons.push("No IP address found"@)))
            } else {
                DiscoveryModel::Found(device_at(identity, addresses[0]))
            }
        } else {
            DiscoveryModel::Browse { reasons }
        },
        BrowseEventModel::Other => DiscoveryModel::Browse { reasons },
    }
}

/// The reason that the given end of service discovery adds.
pub open spec fn browse_end_reason(end: BrowseEndModel) -> Seq<char> {
    match end {
        BrowseEndModel::DaemonFailed { reason } => "Failed to start mDNS: "@ + reason,
        BrowseEndModel::BrowseFailed { reason } => "Failed to browse: "@ + reason,
        BrowseEndModel::TimedOut => "Move device not found via mDNS"@,
    }
}

impl DeviceIdentity {
    /// The identity of the Move.
    pub fn move_device() -> (identity: DeviceIdentity)
        ensures
            identity.deep_view() == move_identity(),
    {
        DeviceIdentity {
            local_name: String::from_str("move.local"),
            service_hint: String::from_str("move"),
        }
    }
}

/// The name and port to resolve in order to find the device by name.
pub fn name_query(identity: &DeviceIdentity) -> (query: String)
    ensures
        query@ == identity.local_name@ + ":80"@,
{
    let mut query = identity.local_name.clone();
    query.append(":80");
    query
}

/// The service type to browse for.
pub fn browse_service_type() -> (service: String)
    ensures
        service@ == "_http._tcp.local."@,
{
    String::from_str("_http._tcp.local.")
}

/// The request that probes the device at the base address `base_url`.
pub fn validate_device_request(base_url: &str) -> (request: HttpRequest)
    ensures
        request.deep_view() == validate_device_request_model(base_url@),
{
    HttpRequest {
        method: Method::Get,
        url: String::from_str(base_url),
        user_agent: None,
        cookie: None,
        json_body: None,
    }
}

/// Judges a probe of the device: reached, or why not.
pub fn validate_device(outcome: &HttpOutcome) -> (reached: Result<bool, InstallerError>)
    ensures
        result_model(reached) == validate_device_model(outcome.deep_view()),
{
    match outcome {
        HttpOutcome::Failed { reason } => {
            let mut message = String::from_str("Cannot reach device: ");
            message.append(reason.as_str());
            Err(InstallerError { kind: ErrorKind::Unreachable, message })
        },
        HttpOutcome::Answered(_) => Ok(true),
    }
}

fn one_reason(head: &str, detail: &str) -> (reasons: Vec<String>)
    ensures
        reasons.deep_view() == seq![head@ + detail@],
{
    let mut reason = String::from_str(head);
    reason.append(detail);
    let mut reasons: Vec<String> = Vec::new();
    reasons.push(reason);
    assert(reasons.deep_view() =~= seq![head@ + detail@]);
    reasons
}

fn located(identity: &DeviceIdentity, ip: &str) -> (device: MoveDevice)
    ensures
        device.deep_view() == device_at(identity.deep_view(), ip@),
{
    MoveDevice { hostname: identity.local_name.clone(), ip: String::from_str(ip) }
}

/// Decides what to do once the device's name was looked up.
///
/// The first address is probed. Without an address, whether the lookup failed
/// or gave none, the search goes on by service discovery.
pub fn discover_move(identity: &DeviceIdentity, lookup: &NameLookup) -> (next: Discovery)
    ensures
        next.deep_view() == discover_move_model(identity.deep_view(), lookup.deep_view()),
{
    match lookup {
        NameLookup::Failed { reason } => Discovery::Browse {
            reasons: one_reason("Hostname resolution failed: ", reason.as_str()),
        },
        NameLookup::Resolved { addresses } => {
            if addresses.len() == 0 {
                Discovery::Browse {
                    reasons: one_reason("No addresses returned for ", identity.local_name.as_str()),
                }
            } else {
                assert(addresses.deep_view()[0] == addresses@[0]@);
                let ip = addresses[0].clone();
                let mut base_url = String::from_str("http://");
                base_url.append(ip.as_str());
                Discovery::Probe { request: validate_device_request(base_url.as_str()), ip }
            }
        },
    }
}

/// Decides what to do once the address `ip` was probed.
///
/// A device that answered is found, and no service discovery takes place.
pub fn probe_concluded(
    identity: &DeviceIdentity,
    ip: &str,
    probed: &Result<bool, InstallerError>,
) -> (next: Discovery)
    ensures
        next.deep_view() == probe_concluded_model(identity.deep_view(), ip@, result_model(*probed)),
{
    match probed {
        Ok(_) => Discovery::Found(located(identity, ip)),
        Err(error) => Discovery::Browse {
            reasons: one_reason("Device validation failed: ", error.message.as_str()),
        },
    }
}

/// How long to wait for the next event once `elapsed_ms` milliseconds of
/// browsing have passed; nothing once the time allowed has run out.
///
/// A wait never reaches past the time allowed.
pub fn browse_poll(elapsed_ms: u64) -> (wait_ms: Option<u64>)
    ensures
        wait_ms == browse_poll_model(elapsed_ms),
        wait_ms matches Some(wait) ==> 0 < wait <= POLL_INTERVAL_MS && elapsed_ms + wait
            <= BROWSE_BUDGET_MS,
{
    if elapsed_ms >= BROWSE_BUDGET_MS {
        None
    } else if BROWSE_BUDGET_MS - elapsed_ms < POLL_INTERVAL_MS {
        Some(BROWSE_BUDGET_MS - elapsed_ms)
    } else {
        Some(POLL_INTERVAL_MS)
    }
}

/// The final failure, for the given reasons.
pub fn device_not_found(reasons: &Vec<String>) -> (error: InstallerError)
    ensures
        error.deep_view() == not_found(reasons.deep_view()),
{
    let mut message = String::from_str(
        "Move device not found. Please ensure Move is on the same WiFi network.",
    );
    let ghost all = reasons.deep_view();
    let mut i: usize = 0;
    assert(all.take(0) =~= Seq::<Seq<char>>::empty());
    while i < reasons.len()
        invariant
            i <= reasons.len(),
            all == reasons.deep_view(),
            message@ == not_found_message(all.take(i as int)),
        decreases reasons.len() - i,
    {
        assert(all[i as int] == reasons@[i as int]@);
        assert(all.take(i + 1).drop_last() =~= all.take(i as int));
        assert(all.take(i + 1).last() == all[i as int]);
        message.append("\n");
        message.append(reasons[i].as_str());
        i += 1;
    }
    assert(all.take(i as int) =~= all);
    InstallerError { kind: ErrorKind::NotFound, message }
}

/// Decides what to do once service discovery reported `event`.
pub fn discover_via_mdns(
    identity: &DeviceIdentity,
    reasons: Vec<String>,
    event: &BrowseEvent,
) -> (next: Discovery)
    ensures
        next.deep_view() == discover_via_mdns_model(
            identity.deep_view(),
            reasons.deep_view(),
            event.deep_view(),
        ),
{
    match event {
        BrowseEvent::Resolved { hostname, addresses } => {
            if contains_text(hostname.as_str(), identity.service_hint.as_str()) {
                if addresses.len() == 0 {
                    let ghost before = reasons.deep_view();
                    let mut reasons = reasons;
                    reasons.push(String::from_str("No IP address found"));
                    assert(reasons.deep_view() =~= before.push("No IP address found"@));
                    Discovery::NotFound(device_not_found(&reasons))
                } else {
                    assert(addresses.deep_view()[0] == addresses@[0]@);
                    Discovery::Found(located(identity, addresses[0].as_str()))
                }
            } else {
                Discovery::Browse { reasons }
            }
        },
        BrowseEvent::Other => Discovery::Browse { reasons },
    }
}

/// The final failure once service discovery ended without a device.
pub fn browse_ended(reasons: Vec<String>, end: &BrowseEnd) -> (error: InstallerError)
    ensures
        error.deep_view() == not_found(reasons.deep_view().push(browse_end_reason(end.deep_view()))),
{
    let reason = match end {
        BrowseEnd::DaemonFailed { reason } => {
            let mut text = String::from_str("Failed to start mDNS: ");
            text.append(reason.as_str());
            text
        },
        BrowseEnd::BrowseFailed { reason } => {
            let mut text = String::from_str("Failed to browse: ");
            text.append(reason.as_str());
            text
        },
        BrowseEnd::TimedOut => String::from_str("Move device not found via mDNS"),
    };
    let ghost before = reasons.deep_view();
    let mut reasons = reasons;
    reasons.push(reason);
    assert(reasons.deep_view() =~= before.push(browse_end_reason(end.deep_view())));
    device_not_found(&reasons)
}

/// A device whose name resolves and which answers the probe is found under
/// that name at the address that was probed, and service discovery is never
/// asked for.
pub proof fn lemma_named_device_needs_no_browsing(
    identity: DeviceIdentityModel,
    addresses: Seq<Seq<char>>,
    reached: bool,
)
    requires
        addresses.len() > 0,
    ensures
        discover_move_model(identity, NameLookupModel::Resolved { addresses }) is Probe,
        discover_move_model(identity, NameLookupModel::Resolved { addresses })->Probe_ip
            == addresses[0],
        probe_concluded_model(identity, addresses[0], Ok(reached)) == DiscoveryModel::Found(
            MoveDeviceModel { hostname: identity.local_name, ip: addresses[0] },
        ),
{
}

/// When the name does not resolve, the search goes on by service discovery,
/// and the first matching service with an address is the device.
pub proof fn lemma_unresolved_name_falls_back(
    identity: DeviceIdentityModel,
    reason: Seq<char>,
    hostname: Seq<char>,
    addresses: Seq<Seq<char>>,
)
    requires
        occurs_in(hostname, identity.service_hint),
        addresses.len() > 0,
    ensures
        discover_move_model(identity, NameLookupModel::Failed { reason }) is Browse,
        discover_via_mdns_model(
            identity,
            discover_move_model(identity, NameLookupModel::Failed { reason })->Browse_reasons,
            BrowseEventModel::Resolved { hostname, addresses },
        ) == DiscoveryModel::Found(device_at(identity, addresses[0])),
{
}

/// Browsing stops when the time allowed has run out, and no wait before that
/// reaches past it.
pub proof fn lemma_browsing_is_bounded(elapsed_ms: u64)
    ensures
        elapsed_ms >= BROWSE_BUDGET_MS ==> browse_poll_model(elapsed_ms) is None,
        browse_poll_model(elapsed_ms) matches Some(wait) ==> 0 < wait && elapsed_ms + wait
            <= BROWSE_BUDGET_MS,
{
}

} // verus!
