//! The offline-mode decision and its two leaf checks.
//!
//! A marker file under the user's home directory forces offline mode; absent
//! the marker, offline is inferred from reachability of a fixed status
//! endpoint. The filesystem is read here through trusted wrappers; the host
//! performs the network probe and hands its outcome back as a plain value.

use vstd::prelude::*;

verus! {

#[verifier::external_type_specification]
#[verifier::external_body]
pub struct ExPathBuf(std::path::PathBuf);

/// Relies on dirs::home_dir to resolve the current user's home directory.
/// The result depends on the environment, so nothing is assumed of it.
#[verifier::external_body]
fn resolve_home_dir() -> Option<std::path::PathBuf> {
    dirs::home_dir()
}

/// Relies on std::path::PathBuf::join to adjoin a relative path to a base
/// path with the platform's separator.
#[verifier::external_body]
fn join_path(base: &std::path::PathBuf, rel: &str) -> std::path::PathBuf {
    base.join(rel)
}

/// Relies on std::path::Path::exists, which reports whether the path points
/// at an existing entity on disk at call time. The result depends on the
/// filesystem, so nothing is assumed of it.
#[verifier::external_body]
fn path_exists(path: &std::path::PathBuf) -> bool {
    path.exists()
}

/// The marker rule on an observation: `None` when no home directory could be
/// resolved, otherwise `Some(e)` where `e` is the existence report for the
/// resolved path. The marker counts as present exactly on `Some(true)`.
pub open spec fn marker_outcome(observed: Option<bool>) -> bool {
    observed == Some(true)
}

/// Reduces what the filesystem reported to the marker answer: present iff
/// a home directory was resolved and the path under it exists; every
/// failure counts as absent.
pub fn marker_verdict(observed: Option<bool>) -> (present: bool)
    ensures
        present == marker_outcome(observed),
{
    match observed {
        Option::Some(exists_on_disk) => exists_on_disk,
        Option::None => false,
    }
}

/// Reports whether `file_path`, taken relative to the current user's home
/// directory, exists on disk. A home directory that cannot be resolved
/// collapses to `false`; no error is surfaced to the caller.
pub fn check_file_exists_in_home_dir(file_path: &str) -> bool {
    let observed: Option<bool> = match resolve_home_dir() {
        Option::Some(home) => {
            let full = join_path(&home, file_path);
            Option::Some(path_exists(&full))
        },
        Option::None => Option::None,
    };
    marker_verdict(observed)
}

/// A failed home-directory resolution always yields an absent marker.
pub proof fn lemma_no_home_no_marker()
    ensures
        !marker_outcome(None::<bool>),
{
}

/// With a home directory resolved, the verdict is exactly the existence
/// report for the resolved path.
pub proof fn lemma_marker_tracks_existence(exists_on_disk: bool)
    ensures
        marker_outcome(Some(exists_on_disk)) == exists_on_disk,
{
}

/// The success class of HTTP status codes.
pub open spec fn status_is_success(status: u16) -> bool {
    200 <= status && status <= 299
}

/// What one HEAD request to an endpoint came to: a response with its status
/// code, or any transport failure — DNS, connection, TLS, timeout, a client
/// that could not be built — collapsed to a single case.
#[derive(Clone, Copy, PartialEq, Eq, Structural, Debug)]
pub enum ProbeOutcome {
    Response { status: u16 },
    TransportFailure,
}

/// Whether a probe outcome counts as "the endpoint is reachable".
pub open spec fn outcome_reachable(outcome: ProbeOutcome) -> bool {
    match outcome {
        ProbeOutcome::Response { status } => status_is_success(status),
        ProbeOutcome::TransportFailure => false,
    }
}

/// Classifies the outcome of a HEAD request: reachable exactly when a
/// response arrived within the timeout and its status lies in the success
/// class; every failure counts as unreachable.
pub fn is_url_accessible(outcome: &ProbeOutcome) -> (reachable: bool)
    ensures
        reachable == outcome_reachable(*outcome),
{
    match outcome {
        ProbeOutcome::Response { status } => 200 <= *status && *status <= 299,
        ProbeOutcome::TransportFailure => false,
    }
}

/// The offline rule: forced offline when the marker is present, otherwise
/// offline exactly when the endpoint is unreachable.
pub open spec fn offline_decision(marker_present: bool, reachable: bool) -> bool {
    marker_present || !reachable
}

/// The first phase of the offline decision, taken before any network traffic.
#[derive(Clone, Copy, PartialEq, Eq, Structural, Debug)]
pub enum OfflineStep {
    /// The marker file is present: offline, and the endpoint is not consulted.
    ForceOffline,
    /// The marker file is absent: the status endpoint decides.
    ProbeEndpoint,
}

/// The step the marker verdict dictates.
pub open spec fn step_for_marker(marker_present: bool) -> OfflineStep {
    if marker_present {
        OfflineStep::ForceOffline
    } else {
        OfflineStep::ProbeEndpoint
    }
}

/// Decides from the marker verdict whether the endpoint must be consulted.
pub fn offline_step(marker_present: bool) -> (step: OfflineStep)
    ensures
        step == step_for_marker(marker_present),
{
    if marker_present {
        OfflineStep::ForceOffline
    } else {
        OfflineStep::ProbeEndpoint
    }
}

/// The marker file, relative to the home directory, whose mere existence
/// forces offline mode. Managed by an external operator, never written here.
pub fn marker_relative_path() -> (rel: &'static str)
    ensures
        rel@ == ".ctool.tauri_use_local_file.lock"@,
{
    ".ctool.tauri_use_local_file.lock"
}

/// First phase of the offline-mode command: checks the marker file under the
/// home directory and says whether the status endpoint still needs to be
/// consulted. With the marker present no network traffic is called for.
pub fn ctool_is_use_offline_step() -> OfflineStep {
    let marker_present = check_file_exists_in_home_dir(marker_relative_path());
    offline_step(marker_present)
}

/// Second phase, for a run whose first phase asked for a probe: offline
/// exactly when the endpoint turned out unreachable.
pub fn offline_from_probe(outcome: &ProbeOutcome) -> (offline: bool)
    ensures
        offline == offline_decision(false, outcome_reachable(*outcome)),
{
    !is_url_accessible(outcome)
}

/// The full offline rule on observed facts, for a caller with both in hand.
pub fn decide_offline(marker_present: bool, reachable: bool) -> (offline: bool)
    ensures
        offline == offline_decision(marker_present, reachable),
{
    marker_present || !reachable
}

/// The URL whose reachability stands for "online": probed with a HEAD
/// request under a three-second timeout.
pub fn status_endpoint_url() -> (url: &'static str)
    ensures
        url@ == "https://ctool.dev/_status.html"@,
{
    "https://ctool.dev/_status.html"
}

/// The timeout, in seconds, granted to the whole probe request.
pub fn probe_timeout_secs() -> (secs: u64)
    ensures
        secs == 3,
{
    3
}

/// Marker precedence: with the marker present the decision is offline
/// whatever the network would have said, and the first phase never asks for
/// a probe.
pub proof fn lemma_marker_precedence(reachable: bool)
    ensures
        offline_decision(true, reachable),
        step_for_marker(true) == OfflineStep::ForceOffline,
{
}

/// Fallback: with the marker absent the decision tracks reachability exactly,
/// and the first phase always asks for a probe.
pub proof fn lemma_fallback_tracks_reachability(reachable: bool)
    ensures
        offline_decision(false, reachable) == !reachable,
        step_for_marker(false) == OfflineStep::ProbeEndpoint,
{
}

/// The decision is a function of the observed marker and reachability alone:
/// two evaluations on equal observations agree.
pub proof fn lemma_decision_repeatable(
    marker_a: bool,
    reachable_a: bool,
    marker_b: bool,
    reachable_b: bool,
)
    requires
        marker_a == marker_b,
        reachable_a == reachable_b,
    ensures
        offline_decision(marker_a, reachable_a) == offline_decision(marker_b, reachable_b),
{
}

} // verus!
