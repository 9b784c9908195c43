//! The decisions of the adapter client: when a wait for a notification
//! ends, which notifications are logged, which available networks are kept,
//! and how networks and access points are put together.
//!
//! The client itself talks to the platform and to the notification channel.
//! It hands what it received to the functions here and acts on what they
//! return.

use crate::available_network_list::WlanAvailableNetwork;
use crate::bss_entry_list::WlanBssEntry;
use crate::error::WlanError;
use crate::network::{Network, NetworkView};
use crate::utils::{parse_ssid, ssid_text};
use crate::windows_type_wrappers::{MsmNotifcationType, WlanNotificationWrapper};
use vstd::prelude::*;

verus! {

/// What wakes a task that waits for a notification.
#[derive(Debug, Clone, PartialEq, Eq)]
pub enum Wakeup {
    /// The time allowed for the wait is over.
    Elapsed,
    /// The channel delivered a notification.
    Received(WlanNotificationWrapper),
    /// The waiting task fell behind, and the channel dropped this many of
    /// the oldest notifications that it had not read yet.
    Lagged(u64),
    /// The channel is closed.
    Closed,
}

/// How a wait for a notification ends.
#[derive(Debug, Clone, PartialEq, Eq)]
pub enum AwaitOutcome {
    /// A notification of the awaited kind arrived; it is handed on whole.
    Matched(WlanNotificationWrapper),
    /// The time allowed was over first.
    TimedOut,
}

/// What one wake-up decides for a wait for a notification of the kind of
/// `target`: `Ok(Some(..))` is the end of the wait, with one of its two
/// results, and `Ok(None)` lets the wait go on. A delivered notification of
/// another kind lets it go on, and so does a lag: what was dropped is lost to
/// this wait, and the wait is not over. A closed channel is an error, no
/// result of the wait.
pub open spec fn decide(target: WlanNotificationWrapper, wakeup: Wakeup) -> Result<
    Option<AwaitOutcome>,
    WlanError,
> {
    match wakeup {
        Wakeup::Elapsed => Ok(Some(AwaitOutcome::TimedOut)),
        Wakeup::Received(val) => if val.same_kind(target) {
            Ok(Some(AwaitOutcome::Matched(val)))
        } else {
            Ok(None)
        },
        Wakeup::Lagged(_) => Ok(None),
        Wakeup::Closed => Err(WlanError::ChannelClosed),
    }
}

/// How a wait ends that is woken by `wakeups` in order: with what the first
/// of them that ends it decides, and not at all (`Ok(None)`) if none does.
pub open spec fn wait_result(target: WlanNotificationWrapper, wakeups: Seq<Wakeup>) -> Result<
    Option<AwaitOutcome>,
    WlanError,
>
    decreases wakeups.len(),
{
    if wakeups.len() == 0 {
        Ok(None)
    } else {
        match decide(target, wakeups.first()) {
            Ok(None) => wait_result(target, wakeups.drop_first()),
            decided => decided,
        }
    }
}

/// Decides what one wake-up means for a wait for a notification of the kind
/// of `target`: the end of the wait with its result, `Ok(None)` to wait on,
/// or the error of a closed channel.
pub fn await_notification_step(target: &WlanNotificationWrapper, wakeup: Wakeup) -> (decision:
    Result<Option<AwaitOutcome>, WlanError>)
    ensures
        decision == decide(*target, wakeup),
{
    match wakeup {
        Wakeup::Elapsed => Ok(Some(AwaitOutcome::TimedOut)),
        Wakeup::Received(val) => {
            if val.same_kind_as(target) {
                Ok(Some(AwaitOutcome::Matched(val)))
            } else {
                Ok(None)
            }
        },
        Wakeup::Lagged(_) => Ok(None),
        Wakeup::Closed => Err(WlanError::ChannelClosed),
    }
}

/// Whether the wake-up lets a wait for `target` go on: it is a delivered
/// notification of another kind, or a lag.
pub open spec fn passes_by(target: WlanNotificationWrapper, wakeup: Wakeup) -> bool {
    match wakeup {
        Wakeup::Received(val) => !val.same_kind(target),
        Wakeup::Lagged(_) => true,
        _ => false,
    }
}

/// A wait for a notification that never arrives ends when its time is over:
/// if the time elapses at wake-up `at`, and every wake-up before it was a
/// notification of another kind or a lag, the wait times out.
pub proof fn lemma_wait_times_out(target: WlanNotificationWrapper, wakeups: Seq<Wakeup>, at: int)
    requires
        0 <= at < wakeups.len(),
        wakeups[at] is Elapsed,
        forall|i: int| 0 <= i < at ==> passes_by(target, #[trigger] wakeups[i]),
    ensures
        wait_result(target, wakeups) == Ok::<Option<AwaitOutcome>, WlanError>(
            Some(AwaitOutcome::TimedOut),
        ),
    decreases at,
{
    if at > 0 {
        let rest = wakeups.drop_first();
        assert(passes_by(target, wakeups[0]));
        assert forall|i: int| 0 <= i < at - 1 implies passes_by(target, #[trigger] rest[i]) by {
            assert(rest[i] == wakeups[i + 1]);
        }
        lemma_wait_times_out(target, rest, at - 1);
    }
}

/// A wait has two results and no third. It ends with a notification only if
/// that notification was delivered and is of the awaited kind, and it times
/// out only if the time allowed elapsed: a wait without a limit of time
/// never times out. A lag is never the end of a wait.
pub proof fn lemma_wait_results(target: WlanNotificationWrapper, wakeups: Seq<Wakeup>)
    ensures
        wait_result(target, wakeups) matches Ok(Some(AwaitOutcome::Matched(val)))
            ==> val.same_kind(target) && wakeups.contains(Wakeup::Received(val)),
        wait_result(target, wakeups) == Ok::<Option<AwaitOutcome>, WlanError>(
            Some(AwaitOutcome::TimedOut),
        ) ==> wakeups.contains(Wakeup::Elapsed),
        wait_result(target, wakeups) is Err ==> wakeups.contains(Wakeup::Closed)
            && wait_result(target, wakeups) == Err::<Option<AwaitOutcome>, WlanError>(
            WlanError::ChannelClosed,
        ),
    decreases wakeups.len(),
{
    if wakeups.len() > 0 {
        assert(wakeups[0] == wakeups.first());
        match decide(target, wakeups.first()) {
            Ok(None) => {
                let rest = wakeups.drop_first();
                lemma_wait_results(target, rest);
                assert forall|w: Wakeup| rest.contains(w) implies wakeups.contains(w) by {
                    let i = choose|i: int| 0 <= i < rest.len() && rest[i] == w;
                    assert(wakeups[i + 1] == w);
                }
            },
            _ => {},
        }
    }
}

/// The signal quality in percent that a notification reports, if it is a
/// change of signal quality.
pub fn signal_quality_change(notification: &WlanNotificationWrapper) -> (quality: Option<u32>)
    ensures
        quality == match *notification {
            WlanNotificationWrapper::Msm(MsmNotifcationType::SignalQualityChange(v)) => Some(v),
            _ => None,
        },
{
    match notification {
        WlanNotificationWrapper::Msm(MsmNotifcationType::SignalQualityChange(v)) => Some(*v),
        _ => None,
    }
}

/// Whether a notification is written to the log: all are, but for changes
/// of signal quality, which come too often.
pub fn is_logged(notification: &WlanNotificationWrapper) -> (logged: bool)
    ensures
        logged == !(*notification matches WlanNotificationWrapper::Msm(
            MsmNotifcationType::SignalQualityChange(_),
        )),
{
    match notification {
        WlanNotificationWrapper::Msm(MsmNotifcationType::SignalQualityChange(_)) => false,
        _ => true,
    }
}

/// Whether one of the first `n` networks has the name `text`.
pub open spec fn named_before(
    networks: Seq<WlanAvailableNetwork>,
    n: int,
    text: Seq<char>,
) -> bool {
    exists|j: int| 0 <= j < n && ssid_text((#[trigger] networks[j]).ssid) == text
}

/// Whether network `i` is kept: its name is not empty, and no network before
/// it has the same name.
pub open spec fn is_first_named(networks: Seq<WlanAvailableNetwork>, i: int) -> bool {
    ssid_text(networks[i].ssid).len() > 0 && !named_before(
        networks,
        i,
        ssid_text(networks[i].ssid),
    )
}

/// Those of the first `n` networks that are kept, in their order.
pub open spec fn distinct_named(networks: Seq<WlanAvailableNetwork>, n: int) -> Seq<
    WlanAvailableNetwork,
>
    decreases n,
{
    if n <= 0 {
        Seq::empty()
    } else if is_first_named(networks, n - 1) {
        distinct_named(networks, n - 1).push(networks[n - 1])
    } else {
        distinct_named(networks, n - 1)
    }
}

/// Whether one of the texts is `text`.
pub open spec fn among(texts: Seq<String>, text: Seq<char>) -> bool {
    exists|k: int| 0 <= k < texts.len() && (#[trigger] texts[k])@ == text
}

/// Whether one of the texts is `text`.
fn contains_text(seen: &Vec<String>, text: &String) -> (found: bool)
    ensures
        found == among(seen@, text@),
{
    let mut k: usize = 0;
    while k < seen.len()
        invariant
            k <= seen@.len(),
            forall|m: int| 0 <= m < k ==> (#[trigger] seen@[m])@ != text@,
        decreases seen@.len() - k,
    {
        if seen[k] == *text {
            return true;
        }
        k += 1;
    }
    false
}

/// Drops the networks without a name, which are hidden ones, and of the
/// networks with the same name all but the first: the adapter lists a
/// network once more for each profile that is stored for it.
pub fn retain_distinct_named(networks: Vec<WlanAvailableNetwork>) -> (kept: Vec<
    WlanAvailableNetwork,
>)
    requires
        forall|i: int| 0 <= i < networks@.len() ==> (#[trigger] networks@[i]).ssid.length <= 32,
    ensures
        kept@ == distinct_named(networks@, networks@.len() as int),
{
    let mut names: Vec<String> = Vec::new();
    let mut kept: Vec<WlanAvailableNetwork> = Vec::new();
    let mut i: usize = 0;
    while i < networks.len()
        invariant
            i <= networks@.len(),
            forall|j: int| 0 <= j < networks@.len() ==> (#[trigger] networks@[j]).ssid.length <= 32,
            kept@ == distinct_named(networks@, i as int),
            forall|k: int|
                0 <= k < names@.len() ==> named_before(
                    networks@,
                    i as int,
                    (#[trigger] names@[k])@,
                ),
            forall|j: int|
                0 <= j < i && ssid_text((#[trigger] networks@[j]).ssid).len() > 0 ==> among(
                    names@,
                    ssid_text(networks@[j].ssid),
                ),
        decreases networks@.len() - i,
    {
        let network = networks[i];
        let current_ssid = parse_ssid(network.ssid);
        let ghost text = current_ssid@;
        let ghost before = names@;
        let found = contains_text(&names, &current_ssid);
        proof {
            if found {
                let k = choose|k: int| 0 <= k < before.len() && (#[trigger] before[k])@ == text;
                assert(named_before(networks@, i as int, before[k]@));
            }
            if named_before(networks@, i as int, text) && text.len() > 0 {
                let j = choose|j: int|
                    0 <= j < i && ssid_text((#[trigger] networks@[j]).ssid) == text;
                assert(among(before, ssid_text(networks@[j].ssid)));
            }
            assert(found == named_before(networks@, i as int, text) || text.len() == 0);
        }
        if !current_ssid.as_str().is_empty() && !found {
            names.push(current_ssid);
            kept.push(network);
        }
        proof {
            assert forall|k: int| 0 <= k < names@.len() implies named_before(
                networks@,
                i + 1,
                (#[trigger] names@[k])@,
            ) by {
                if k < before.len() {
                    assert(names@[k] == before[k]);
                    assert(named_before(networks@, i as int, before[k]@));
                    let j = choose|j: int|
                        0 <= j < i && ssid_text((#[trigger] networks@[j]).ssid) == before[k]@;
                    assert(0 <= j < i + 1);
                } else {
                    assert(ssid_text(networks@[i as int].ssid) == names@[k]@);
                }
            }
            assert forall|j: int|
                0 <= j < i + 1 && ssid_text((#[trigger] networks@[j]).ssid).len()
                    > 0 implies among(names@, ssid_text(networks@[j].ssid)) by {
                let wanted = ssid_text(networks@[j].ssid);
                if j < i || found {
                    let k = choose|k: int|
                        0 <= k < before.len() && (#[trigger] before[k])@ == wanted;
                    assert(names@[k] == before[k]);
                } else {
                    assert(names@[before.len() as int]@ == wanted);
                }
            }
        }
        i += 1;
    }
    kept
}

/// The kept networks have names, and no two of them the same one.
pub proof fn lemma_distinct_named(networks: Seq<WlanAvailableNetwork>, n: int)
    requires
        0 <= n <= networks.len(),
    ensures
        forall|a: int|
            0 <= a < distinct_named(networks, n).len() ==> ssid_text(
                (#[trigger] distinct_named(networks, n)[a]).ssid,
            ).len() > 0 && named_before(
                networks,
                n,
                ssid_text(distinct_named(networks, n)[a].ssid),
            ),
        forall|a: int, b: int|
            0 <= a < b < distinct_named(networks, n).len() ==> ssid_text(
                (#[trigger] distinct_named(networks, n)[a]).ssid,
            ) != ssid_text((#[trigger] distinct_named(networks, n)[b]).ssid),
    decreases n,
{
    if n > 0 {
        lemma_distinct_named(networks, n - 1);
        let before = distinct_named(networks, n - 1);
        let now = distinct_named(networks, n);
        assert forall|a: int| 0 <= a < now.len() implies ssid_text((#[trigger] now[a]).ssid).len()
            > 0 && named_before(networks, n, ssid_text(now[a].ssid)) by {
            if a < before.len() {
                assert(now[a] == before[a]);
                assert(named_before(networks, n - 1, ssid_text(before[a].ssid)));
                let j = choose|j: int|
                    0 <= j < n - 1 && ssid_text((#[trigger] networks[j]).ssid) == ssid_text(
                        before[a].ssid,
                    );
                assert(0 <= j < n);
            } else {
                assert(now[a] == networks[n - 1]);
            }
        }
        assert forall|a: int, b: int| 0 <= a < b < now.len() implies ssid_text(
            (#[trigger] now[a]).ssid,
        ) != ssid_text((#[trigger] now[b]).ssid) by {
            if b < before.len() {
                assert(now[a] == before[a] && now[b] == before[b]);
            } else {
                assert(now[b] == networks[n - 1]);
                assert(now[a] == before[a]);
                assert(named_before(networks, n - 1, ssid_text(before[a].ssid)));
            }
        }
    }
}

/// The networks that the first `n` access points of `bss_list` give with
/// `network`: one for each access point that carries the network's name.
pub open spec fn matches_of(
    network: WlanAvailableNetwork,
    bss_list: Seq<WlanBssEntry>,
    n: int,
) -> Seq<NetworkView>
    decreases n,
{
    if n <= 0 {
        Seq::empty()
    } else if bss_list[n - 1].ssid.same(&network.ssid) {
        matches_of(network, bss_list, n - 1).push(Network::of(bss_list[n - 1], network))
    } else {
        matches_of(network, bss_list, n - 1)
    }
}

/// The networks that the first `n` of `networks` give with the access
/// points: network by network, the access points of each in their order.
pub open spec fn joined(
    networks: Seq<WlanAvailableNetwork>,
    bss_list: Seq<WlanBssEntry>,
    n: int,
) -> Seq<NetworkView>
    decreases n,
{
    if n <= 0 {
        Seq::empty()
    } else {
        joined(networks, bss_list, n - 1) + matches_of(
            networks[n - 1],
            bss_list,
            bss_list.len() as int,
        )
    }
}

/// The views of a sequence of networks.
pub open spec fn network_views(networks: Seq<Network>) -> Seq<NetworkView> {
    networks.map_values(|network: Network| network@)
}

/// Whether every access point that carries the name of one of the networks
/// can be put together with it.
pub open spec fn all_combinable(
    networks: Seq<WlanAvailableNetwork>,
    bss_list: Seq<WlanBssEntry>,
) -> bool {
    forall|i: int, j: int|
        0 <= i < networks.len() && 0 <= j < bss_list.len() && (#[trigger] bss_list[j]).ssid.same(
            &(#[trigger] networks[i]).ssid,
        ) ==> Network::combinable(bss_list[j], networks[i])
}

/// Whether every access point that carries the name of one of the networks
/// can be put together with it.
pub fn can_retrieve_networks(
    bss_list: &Vec<WlanBssEntry>,
    networks: &Vec<WlanAvailableNetwork>,
) -> (ok: bool)
    ensures
        ok == all_combinable(networks@, bss_list@),
{
    let mut i: usize = 0;
    while i < networks.len()
        invariant
            i <= networks@.len(),
            forall|a: int, b: int|
                0 <= a < i && 0 <= b < bss_list@.len() && (#[trigger] bss_list@[b]).ssid.same(
                    &(#[trigger] networks@[a]).ssid,
                ) ==> Network::combinable(bss_list@[b], networks@[a]),
        decreases networks@.len() - i,
    {
        let mut j: usize = 0;
        while j < bss_list.len()
            invariant
                i < networks@.len(),
                j <= bss_list@.len(),
                forall|b: int|
                    0 <= b < j && (#[trigger] bss_list@[b]).ssid.same(&networks@[i as int].ssid)
                        ==> Network::combinable(bss_list@[b], networks@[i as int]),
            decreases bss_list@.len() - j,
        {
            if bss_list[j].ssid.same_as(&networks[i].ssid) && !Network::can_combine(
                &bss_list[j],
                &networks[i],
            ) {
                return false;
            }
            j += 1;
        }
        i += 1;
    }
    true
}

/// Puts each available network together with each access point that
/// carries its name.
pub fn retrieve_networks(bss_list: &Vec<WlanBssEntry>, networks: &Vec<WlanAvailableNetwork>) -> (
    output_networks: Vec<Network>
)
    requires
        all_combinable(networks@, bss_list@),
    ensures
        network_views(output_networks@) == joined(networks@, bss_list@, networks@.len() as int),
{
    let mut output_networks: Vec<Network> = Vec::new();
    let mut i: usize = 0;
    assert(network_views(output_networks@) =~= Seq::<NetworkView>::empty());
    while i < networks.len()
        invariant
            i <= networks@.len(),
            all_combinable(networks@, bss_list@),
            network_views(output_networks@) == joined(networks@, bss_list@, i as int),
        decreases networks@.len() - i,
    {
        let network = &networks[i];
        let ghost before = network_views(output_networks@);
        let mut j: usize = 0;
        assert(before + matches_of(*network, bss_list@, 0) =~= before);
        while j < bss_list.len()
            invariant
                i < networks@.len(),
                j <= bss_list@.len(),
                *network == networks@[i as int],
                all_combinable(networks@, bss_list@),
                network_views(output_networks@) == before + matches_of(
                    *network,
                    bss_list@,
                    j as int,
                ),
            decreases bss_list@.len() - j,
        {
            let bss = &bss_list[j];
            if network.ssid.same_as(&bss.ssid) {
                assert(bss_list@[j as int].ssid.same(&networks@[i as int].ssid));
                let ghost views = network_views(output_networks@);
                let joined_network = Network::from((bss, network));
                output_networks.push(joined_network);
                assert(network_views(output_networks@) =~= views.push(joined_network@));
                assert(views.push(joined_network@) =~= before + matches_of(
                    *network,
                    bss_list@,
                    j + 1,
                ));
            }
            j += 1;
        }
        i += 1;
    }
    output_networks
}

} // verus!
