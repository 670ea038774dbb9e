//! Autoswitch decision given the OS endpoint list: which endpoints count as available
//! under the current headset presence, and which rule actions are still needed.

use vstd::hash_set::StringHashSet;
use vstd::prelude::*;

use crate::models::{
    action_view, actions_view, AppConfig, AudioEndpoint, DecisionAction, EndpointFlow,
    EndpointState, SwitchDecision,
};
use crate::rules::{decide_switch, spec_switch_actions, spec_switch_reason};
use crate::text::{push_str, str_eq};

verus! {

// ---------------------------------------------------------------------------------------
// Specification
// ---------------------------------------------------------------------------------------

/// An endpoint is available when it is Active and, for presence-tracked devices
/// (SteelSeries dongles), unless the headset is positively known to be disconnected.
/// When the connection state is unknown, tracked devices stay available so the rules
/// never switch away from a headset just because HID has not reported yet.
pub open spec fn endpoint_available(e: AudioEndpoint, headset_connected: bool, has_status: bool) -> bool {
    e.state == EndpointState::Active && !(e.is_presence_tracked && has_status && !headset_connected)
}

/// Ids of the available endpoints of one flow among the first `n` endpoints.
pub open spec fn available_upto(
    endpoints: Seq<AudioEndpoint>,
    flow: EndpointFlow,
    headset_connected: bool,
    has_status: bool,
    n: int,
) -> Set<Seq<char>> {
    Set::new(
        |id: Seq<char>|
            exists|i: int|
                0 <= i < n && i < endpoints.len() && endpoint_available(
                    #[trigger] endpoints[i],
                    headset_connected,
                    has_status,
                ) && endpoints[i].flow == flow && endpoints[i].id@ == id,
    )
}

/// Ids of the available endpoints of one flow.
pub open spec fn available_set(
    endpoints: Seq<AudioEndpoint>,
    flow: EndpointFlow,
    headset_connected: bool,
    has_status: bool,
) -> Set<Seq<char>> {
    available_upto(endpoints, flow, headset_connected, has_status, endpoints.len() as int)
}

/// Index of the first endpoint at or after `i` with the given id and flow.
pub open spec fn first_endpoint_from(
    endpoints: Seq<AudioEndpoint>,
    id: Seq<char>,
    flow: EndpointFlow,
    i: int,
) -> Option<int>
    decreases endpoints.len() - i,
{
    if i < 0 || i >= endpoints.len() {
        None
    } else if endpoints[i].id@ == id && endpoints[i].flow == flow {
        Some(i)
    } else {
        first_endpoint_from(endpoints, id, flow, i + 1)
    }
}

/// The endpoint with this id and flow is already the default for the console,
/// multimedia and communications roles (judged by its first occurrence).
pub open spec fn spec_is_default_for_all_roles(
    endpoints: Seq<AudioEndpoint>,
    id: Seq<char>,
    flow: EndpointFlow,
) -> bool {
    match first_endpoint_from(endpoints, id, flow, 0) {
        Some(i) => endpoints[i].is_default_console && endpoints[i].is_default_multimedia
            && endpoints[i].is_default_communications,
        None => false,
    }
}

/// The actions that are still needed: those whose endpoint is not already the default
/// for all roles, in the order they had.
pub open spec fn retain_needed(
    endpoints: Seq<AudioEndpoint>,
    actions: Seq<(EndpointFlow, Seq<char>)>,
) -> Seq<(EndpointFlow, Seq<char>)>
    decreases actions.len(),
{
    if actions.len() == 0 {
        Seq::empty()
    } else {
        let prev = retain_needed(endpoints, actions.drop_last());
        if spec_is_default_for_all_roles(endpoints, actions.last().1, actions.last().0) {
            prev
        } else {
            prev.push(actions.last())
        }
    }
}

/// The actions of the decision for the current endpoints and presence.
pub open spec fn spec_current_actions(
    config: AppConfig,
    endpoints: Seq<AudioEndpoint>,
    headset_connected: bool,
    has_status: bool,
) -> Seq<(EndpointFlow, Seq<char>)> {
    retain_needed(
        endpoints,
        spec_switch_actions(
            config,
            available_set(endpoints, EndpointFlow::Render, headset_connected, has_status),
            available_set(endpoints, EndpointFlow::Capture, headset_connected, has_status),
        ),
    )
}

/// The reason of the decision for the current endpoints and presence: the rules'
/// reason, with `; already default` appended when every action was already in force.
pub open spec fn spec_current_reason(
    config: AppConfig,
    endpoints: Seq<AudioEndpoint>,
    headset_connected: bool,
    has_status: bool,
) -> Seq<char> {
    let render = available_set(endpoints, EndpointFlow::Render, headset_connected, has_status);
    let capture = available_set(endpoints, EndpointFlow::Capture, headset_connected, has_status);
    let reason = spec_switch_reason(config, render, capture);
    if spec_switch_actions(config, render, capture).len() > 0 && spec_current_actions(
        config,
        endpoints,
        headset_connected,
        has_status,
    ).len() == 0 {
        reason + "; already default"@
    } else {
        reason
    }
}

// ---------------------------------------------------------------------------------------
// Executable decision
// ---------------------------------------------------------------------------------------

/// The ids of the available render and capture endpoints.
pub fn available_ids(endpoints: &[AudioEndpoint], headset_connected: bool, has_status: bool) -> (r: (
    StringHashSet,
    StringHashSet,
))
    ensures
        r.0@ == available_set(endpoints@, EndpointFlow::Render, headset_connected, has_status),
        r.1@ == available_set(endpoints@, EndpointFlow::Capture, headset_connected, has_status),
{
    let mut render = StringHashSet::new();
    let mut capture = StringHashSet::new();
    let mut i: usize = 0;
    assert(render@ =~= available_upto(
        endpoints@,
        EndpointFlow::Render,
        headset_connected,
        has_status,
        0,
    ));
    assert(capture@ =~= available_upto(
        endpoints@,
        EndpointFlow::Capture,
        headset_connected,
        has_status,
        0,
    ));
    while i < endpoints.len()
        invariant
            i <= endpoints@.len(),
            render@ == available_upto(
                endpoints@,
                EndpointFlow::Render,
                headset_connected,
                has_status,
                i as int,
            ),
            capture@ == available_upto(
                endpoints@,
                EndpointFlow::Capture,
                headset_connected,
                has_status,
                i as int,
            ),
        decreases endpoints@.len() - i,
    {
        let endpoint = &endpoints[i];
        let available = endpoint.state == EndpointState::Active && !(endpoint.is_presence_tracked
            && has_status && !headset_connected);
        let ghost old_render = render@;
        let ghost old_capture = capture@;
        if available {
            match endpoint.flow {
                EndpointFlow::Render => {
                    render.insert(endpoint.id.clone());
                },
                EndpointFlow::Capture => {
                    capture.insert(endpoint.id.clone());
                },
            }
        }
        proof {
            let next = (i + 1) as int;
            assert forall|id: Seq<char>|
                available_upto(
                    endpoints@,
                    EndpointFlow::Render,
                    headset_connected,
                    has_status,
                    next,
                ).contains(id) <==> render@.contains(id) by {
                if available_upto(
                    endpoints@,
                    EndpointFlow::Render,
                    headset_connected,
                    has_status,
                    next,
                ).contains(id) {
                    let k = choose|k: int|
                        0 <= k < next && k < endpoints@.len() && endpoint_available(
                            #[trigger] endpoints@[k],
                            headset_connected,
                            has_status,
                        ) && endpoints@[k].flow == EndpointFlow::Render && endpoints@[k].id@ == id;
                    if k < i {
                        assert(old_render.contains(id));
                    }
                }
                if render@.contains(id) && !old_render.contains(id) {
                    assert(endpoints@[i as int].id@ == id);
                }
                if old_render.contains(id) {
                    let k = choose|k: int|
                        0 <= k < i && k < endpoints@.len() && endpoint_available(
                            #[trigger] endpoints@[k],
                            headset_connected,
                            has_status,
                        ) && endpoints@[k].flow == EndpointFlow::Render && endpoints@[k].id@ == id;
                    assert(k < next);
                }
            }
            assert forall|id: Seq<char>|
                available_upto(
                    endpoints@,
                    EndpointFlow::Capture,
                    headset_connected,
                    has_status,
                    next,
                ).contains(id) <==> capture@.contains(id) by {
                if available_upto(
                    endpoints@,
                    EndpointFlow::Capture,
                    headset_connected,
                    has_status,
                    next,
                ).contains(id) {
                    let k = choose|k: int|
                        0 <= k < next && k < endpoints@.len() && endpoint_available(
                            #[trigger] endpoints@[k],
                            headset_connected,
                            has_status,
                        ) && endpoints@[k].flow == EndpointFlow::Capture && endpoints@[k].id@ == id;
                    if k < i {
                        assert(old_capture.contains(id));
                    }
                }
                if capture@.contains(id) && !old_capture.contains(id) {
                    assert(endpoints@[i as int].id@ == id);
                }
                if old_capture.contains(id) {
                    let k = choose|k: int|
                        0 <= k < i && k < endpoints@.len() && endpoint_available(
                            #[trigger] endpoints@[k],
                            headset_connected,
                            has_status,
                        ) && endpoints@[k].flow == EndpointFlow::Capture && endpoints@[k].id@ == id;
                    assert(k < next);
                }
            }
            assert(render@ =~= available_upto(
                endpoints@,
                EndpointFlow::Render,
                headset_connected,
                has_status,
                next,
            ));
            assert(capture@ =~= available_upto(
                endpoints@,
                EndpointFlow::Capture,
                headset_connected,
                has_status,
                next,
            ));
        }
        i = i + 1;
    }
    (render, capture)
}

/// Whether the first endpoint with this id and flow is already the default for all
/// three roles.
pub fn is_default_for_all_roles(endpoints: &[AudioEndpoint], endpoint_id: &str, flow: EndpointFlow) -> (r:
    bool)
    ensures
        r == spec_is_default_for_all_roles(endpoints@, endpoint_id@, flow),
{
    let mut i: usize = 0;
    while i < endpoints.len()
        invariant
            i <= endpoints@.len(),
            first_endpoint_from(endpoints@, endpoint_id@, flow, 0) == first_endpoint_from(
                endpoints@,
                endpoint_id@,
                flow,
                i as int,
            ),
        decreases endpoints@.len() - i,
    {
        let endpoint = &endpoints[i];
        if str_eq(endpoint.id.as_str(), endpoint_id) && endpoint.flow == flow {
            return endpoint.is_default_console && endpoint.is_default_multimedia
                && endpoint.is_default_communications;
        }
        i = i + 1;
    }
    false
}

/// A copy of a decision action.
fn clone_action(action: &DecisionAction) -> (r: DecisionAction)
    ensures
        action_view(r) == action_view(*action),
{
    match action {
        DecisionAction::SetRenderDefault { endpoint_id } => DecisionAction::SetRenderDefault {
            endpoint_id: endpoint_id.clone(),
        },
        DecisionAction::SetCaptureDefault { endpoint_id } => DecisionAction::SetCaptureDefault {
            endpoint_id: endpoint_id.clone(),
        },
    }
}

/// Run the priority rules against the endpoints that are available under the given
/// presence, and keep only the actions that are not already in force.
pub fn decide_for_endpoints(
    config: &AppConfig,
    endpoints: &[AudioEndpoint],
    headset_connected: bool,
    has_status: bool,
) -> (d: SwitchDecision)
    ensures
        actions_view(d.actions@) == spec_current_actions(
            *config,
            endpoints@,
            headset_connected,
            has_status,
        ),
        d.reason@ == spec_current_reason(*config, endpoints@, headset_connected, has_status),
{
    let (render, capture) = available_ids(endpoints, headset_connected, has_status);
    let decision = decide_switch(config, &render, &capture);
    let ghost all = actions_view(decision.actions@);
    let proposed_count = decision.actions.len();
    let mut kept: Vec<DecisionAction> = Vec::new();
    let mut i: usize = 0;
    while i < decision.actions.len()
        invariant
            i <= decision.actions@.len(),
            all == actions_view(decision.actions@),
            actions_view(kept@) == retain_needed(endpoints@, all.subrange(0, i as int)),
        decreases decision.actions@.len() - i,
    {
        let action = &decision.actions[i];
        let (id, flow) = match action {
            DecisionAction::SetRenderDefault { endpoint_id } => (endpoint_id, EndpointFlow::Render),
            DecisionAction::SetCaptureDefault { endpoint_id } => (
                endpoint_id,
                EndpointFlow::Capture,
            ),
        };
        let ghost before = kept@;
        if !is_default_for_all_roles(endpoints, id.as_str(), flow) {
            kept.push(clone_action(action));
            assert(actions_view(kept@) =~= actions_view(before).push(action_view(*action)));
        }
        proof {
            let prefix = all.subrange(0, i + 1);
            assert(prefix.drop_last() =~= all.subrange(0, i as int));
            assert(prefix.last() == action_view(decision.actions@[i as int]));
        }
        i = i + 1;
    }
    assert(all.subrange(0, all.len() as int) =~= all);
    let mut reason = decision.reason;
    if proposed_count > 0 && kept.len() == 0 {
        push_str(&mut reason, "; already default");
    }
    SwitchDecision { reason, actions: kept }
}

// ---------------------------------------------------------------------------------------
// Laws
// ---------------------------------------------------------------------------------------

/// While the headset's connection state is unknown, an active presence-tracked endpoint
/// stays available: the rules never switch away from a headset just because HID has not
/// reported yet. Once the headset is known to be off, a tracked endpoint is never
/// available, whatever its OS state.
pub proof fn law_presence_gates_tracked_endpoints(
    endpoints: Seq<AudioEndpoint>,
    i: int,
    headset_connected: bool,
    has_status: bool,
)
    requires
        0 <= i < endpoints.len(),
        endpoints[i].is_presence_tracked,
    ensures
        !has_status && endpoints[i].state == EndpointState::Active ==> available_set(
            endpoints,
            endpoints[i].flow,
            headset_connected,
            has_status,
        ).contains(endpoints[i].id@),
        has_status && !headset_connected ==> !endpoint_available(
            endpoints[i],
            headset_connected,
            has_status,
        ),
{
}

/// An endpoint that is not Active is never available.
pub proof fn law_inactive_endpoints_are_unavailable(
    e: AudioEndpoint,
    headset_connected: bool,
    has_status: bool,
)
    requires
        e.state != EndpointState::Active,
    ensures
        !endpoint_available(e, headset_connected, has_status),
{
}

/// Every action that remains asks for an endpoint that is not yet the default for all
/// roles, and it was asked for by the rules.
pub proof fn law_kept_actions_are_needed(
    endpoints: Seq<AudioEndpoint>,
    actions: Seq<(EndpointFlow, Seq<char>)>,
    k: int,
)
    requires
        0 <= k < retain_needed(endpoints, actions).len(),
    ensures
        !spec_is_default_for_all_roles(
            endpoints,
            retain_needed(endpoints, actions)[k].1,
            retain_needed(endpoints, actions)[k].0,
        ),
        actions.contains(retain_needed(endpoints, actions)[k]),
    decreases actions.len(),
{
    let prev = retain_needed(endpoints, actions.drop_last());
    if k < prev.len() {
        law_kept_actions_are_needed(endpoints, actions.drop_last(), k);
        let j = choose|j: int| 0 <= j < actions.drop_last().len() && actions.drop_last()[j] == prev[k];
        assert(actions[j] == prev[k]);
    } else {
        assert(actions[actions.len() - 1] == actions.last());
    }
}

/// The endpoint [`first_endpoint_from`] finds matches the id and flow, and none before
/// it (from `i` on) does.
proof fn lemma_first_endpoint(endpoints: Seq<AudioEndpoint>, id: Seq<char>, flow: EndpointFlow, i: int)
    requires
        0 <= i,
    ensures
        match first_endpoint_from(endpoints, id, flow, i) {
            Some(j) => i <= j < endpoints.len() && endpoints[j].id@ == id && endpoints[j].flow
                == flow,
            None => forall|k: int|
                i <= k < endpoints.len() ==> !(#[trigger] endpoints[k].id@ == id
                    && endpoints[k].flow == flow),
        },
    decreases endpoints.len() - i,
{
    if i < endpoints.len() && !(endpoints[i].id@ == id && endpoints[i].flow == flow) {
        lemma_first_endpoint(endpoints, id, flow, i + 1);
    }
}

/// An endpoint counts as already default only when a device with its id and flow holds
/// all three roles (console, multimedia and communications); when no such device holds
/// both the console and the multimedia role, it never counts as default.
pub proof fn law_default_means_all_three_roles(
    endpoints: Seq<AudioEndpoint>,
    id: Seq<char>,
    flow: EndpointFlow,
)
    ensures
        spec_is_default_for_all_roles(endpoints, id, flow) ==> exists|i: int|
            0 <= i < endpoints.len() && (#[trigger] endpoints[i]).id@ == id && endpoints[i].flow
                == flow && endpoints[i].is_default_console && endpoints[i].is_default_multimedia
                && endpoints[i].is_default_communications,
        (forall|i: int|
            0 <= i < endpoints.len() && (#[trigger] endpoints[i]).id@ == id && endpoints[i].flow
                == flow ==> !(endpoints[i].is_default_console && endpoints[i].is_default_multimedia))
            ==> !spec_is_default_for_all_roles(endpoints, id, flow),
{
    lemma_first_endpoint(endpoints, id, flow, 0);
    if spec_is_default_for_all_roles(endpoints, id, flow) {
        let j = first_endpoint_from(endpoints, id, flow, 0).unwrap();
        assert(endpoints[j].id@ == id);
    }
}

/// An action that is asked for and whose endpoint is not the default for all three roles
/// stays among the retained actions.
proof fn lemma_needed_action_is_retained(
    endpoints: Seq<AudioEndpoint>,
    actions: Seq<(EndpointFlow, Seq<char>)>,
    a: (EndpointFlow, Seq<char>),
)
    requires
        actions.contains(a),
        !spec_is_default_for_all_roles(endpoints, a.1, a.0),
    ensures
        retain_needed(endpoints, actions).contains(a),
    decreases actions.len(),
{
    let prev = retain_needed(endpoints, actions.drop_last());
    if actions.last() == a {
        assert(retain_needed(endpoints, actions) == prev.push(a));
        assert(retain_needed(endpoints, actions)[prev.len() as int] == a);
    } else {
        let j = choose|j: int| 0 <= j < actions.len() && actions[j] == a;
        assert(j < actions.len() - 1);
        assert(actions.drop_last()[j] == a);
        lemma_needed_action_is_retained(endpoints, actions.drop_last(), a);
        let k = choose|k: int| 0 <= k < prev.len() && prev[k] == a;
        if spec_is_default_for_all_roles(endpoints, actions.last().1, actions.last().0) {
            assert(retain_needed(endpoints, actions)[k] == a);
        } else {
            assert(retain_needed(endpoints, actions) == prev.push(actions.last()));
            assert(retain_needed(endpoints, actions)[k] == a);
        }
    }
}

/// Every action the priority rules ask for is kept in the decision unless a device with
/// that id and flow is already the default for all three roles: an endpoint that is,
/// say, only the communications default is still switched to.
pub proof fn law_needed_actions_are_kept(
    config: AppConfig,
    endpoints: Seq<AudioEndpoint>,
    headset_connected: bool,
    has_status: bool,
    a: (EndpointFlow, Seq<char>),
)
    requires
        spec_switch_actions(
            config,
            available_set(endpoints, EndpointFlow::Render, headset_connected, has_status),
            available_set(endpoints, EndpointFlow::Capture, headset_connected, has_status),
        ).contains(a),
        forall|i: int|
            0 <= i < endpoints.len() && (#[trigger] endpoints[i]).id@ == a.1 && endpoints[i].flow
                == a.0 ==> !(endpoints[i].is_default_console && endpoints[i].is_default_multimedia
                && endpoints[i].is_default_communications),
    ensures
        spec_current_actions(config, endpoints, headset_connected, has_status).contains(a),
{
    law_default_means_all_three_roles(endpoints, a.1, a.0);
    lemma_needed_action_is_retained(
        endpoints,
        spec_switch_actions(
            config,
            available_set(endpoints, EndpointFlow::Render, headset_connected, has_status),
            available_set(endpoints, EndpointFlow::Capture, headset_connected, has_status),
        ),
        a,
    );
}

} // verus!
