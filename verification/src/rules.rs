//! The autoswitch priority rules: pick, for each flow, the highest-priority device of
//! the user's list that is available and not excluded.

use vstd::hash_set::StringHashSet;
use vstd::prelude::*;

use crate::models::{
    action_view, actions_view, AppConfig, DecisionAction, DevicePref, EndpointFlow, FlowConfig,
    SwitchDecision,
};
use crate::text::push_str;

verus! {

// ---------------------------------------------------------------------------------------
// Specification
// ---------------------------------------------------------------------------------------

/// A priority entry may be selected: it is not excluded and its endpoint is available.
pub open spec fn eligible(pref: DevicePref, available: Set<Seq<char>>) -> bool {
    !pref.excluded && available.contains(pref.id@)
}

/// Index of the first eligible entry at or after `i`.
pub open spec fn first_eligible_from(
    prefs: Seq<DevicePref>,
    available: Set<Seq<char>>,
    i: int,
) -> Option<int>
    decreases prefs.len() - i,
{
    if i < 0 || i >= prefs.len() {
        None
    } else if eligible(prefs[i], available) {
        Some(i)
    } else {
        first_eligible_from(prefs, available, i + 1)
    }
}

/// The first non-excluded entry, in priority order, whose endpoint is available.
pub open spec fn spec_top_available(flow: FlowConfig, available: Set<Seq<char>>) -> Option<
    DevicePref,
> {
    match first_eligible_from(flow.priorities@, available, 0) {
        Some(i) => Some(flow.priorities@[i]),
        None => None,
    }
}

/// The action (at most one) a flow contributes.
pub open spec fn flow_action(
    flow: EndpointFlow,
    config: FlowConfig,
    available: Set<Seq<char>>,
) -> Seq<(EndpointFlow, Seq<char>)> {
    match spec_top_available(config, available) {
        Some(p) => seq![(flow, p.id@)],
        None => Seq::empty(),
    }
}

/// The actions of a switch decision: output first, then input; none when disabled.
pub open spec fn spec_switch_actions(
    config: AppConfig,
    render: Set<Seq<char>>,
    capture: Set<Seq<char>>,
) -> Seq<(EndpointFlow, Seq<char>)> {
    if !config.autoswitch_enabled {
        Seq::empty()
    } else {
        flow_action(EndpointFlow::Render, config.output, render) + flow_action(
            EndpointFlow::Capture,
            config.input,
            capture,
        )
    }
}

/// The phrase a flow contributes to the reason, e.g. `output -> Speakers`, where
/// `prefix` is `output -> ` or `input -> `.
pub open spec fn chosen_phrase(prefix: Seq<char>, top: Option<DevicePref>) -> Option<Seq<char>> {
    match top {
        Some(p) => Some(prefix + p.name@),
        None => None,
    }
}

/// The chosen phrases joined by `, `.
pub open spec fn join_chosen(output: Option<Seq<char>>, input: Option<Seq<char>>) -> Seq<char> {
    match (output, input) {
        (Some(o), Some(i)) => o + ", "@ + i,
        (Some(o), None) => o,
        (None, Some(i)) => i,
        (None, None) => Seq::empty(),
    }
}

/// The human-readable reason of a switch decision.
pub open spec fn spec_switch_reason(
    config: AppConfig,
    render: Set<Seq<char>>,
    capture: Set<Seq<char>>,
) -> Seq<char> {
    if !config.autoswitch_enabled {
        "Autoswitching is disabled"@
    } else {
        let output = chosen_phrase("output -> "@, spec_top_available(config.output, render));
        let input = chosen_phrase("input -> "@, spec_top_available(config.input, capture));
        if output is None && input is None {
            "No available device matched the priority lists"@
        } else {
            "Selected highest-priority available device ("@ + join_chosen(output, input) + ")"@
        }
    }
}

// ---------------------------------------------------------------------------------------
// Executable rules
// ---------------------------------------------------------------------------------------

/// Decide which endpoints should become default for output and input, given which
/// endpoint ids are available for each flow.
pub fn decide_switch(
    config: &AppConfig,
    available_render: &StringHashSet,
    available_capture: &StringHashSet,
) -> (d: SwitchDecision)
    ensures
        actions_view(d.actions@) == spec_switch_actions(
            *config,
            available_render@,
            available_capture@,
        ),
        d.reason@ == spec_switch_reason(*config, available_render@, available_capture@),
{
    if !config.autoswitch_enabled {
        let actions: Vec<DecisionAction> = Vec::new();
        assert(actions_view(actions@) =~= Seq::empty());
        return SwitchDecision { reason: "Autoswitching is disabled".to_owned(), actions };
    }
    let mut actions: Vec<DecisionAction> = Vec::new();
    let mut output_phrase: Option<String> = None;
    let mut input_phrase: Option<String> = None;

    match top_available(&config.output, available_render) {
        Some(pref) => {
            actions.push(DecisionAction::SetRenderDefault { endpoint_id: pref.id.clone() });
            let mut phrase = "output -> ".to_owned();
            push_str(&mut phrase, pref.name.as_str());
            output_phrase = Some(phrase);
        },
        None => {},
    }
    let ghost after_output = actions@;
    assert(actions_view(after_output) =~= flow_action(
        EndpointFlow::Render,
        config.output,
        available_render@,
    ));

    match top_available(&config.input, available_capture) {
        Some(pref) => {
            actions.push(DecisionAction::SetCaptureDefault { endpoint_id: pref.id.clone() });
            let mut phrase = "input -> ".to_owned();
            push_str(&mut phrase, pref.name.as_str());
            input_phrase = Some(phrase);
        },
        None => {},
    }
    assert(actions_view(actions@) =~= actions_view(after_output) + flow_action(
        EndpointFlow::Capture,
        config.input,
        available_capture@,
    ));

    let ghost gout = chosen_phrase(
        "output -> "@,
        spec_top_available(config.output, available_render@),
    );
    let ghost gin = chosen_phrase("input -> "@, spec_top_available(config.input, available_capture@));
    assert(output_phrase is Some <==> gout is Some);
    assert(output_phrase matches Some(o) ==> o@ == gout.unwrap());
    assert(input_phrase is Some <==> gin is Some);
    assert(input_phrase matches Some(i) ==> i@ == gin.unwrap());
    let reason = match (output_phrase, input_phrase) {
        (None, None) => "No available device matched the priority lists".to_owned(),
        (output, input) => {
            let mut reason = "Selected highest-priority available device (".to_owned();
            match output {
                Some(o) => {
                    push_str(&mut reason, o.as_str());
                    match input {
                        Some(i) => {
                            push_str(&mut reason, ", ");
                            push_str(&mut reason, i.as_str());
                        },
                        None => {},
                    }
                },
                None => match input {
                    Some(i) => push_str(&mut reason, i.as_str()),
                    None => {},
                },
            }
            assert(reason@ =~= "Selected highest-priority available device ("@ + join_chosen(
                gout,
                gin,
            ));
            push_str(&mut reason, ")");
            reason
        },
    };
    SwitchDecision { reason, actions }
}

/// First non-excluded entry, in priority order, whose endpoint is currently available.
fn top_available<'a>(flow: &'a FlowConfig, available: &StringHashSet) -> (r: Option<&'a DevicePref>)
    ensures
        r matches Some(p) ==> spec_top_available(*flow, available@) == Some(*p),
        r is None ==> spec_top_available(*flow, available@) is None,
{
    let mut i: usize = 0;
    while i < flow.priorities.len()
        invariant
            i <= flow.priorities@.len(),
            first_eligible_from(flow.priorities@, available@, 0) == first_eligible_from(
                flow.priorities@,
                available@,
                i as int,
            ),
        decreases flow.priorities@.len() - i,
    {
        let pref = &flow.priorities[i];
        if !pref.excluded && available.contains(pref.id.as_str()) {
            return Some(pref);
        }
        i = i + 1;
    }
    None
}

/// Which flow a decision action applies to.
pub fn flow_for_action(action: &DecisionAction) -> (flow: EndpointFlow)
    ensures
        flow == action_view(*action).0,
{
    match action {
        DecisionAction::SetRenderDefault { .. } => EndpointFlow::Render,
        DecisionAction::SetCaptureDefault { .. } => EndpointFlow::Capture,
    }
}

// ---------------------------------------------------------------------------------------
// Laws
// ---------------------------------------------------------------------------------------

/// With autoswitching disabled the rules never ask for a change, whatever is available.
pub proof fn law_disabled_autoswitch_has_no_actions(
    config: AppConfig,
    render: Set<Seq<char>>,
    capture: Set<Seq<char>>,
)
    requires
        !config.autoswitch_enabled,
    ensures
        spec_switch_actions(config, render, capture).len() == 0,
{
}

/// The first eligible entry found from `i` is eligible, lies at or after `i`, and no
/// entry between `i` and it is eligible; when none is found, no entry from `i` on is.
proof fn lemma_first_eligible(prefs: Seq<DevicePref>, available: Set<Seq<char>>, i: int)
    requires
        0 <= i <= prefs.len(),
    ensures
        first_eligible_from(prefs, available, i) matches Some(k) ==> {
            &&& i <= k < prefs.len()
            &&& eligible(prefs[k], available)
            &&& forall|j: int| i <= j < k ==> !eligible(#[trigger] prefs[j], available)
        },
        first_eligible_from(prefs, available, i) is None ==> forall|j: int|
            i <= j < prefs.len() ==> !eligible(#[trigger] prefs[j], available),
    decreases prefs.len() - i,
{
    if i < prefs.len() && !eligible(prefs[i], available) {
        lemma_first_eligible(prefs, available, i + 1);
    }
}

/// The device chosen for a flow is the highest-priority entry that is both available
/// and not excluded: it is in the list, it is available, it is not excluded, and every
/// entry ranked above it is unavailable or excluded. When nothing is chosen, no entry
/// of the list is both available and not excluded.
pub proof fn law_choice_is_highest_priority_available(flow: FlowConfig, available: Set<Seq<char>>)
    ensures
        spec_top_available(flow, available) matches Some(p) ==> exists|k: int|
            0 <= k < flow.priorities@.len() && #[trigger] flow.priorities@[k] == p && !p.excluded
                && available.contains(p.id@) && forall|j: int|
                0 <= j < k ==> !eligible(#[trigger] flow.priorities@[j], available),
        spec_top_available(flow, available) is None ==> forall|j: int|
            0 <= j < flow.priorities@.len() ==> !eligible(#[trigger] flow.priorities@[j], available),
{
    lemma_first_eligible(flow.priorities@, available, 0);
    if let Some(k) = first_eligible_from(flow.priorities@, available, 0) {
        assert(flow.priorities@[k] == spec_top_available(flow, available).unwrap());
    }
}

/// An excluded device is never the target of an action, even when it is available:
/// every action names an available endpoint that a non-excluded entry of its flow's
/// priority list holds.
pub proof fn law_excluded_devices_are_never_selected(
    config: AppConfig,
    render: Set<Seq<char>>,
    capture: Set<Seq<char>>,
    i: int,
)
    requires
        0 <= i < spec_switch_actions(config, render, capture).len(),
    ensures
        spec_switch_actions(config, render, capture)[i].0 == EndpointFlow::Render ==> {
            &&& render.contains(spec_switch_actions(config, render, capture)[i].1)
            &&& exists|k: int|
                0 <= k < config.output.priorities@.len() && (
                #[trigger] config.output.priorities@[k]).id@ == spec_switch_actions(
                    config,
                    render,
                    capture,
                )[i].1 && !config.output.priorities@[k].excluded
        },
        spec_switch_actions(config, render, capture)[i].0 == EndpointFlow::Capture ==> {
            &&& capture.contains(spec_switch_actions(config, render, capture)[i].1)
            &&& exists|k: int|
                0 <= k < config.input.priorities@.len() && (
                #[trigger] config.input.priorities@[k]).id@ == spec_switch_actions(
                    config,
                    render,
                    capture,
                )[i].1 && !config.input.priorities@[k].excluded
        },
{
    lemma_first_eligible(config.output.priorities@, render, 0);
    lemma_first_eligible(config.input.priorities@, capture, 0);
    let out = flow_action(EndpointFlow::Render, config.output, render);
    let inp = flow_action(EndpointFlow::Capture, config.input, capture);
    let acts = spec_switch_actions(config, render, capture);
    if i < out.len() {
        assert(acts[i] == out[i]);
        let k = first_eligible_from(config.output.priorities@, render, 0).unwrap();
        assert(config.output.priorities@[k].id@ == acts[i].1);
    } else {
        assert(acts[i] == inp[i - out.len()]);
        let k = first_eligible_from(config.input.priorities@, capture, 0).unwrap();
        assert(config.input.priorities@[k].id@ == acts[i].1);
    }
}

/// Output and input are decided independently: the output action depends only on the
/// output list and the available outputs, the input action only on the input list and
/// the available inputs.
pub proof fn law_flows_are_independent(
    config: AppConfig,
    render: Set<Seq<char>>,
    capture: Set<Seq<char>>,
)
    requires
        config.autoswitch_enabled,
    ensures
        spec_switch_actions(config, render, capture) == flow_action(
            EndpointFlow::Render,
            config.output,
            render,
        ) + flow_action(EndpointFlow::Capture, config.input, capture),
        flow_action(EndpointFlow::Render, config.output, render).len() <= 1,
        flow_action(EndpointFlow::Capture, config.input, capture).len() <= 1,
{
}

} // verus!
