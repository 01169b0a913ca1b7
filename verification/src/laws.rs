//! The laws of the orchestrator: what holds of every transition and of every
//! run. A run is the sequence of states, consumed events and produced
//! actions of one process invocation; the lemmas here pin down the bootstrap
//! behaviour, the forward-only stage order, the fail-fast rules and the
//! delivery-mode dispatch.

use crate::config::DEFAULT_CONFIG_TEXT;
use crate::errors::GeneralError;
use crate::pipeline::needs_config;
use crate::pipeline::next_rel;
use crate::pipeline::rank;
use crate::pipeline::spec_input_path;
use crate::pipeline::terminal;
use crate::pipeline::Action;
use crate::pipeline::Event;
use crate::pipeline::Pipeline;
use crate::pipeline::Stage;
use crate::text::lemma_normalization_identifies_separators;
use crate::text::separators_agree;
use vstd::prelude::*;

verus! {

/// One step of a run: the state is well formed and not terminal, the event
/// is the one the stage expects, and the transition relation holds.
pub open spec fn run_step(
    states: Seq<Pipeline>,
    events: Seq<Event>,
    actions: Seq<Action>,
    i: int,
) -> bool {
    &&& states[i].wf()
    &&& !terminal(states[i].stage)
    &&& states[i].expects(events[i])
    &&& next_rel(states[i], events[i], states[i + 1], actions[i])
}

/// A run of the orchestrator: each consumed event relates consecutive states
/// and the action produced between them.
pub open spec fn valid_run(states: Seq<Pipeline>, events: Seq<Event>, actions: Seq<Action>) -> bool {
    &&& states.len() == events.len() + 1
    &&& actions.len() == events.len()
    &&& forall|i: int| 0 <= i < events.len() ==> #[trigger] run_step(states, events, actions, i)
}

/// Control flows strictly forward: every transition increases the stage
/// rank, so no stage is re-entered and every run ends within a fixed number
/// of steps.
pub proof fn lemma_step_strictly_forward(pre: Pipeline, event: Event, post: Pipeline, a: Action)
    requires
        next_rel(pre, event, post, a),
    ensures
        rank(post.stage) > rank(pre.stage),
{
}

/// Along a run the stage rank grows at least by one per step.
pub proof fn lemma_run_rank_monotone(
    states: Seq<Pipeline>,
    events: Seq<Event>,
    actions: Seq<Action>,
    i: int,
    j: int,
)
    requires
        valid_run(states, events, actions),
        0 <= i <= j < states.len(),
    ensures
        rank(states[j].stage) >= rank(states[i].stage) + (j - i),
    decreases j - i,
{
    if i < j {
        lemma_run_rank_monotone(states, events, actions, i, j - 1);
        assert(run_step(states, events, actions, j - 1));
        lemma_step_strictly_forward(states[j - 1], events[j - 1], states[j], actions[j - 1]);
    }
}

/// No stage is ever revisited within one run.
pub proof fn lemma_no_stage_revisited(
    states: Seq<Pipeline>,
    events: Seq<Event>,
    actions: Seq<Action>,
    i: int,
    j: int,
)
    requires
        valid_run(states, events, actions),
        0 <= i < j < states.len(),
    ensures
        states[i].stage != states[j].stage,
{
    lemma_run_rank_monotone(states, events, actions, i, j);
}

/// Once the configuration is loaded it never changes for the rest of the
/// run: later states carry the very same configuration.
pub proof fn lemma_config_stable(
    states: Seq<Pipeline>,
    events: Seq<Event>,
    actions: Seq<Action>,
    i: int,
    j: int,
)
    requires
        valid_run(states, events, actions),
        0 <= i <= j < states.len(),
        needs_config(states[i].stage),
    ensures
        states[j].config == states[i].config,
        needs_config(states[j].stage) || terminal(states[j].stage),
    decreases j - i,
{
    if i < j {
        lemma_config_stable(states, events, actions, i, j - 1);
        assert(run_step(states, events, actions, j - 1));
    }
}

/// Idempotent bootstrap, on an existing file: when the probe finds a
/// configuration file, the machine goes straight to reading it; it never
/// asks for a write, so an existing configuration is never overwritten.
pub proof fn lemma_bootstrap_never_overwrites(pre: Pipeline, post: Pipeline, a: Action)
    requires
        next_rel(pre, Event::ConfigProbed(true), post, a),
    ensures
        a == Action::ReadConfig,
        post.stage == Stage::ConfigRead,
{
}

/// Idempotent bootstrap, on a missing file: the machine asks for exactly the
/// default payload to be written, and then reads it back like any other
/// configuration.
pub proof fn lemma_bootstrap_writes_default(pre: Pipeline, post: Pipeline, a: Action)
    requires
        next_rel(pre, Event::ConfigProbed(false), post, a),
    ensures
        (a matches Action::WriteConfig(t) && t@ == DEFAULT_CONFIG_TEXT@),
        post.stage == Stage::ConfigWrite,
{
}

/// A configuration write arises only from the probe that found no file.
pub proof fn lemma_config_write_origin(pre: Pipeline, event: Event, post: Pipeline, a: Action)
    requires
        next_rel(pre, event, post, a),
        (a matches Action::WriteConfig(_)),
    ensures
        pre.stage == Stage::ConfigProbe,
        event == Event::ConfigProbed(false),
{
}

/// Idempotent bootstrap, over a whole run: at most one configuration write
/// is ever asked for, so bootstrap creates at most one file.
pub proof fn lemma_at_most_one_config_write(
    states: Seq<Pipeline>,
    events: Seq<Event>,
    actions: Seq<Action>,
    i: int,
    j: int,
)
    requires
        valid_run(states, events, actions),
        0 <= i < j < actions.len(),
        (actions[i] matches Action::WriteConfig(_)),
    ensures
        !(actions[j] matches Action::WriteConfig(_)),
{
    assert(run_step(states, events, actions, i));
    assert(run_step(states, events, actions, j));
    lemma_config_write_origin(states[i], events[i], states[i + 1], actions[i]);
    if actions[j] matches Action::WriteConfig(_) {
        lemma_config_write_origin(states[j], events[j], states[j + 1], actions[j]);
        lemma_no_stage_revisited(states, events, actions, i, j);
    }
}

/// Directory idempotence at the input folder: when the probe finds the
/// folder, the machine moves on without asking for a creation.
pub proof fn lemma_existing_input_dir_kept(pre: Pipeline, post: Pipeline, a: Action)
    requires
        next_rel(pre, Event::InputDirProbed(true), post, a),
    ensures
        a == Action::ProbeOutputDir(pre.spec_config().output_settings.output_folder),
        post.stage == Stage::OutputDirProbe,
{
}

/// Directory idempotence at the output folder: when the probe finds the
/// folder, the machine moves on without asking for a creation.
pub proof fn lemma_existing_output_dir_kept(pre: Pipeline, post: Pipeline, a: Action)
    requires
        next_rel(pre, Event::OutputDirProbed(true), post, a),
    ensures
        (a matches Action::ProbeInput(p) && p@ == spec_input_path(pre.spec_config())),
        post.stage == Stage::InputCheck,
{
}

/// A folder creation arises only from the probe that found it missing.
pub proof fn lemma_dir_create_origin(pre: Pipeline, event: Event, post: Pipeline, a: Action)
    requires
        next_rel(pre, event, post, a),
        ((a matches Action::CreateInputDir(_)) || (a matches Action::CreateOutputDir(_))),
    ensures
        (a matches Action::CreateInputDir(_)) ==> (pre.stage == Stage::InputDirProbe && event
            == Event::InputDirProbed(false)),
        (a matches Action::CreateOutputDir(_)) ==> (pre.stage == Stage::OutputDirProbe && event
            == Event::OutputDirProbed(false)),
{
}

/// Directory idempotence over a whole run: each folder is created at most
/// once.
pub proof fn lemma_at_most_one_dir_create(
    states: Seq<Pipeline>,
    events: Seq<Event>,
    actions: Seq<Action>,
    i: int,
    j: int,
)
    requires
        valid_run(states, events, actions),
        0 <= i < j < actions.len(),
    ensures
        !((actions[i] matches Action::CreateInputDir(_)) && (actions[j]
            matches Action::CreateInputDir(_))),
        !((actions[i] matches Action::CreateOutputDir(_)) && (actions[j]
            matches Action::CreateOutputDir(_))),
{
    assert(run_step(states, events, actions, i));
    assert(run_step(states, events, actions, j));
    if (actions[i] matches Action::CreateInputDir(_)) || (actions[i]
        matches Action::CreateOutputDir(_)) {
        lemma_dir_create_origin(states[i], events[i], states[i + 1], actions[i]);
        if (actions[j] matches Action::CreateInputDir(_)) || (actions[j]
            matches Action::CreateOutputDir(_)) {
            lemma_dir_create_origin(states[j], events[j], states[j + 1], actions[j]);
            lemma_no_stage_revisited(states, events, actions, i, j);
        }
    }
}

/// Mode exhaustiveness at dispatch: with a mode tag outside {0, 1} the run
/// fails with `InvalidMode` carrying the offending tag, before any delivery
/// side effect is asked for.
pub proof fn lemma_invalid_mode_rejected(pre: Pipeline, event: Event, post: Pipeline, a: Action)
    requires
        next_rel(pre, event, post, a),
        pre.stage == Stage::Serialize,
        (event matches Event::Serialized(_, _)),
        pre.spec_config().output_settings.output_mode != 0,
        pre.spec_config().output_settings.output_mode != 1,
    ensures
        post.stage == Stage::Failed,
        a == Action::Report(
            GeneralError::InvalidMode(pre.spec_config().output_settings.output_mode),
        ),
{
}

/// A storage write is asked for only at dispatch under mode 0, and a script
/// write only under mode 1: the two delivery modes exclude each other.
pub proof fn lemma_delivery_needs_its_mode(pre: Pipeline, event: Event, post: Pipeline, a: Action)
    requires
        next_rel(pre, event, post, a),
    ensures
        (a matches Action::WriteStorage { .. }) ==> (pre.stage == Stage::Serialize
            && pre.spec_config().output_settings.output_mode == 0),
        (a matches Action::WriteScript { .. }) ==> (pre.stage == Stage::Serialize
            && pre.spec_config().output_settings.output_mode == 1),
{
}

/// Both artifacts are delivered together and unmodified: whichever delivery
/// the mode dispatches on carries exactly the two strings the serializer
/// handed back, and a delivery action arises from nothing else.
pub proof fn lemma_delivery_carries_artifacts(pre: Pipeline, event: Event, post: Pipeline, a: Action)
    requires
        next_rel(pre, event, post, a),
        ((a matches Action::WriteStorage { .. }) || (a matches Action::WriteScript { .. })),
    ensures
        (event matches Event::Serialized(payload, metadata) && ((a
            matches Action::WriteStorage { payload: p, metadata: m, .. } && p == payload && m
            == metadata) || (a matches Action::WriteScript { payload: p, metadata: m, .. } && p
            == payload && m == metadata))),
{
}

/// Mode exhaustiveness over a whole run: under a configuration whose mode
/// tag is outside {0, 1}, no delivery side effect is ever asked for.
pub proof fn lemma_invalid_mode_no_delivery(
    states: Seq<Pipeline>,
    events: Seq<Event>,
    actions: Seq<Action>,
    i: int,
    j: int,
)
    requires
        valid_run(states, events, actions),
        0 <= i < states.len(),
        0 <= j < actions.len(),
        needs_config(states[i].stage),
        states[i].spec_config().output_settings.output_mode != 0,
        states[i].spec_config().output_settings.output_mode != 1,
    ensures
        !(actions[j] matches Action::WriteStorage { .. }),
        !(actions[j] matches Action::WriteScript { .. }),
{
    assert(run_step(states, events, actions, j));
    if (actions[j] matches Action::WriteStorage { .. }) || (actions[j]
        matches Action::WriteScript { .. }) {
        lemma_delivery_needs_its_mode(states[j], events[j], states[j + 1], actions[j]);
        if i <= j {
            lemma_config_stable(states, events, actions, i, j);
        } else {
            lemma_config_stable(states, events, actions, j, i);
        }
    }
}

/// Fail-fast on missing input: when the probe finds no input file, the run
/// fails with `MissingFile` carrying the fully resolved path.
pub proof fn lemma_missing_input_fails(pre: Pipeline, post: Pipeline, a: Action)
    requires
        next_rel(pre, Event::InputProbed(false), post, a),
    ensures
        post.stage == Stage::Failed,
        (a matches Action::Report(e) && e matches GeneralError::MissingFile(p) && p@
            == spec_input_path(pre.spec_config())),
{
}

/// The external decoder is invoked only after the input probe found the
/// file: a missing input fails before any load is asked for.
pub proof fn lemma_load_origin(pre: Pipeline, event: Event, post: Pipeline, a: Action)
    requires
        next_rel(pre, event, post, a),
        (a matches Action::LoadLevel(_)),
    ensures
        pre.stage == Stage::InputCheck,
        event == Event::InputProbed(true),
{
}

/// A diagnostic report ends the run: it only arises together with the failed
/// stage, and nothing follows it.
pub proof fn lemma_report_is_last(
    states: Seq<Pipeline>,
    events: Seq<Event>,
    actions: Seq<Action>,
    j: int,
)
    requires
        valid_run(states, events, actions),
        0 <= j < actions.len(),
        (actions[j] matches Action::Report(_)),
    ensures
        j == actions.len() - 1,
        states[j + 1].stage == Stage::Failed,
{
    assert(run_step(states, events, actions, j));
    if j + 1 < actions.len() {
        assert(run_step(states, events, actions, j + 1));
    }
}

/// The finishing action too ends the run: nothing is asked for after it.
pub proof fn lemma_finish_is_last(
    states: Seq<Pipeline>,
    events: Seq<Event>,
    actions: Seq<Action>,
    j: int,
)
    requires
        valid_run(states, events, actions),
        0 <= j < actions.len(),
        actions[j] == Action::Finish,
    ensures
        j == actions.len() - 1,
        states[j + 1].stage == Stage::Done,
{
    assert(run_step(states, events, actions, j));
    if j + 1 < actions.len() {
        assert(run_step(states, events, actions, j + 1));
    }
}

/// Success is owed only to a completed delivery: the finishing action arises
/// exactly from a delivery outcome that succeeded, and it ends the run in
/// the done stage. A run exits with status 0 only after full completion.
pub proof fn lemma_finish_origin(pre: Pipeline, event: Event, post: Pipeline, a: Action)
    requires
        next_rel(pre, event, post, a),
        a == Action::Finish,
    ensures
        pre.stage == Stage::Deliver,
        post.stage == Stage::Done,
        (event matches Event::ScriptWritten(r) && r matches Ok(_)) || (event
            matches Event::StorageWritten(r) && r matches Ok(_)),
{
}

/// Key-normalization invariant at the orchestrator: two runs that read
/// configuration texts agreeing up to the spelling of key separators hand
/// the parser identical input.
pub proof fn lemma_equivalent_config_texts_parse_alike(
    pre1: Pipeline,
    b1: Vec<u8>,
    post1: Pipeline,
    a1: Action,
    pre2: Pipeline,
    b2: Vec<u8>,
    post2: Pipeline,
    a2: Action,
)
    requires
        next_rel(pre1, Event::ConfigLoaded(b1), post1, a1),
        next_rel(pre2, Event::ConfigLoaded(b2), post2, a2),
        separators_agree(b1@, b2@),
    ensures
        (a1 matches Action::ParseConfig(x) && a2 matches Action::ParseConfig(y) && x@ == y@),
{
    lemma_normalization_identifies_separators(b1@, b2@);
}

} // verus!
