//! Whole ingestions: the commands that one runs, first to last, and the
//! schedule that it leaves behind.
//!
//! `Server::advance` takes one step of an ingestion.  Here its steps are put
//! in a row, and what holds of the row is proved: which stores are created,
//! and when graphs are drawn.

use vstd::prelude::*;

use crate::rrdtool::{create_args, info_args, schema_args, update_args};
use crate::sample::ParsedSample;
use crate::schedule::{drawn, due, NANOS_PER_SECOND};
use crate::server::{ConfigFile, Stage};

verus! {

impl ConfigFile {
    /// The commands of an ingestion that stands at `stage`, first to last,
    /// by the arguments they are run with.  `script` tells how each command
    /// ends, and when; commands beyond its end are not run.
    pub open spec fn commands(
        self,
        deadlines: Map<Seq<char>, u128>,
        sample: ParsedSample,
        stage: Stage,
        script: Seq<(bool, u128)>,
    ) -> Seq<Seq<Seq<char>>>
        decreases script.len(),
    {
        if script.len() == 0 {
            seq![self.request(sample, stage)]
        } else {
            let (ok, now) = script[0];
            match self.next_stage(deadlines, sample.label@, stage, ok, now) {
                None => seq![self.request(sample, stage)],
                Some(next) => seq![self.request(sample, stage)] + self.commands(
                    self.next_deadlines(deadlines, sample.label@, stage, ok, now),
                    sample,
                    next,
                    script.drop_first(),
                ),
            }
        }
    }

    /// The schedule that an ingestion which stands at `stage` leaves
    /// behind, `script` telling how each of its commands ends, and when.
    pub open spec fn settled(
        self,
        deadlines: Map<Seq<char>, u128>,
        label: Seq<char>,
        stage: Stage,
        script: Seq<(bool, u128)>,
    ) -> Map<Seq<char>, u128>
        decreases script.len(),
    {
        if script.len() == 0 {
            deadlines
        } else {
            let (ok, now) = script[0];
            let after = self.next_deadlines(deadlines, label, stage, ok, now);
            match self.next_stage(deadlines, label, stage, ok, now) {
                None => after,
                Some(next) => self.settled(after, label, next, script.drop_first()),
            }
        }
    }
}

/// Whether a command creates a store.
pub open spec fn is_create(args: Seq<Seq<char>>) -> bool {
    args.len() > 0 && args[0] == "create"@
}

/// Whether a command updates a store.
pub open spec fn is_update(args: Seq<Seq<char>>) -> bool {
    args.len() > 0 && args[0] == "update"@
}

/// The names of the four operations differ.
proof fn lemma_operation_names()
    ensures
        "info"@ != "create"@,
        "info"@ != "update"@,
        "update"@ != "create"@,
        "graph"@ != "create"@,
        "graph"@ != "update"@,
{
    reveal_strlit("info");
    reveal_strlit("create");
    reveal_strlit("update");
    reveal_strlit("graph");
    assert("update"@[0] == 'u');
    assert("create"@[0] == 'c');
}

/// Once a store is being updated, no command of the ingestion creates a
/// store, and only the first one updates it.
proof fn lemma_after_update(
    config: ConfigFile,
    deadlines: Map<Seq<char>, u128>,
    sample: ParsedSample,
    stage: Stage,
    script: Seq<(bool, u128)>,
)
    requires
        stage is Updating || stage is Rendering,
    ensures
        ({
            let run = config.commands(deadlines, sample, stage, script);
            &&& run.len() >= 1
            &&& run[0] == config.request(sample, stage)
            &&& forall|i: int| 0 <= i < run.len() ==> !is_create(#[trigger] run[i])
            &&& forall|i: int| 1 <= i < run.len() ==> !is_update(#[trigger] run[i])
        }),
    decreases script.len(),
{
    lemma_operation_names();
    let run = config.commands(deadlines, sample, stage, script);
    let first = config.request(sample, stage);
    assert(!is_create(first));
    if script.len() > 0 {
        let (ok, now) = script[0];
        match config.next_stage(deadlines, sample.label@, stage, ok, now) {
            None => {},
            Some(next) => {
                let after = config.next_deadlines(deadlines, sample.label@, stage, ok, now);
                let rest = config.commands(after, sample, next, script.drop_first());
                lemma_after_update(config, after, sample, next, script.drop_first());
                assert(run == seq![first] + rest);
                assert(!is_update(rest[0]));
                assert forall|i: int| 0 <= i < run.len() implies !is_create(#[trigger] run[i]) by {
                    if i > 0 {
                        assert(run[i] == rest[i - 1]);
                    }
                }
                assert forall|i: int| 1 <= i < run.len() implies !is_update(#[trigger] run[i]) by {
                    assert(run[i] == rest[i - 1]);
                }
            },
        }
    }
}

/// A store that does not show is created exactly once, before the first
/// update: where `info` fails, the commands are `info`, `create` and,
/// where `create` succeeds, `update`; no other command creates a store or
/// updates it.  Where `create` fails, nothing follows it.
pub proof fn lemma_missing_store_is_created_once(
    config: ConfigFile,
    deadlines: Map<Seq<char>, u128>,
    sample: ParsedSample,
    script: Seq<(bool, u128)>,
)
    requires
        script.len() >= 2,
        !script[0].0,
    ensures
        ({
            let run = config.commands(deadlines, sample, Stage::Probing, script);
            &&& run.len() >= 2
            &&& run[0] == info_args(sample.store_path@)
            &&& run[1] == create_args(sample.store_path@, schema_args())
            &&& forall|i: int| 0 <= i < run.len() ==> (is_create(#[trigger] run[i]) <==> i == 1)
            &&& if script[1].0 {
                &&& run.len() >= 3
                &&& run[2] == update_args(
                    sample.store_path@,
                    seq![sample.temperature@, sample.humidity@],
                )
                &&& forall|i: int|
                    0 <= i < run.len() ==> (is_update(#[trigger] run[i]) <==> i == 2)
            } else {
                run.len() == 2
            }
        }),
{
    lemma_operation_names();
    let run = config.commands(deadlines, sample, Stage::Probing, script);
    let tail1 = script.drop_first();
    let tail2 = tail1.drop_first();
    let run1 = config.commands(deadlines, sample, Stage::Creating, tail1);
    assert(tail1[0] == script[1]);
    assert(run == seq![config.request(sample, Stage::Probing)] + run1);
    if script[1].0 {
        let run2 = config.commands(deadlines, sample, Stage::Updating, tail2);
        assert(run1 == seq![config.request(sample, Stage::Creating)] + run2);
        lemma_after_update(config, deadlines, sample, Stage::Updating, tail2);
        assert forall|i: int| 0 <= i < run.len() implies (is_create(#[trigger] run[i]) <==> i
            == 1) && (is_update(run[i]) <==> i == 2) by {
            if i >= 2 {
                assert(run[i] == run1[i - 1]);
                assert(run1[i - 1] == run2[i - 2]);
            } else if i == 1 {
                assert(run[i] == run1[0]);
            }
        }
    } else {
        assert(run1 == seq![config.request(sample, Stage::Creating)]);
        assert(run[1] == run1[0]);
    }
}

/// A store that shows is not created: where `info` succeeds, the commands
/// are `info`, `update`, and no command of the ingestion creates a store.
pub proof fn lemma_present_store_is_not_created(
    config: ConfigFile,
    deadlines: Map<Seq<char>, u128>,
    sample: ParsedSample,
    script: Seq<(bool, u128)>,
)
    requires
        script.len() >= 1,
        script[0].0,
    ensures
        ({
            let run = config.commands(deadlines, sample, Stage::Probing, script);
            &&& run.len() >= 2
            &&& run[0] == info_args(sample.store_path@)
            &&& run[1] == update_args(
                sample.store_path@,
                seq![sample.temperature@, sample.humidity@],
            )
            &&& forall|i: int| 0 <= i < run.len() ==> !is_create(#[trigger] run[i])
        }),
{
    lemma_operation_names();
    let run = config.commands(deadlines, sample, Stage::Probing, script);
    let tail = script.drop_first();
    let run1 = config.commands(deadlines, sample, Stage::Updating, tail);
    assert(run == seq![config.request(sample, Stage::Probing)] + run1);
    lemma_after_update(config, deadlines, sample, Stage::Updating, tail);
    assert forall|i: int| 0 <= i < run.len() implies !is_create(#[trigger] run[i]) by {
        if i >= 1 {
            assert(run[i] == run1[i - 1]);
        }
    }
}

impl ConfigFile {
    /// The schedule after samples of `label` were stored at `times`, one
    /// after another, none of them due.
    pub open spec fn stored(
        self,
        deadlines: Map<Seq<char>, u128>,
        label: Seq<char>,
        times: Seq<u128>,
    ) -> Map<Seq<char>, u128>
        decreases times.len(),
    {
        if times.len() == 0 {
            deadlines
        } else {
            self.next_deadlines(
                self.stored(deadlines, label, times.drop_last()),
                label,
                Stage::Updating,
                true,
                times.last(),
            )
        }
    }
}

/// A sensor that is seen for the first time, at `first`, is not drawn
/// then.  Of the samples that follow, at `times`, the first that arrives one
/// interval after `first` or later is drawn, and none before it.
pub proof fn lemma_first_graphs_one_interval_after_first_sight(
    config: ConfigFile,
    deadlines: Map<Seq<char>, u128>,
    label: Seq<char>,
    first: u128,
    times: Seq<u128>,
    k: int,
)
    requires
        !deadlines.contains_key(label),
        config.graph_schedule@.len() > 0,
        first + config.graph_interval * NANOS_PER_SECOND <= u128::MAX,
        0 <= k < times.len(),
        forall|i: int| 0 <= i < k ==> times[i] < first + config.graph_interval * NANOS_PER_SECOND,
        times[k] >= first + config.graph_interval * NANOS_PER_SECOND,
    ensures
        config.next_stage(deadlines, label, Stage::Updating, true, first) is None,
        ({
            let seen = config.next_deadlines(deadlines, label, Stage::Updating, true, first);
            &&& seen == deadlines.insert(
                label,
                (first + config.graph_interval * NANOS_PER_SECOND) as u128,
            )
            &&& forall|i: int|
                0 <= i < k ==> config.next_stage(
                    #[trigger] config.stored(seen, label, times.take(i)),
                    label,
                    Stage::Updating,
                    true,
                    times[i],
                ) is None
            &&& config.next_stage(
                config.stored(seen, label, times.take(k)),
                label,
                Stage::Updating,
                true,
                times[k],
            ) == Some(Stage::Rendering { next: 0, since: times[k] })
        }),
{
    let seen = config.next_deadlines(deadlines, label, Stage::Updating, true, first);
    assert forall|i: int| 0 <= i <= k implies #[trigger] config.stored(seen, label, times.take(i))
        == seen by {
        lemma_early_samples_keep_schedule(config, seen, label, times.take(i));
    }
}

/// Samples that arrive before the graphs of their sensor are due leave the
/// schedule as it is.
pub proof fn lemma_early_samples_keep_schedule(
    config: ConfigFile,
    deadlines: Map<Seq<char>, u128>,
    label: Seq<char>,
    times: Seq<u128>,
)
    requires
        deadlines.contains_key(label),
        forall|i: int| 0 <= i < times.len() ==> times[i] < deadlines[label],
    ensures
        config.stored(deadlines, label, times) == deadlines,
    decreases times.len(),
{
    if times.len() > 0 {
        lemma_early_samples_keep_schedule(config, deadlines, label, times.drop_last());
    }
}

/// What happens to the sample of one sensor leaves the time of every other
/// sensor as it is.
pub proof fn lemma_other_sensors_keep_their_time(
    config: ConfigFile,
    deadlines: Map<Seq<char>, u128>,
    label: Seq<char>,
    stage: Stage,
    ok: bool,
    now: u128,
    other: Seq<char>,
)
    requires
        other != label,
    ensures
        ({
            let after = config.next_deadlines(deadlines, label, stage, ok, now);
            &&& after.contains_key(other) == deadlines.contains_key(other)
            &&& deadlines.contains_key(other) ==> after[other] == deadlines[other]
        }),
{
}

/// A sensor that has been seen stays in the schedule.
pub proof fn lemma_schedule_keeps_its_sensors(
    config: ConfigFile,
    deadlines: Map<Seq<char>, u128>,
    label: Seq<char>,
    stage: Stage,
    ok: bool,
    now: u128,
    seen: Seq<char>,
)
    requires
        deadlines.contains_key(seen),
    ensures
        config.next_deadlines(deadlines, label, stage, ok, now).contains_key(seen),
{
}

/// Drawing the windows of a pass from `next` on, each in success, ends
/// with the graphs due one interval after the time at which the pass was
/// found due.
proof fn lemma_rest_of_pass(
    config: ConfigFile,
    deadlines: Map<Seq<char>, u128>,
    label: Seq<char>,
    next: usize,
    since: u128,
    script: Seq<(bool, u128)>,
)
    requires
        next < config.graph_schedule@.len(),
        script.len() == config.graph_schedule@.len() - next,
        forall|i: int| 0 <= i < script.len() ==> script[i].0,
    ensures
        config.settled(deadlines, label, Stage::Rendering { next, since }, script) == drawn(
            deadlines,
            label,
            since,
            config.graph_interval,
        ),
    decreases script.len(),
{
    assert(config.graph_schedule.len() == config.graph_schedule@.len());
    if next + 1 < config.graph_schedule@.len() {
        lemma_rest_of_pass(
            config,
            deadlines,
            label,
            (next + 1) as usize,
            since,
            script.drop_first(),
        );
    }
}

/// After the graphs of a sensor were drawn in a pass that was found due at
/// `at`, they are next due exactly one interval after `at`, whenever the
/// drawing of the windows ended.
pub proof fn lemma_next_graphs_one_interval_after_pass(
    config: ConfigFile,
    deadlines: Map<Seq<char>, u128>,
    label: Seq<char>,
    at: u128,
    script: Seq<(bool, u128)>,
)
    requires
        due(deadlines, label, at),
        at + config.graph_interval * NANOS_PER_SECOND <= u128::MAX,
        script.len() == config.graph_schedule@.len() + 1,
        script[0] == (true, at),
        forall|i: int| 0 <= i < script.len() ==> script[i].0,
    ensures
        ({
            let after = config.settled(deadlines, label, Stage::Updating, script);
            &&& after == deadlines.insert(
                label,
                (at + config.graph_interval * NANOS_PER_SECOND) as u128,
            )
            &&& forall|t: u128|
                due(after, label, t) <==> t >= at + config.graph_interval * NANOS_PER_SECOND
        }),
{
    if config.graph_schedule@.len() > 0 {
        lemma_rest_of_pass(config, deadlines, label, 0, at, script.drop_first());
    }
}

/// A pass in which the drawing of a window fails leaves the schedule as it
/// is, so that the next sample of the sensor starts a new pass.
pub proof fn lemma_failed_pass_keeps_schedule(
    config: ConfigFile,
    deadlines: Map<Seq<char>, u128>,
    label: Seq<char>,
    next: usize,
    since: u128,
    script: Seq<(bool, u128)>,
    failed: int,
)
    requires
        next < config.graph_schedule@.len(),
        0 <= failed < script.len(),
        failed < config.graph_schedule@.len() - next,
        !script[failed].0,
    ensures
        config.settled(deadlines, label, Stage::Rendering { next, since }, script) == deadlines,
    decreases script.len(),
{
    assert(config.graph_schedule.len() == config.graph_schedule@.len());
    if script[0].0 && failed > 0 {
        lemma_failed_pass_keeps_schedule(
            config,
            deadlines,
            label,
            (next + 1) as usize,
            since,
            script.drop_first(),
            failed - 1,
        );
    }
}

} // verus!
