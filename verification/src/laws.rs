//! What holds of every run of the start-up.

use crate::cursor::{forward_start, CursorKind};
use crate::model::{listed, Action, BuildStep, Event, ScraperView, StageView, StartupError};
use crate::settings::{ChainConf, Domain};
use crate::task::{BuiltTask, SpawnedTask, TaskBody, TaskKind};
use vstd::prelude::*;

verus! {

proof fn lemma_enter_spawning(s: ScraperView, next: nat)
    requires
        s.registry_wf(),
        s.registered(s.chains_to_scrape.len() as int),
        s.built_wf(4 * s.order.len() as int),
        s.tasks_wf(next as int),
    ensures
        s.enter_spawning(next).inv(),
{
}

proof fn lemma_enter_building(s: ScraperView, chain: nat)
    requires
        s.registry_wf(),
        s.registered(s.chains_to_scrape.len() as int),
        s.built_wf(4 * chain as int),
        s.tasks_wf(0),
        chain <= s.order.len(),
    ensures
        s.enter_building(chain).inv(),
{
    if chain >= s.order.len() {
        lemma_enter_spawning(s, 0);
    }
}

proof fn lemma_enter_registering(s: ScraperView, next: nat)
    requires
        s.registry_wf(),
        s.registered(next as int),
        s.built_wf(0),
        s.tasks_wf(0),
        next <= s.chains_to_scrape.len(),
    ensures
        s.enter_registering(next).inv(),
{
    if next >= s.chains_to_scrape.len() {
        lemma_enter_building(s, 0);
    }
}

proof fn lemma_register(s: ScraperView, next: nat, db: u64)
    requires
        s.inv(),
        s.stage == (StageView::Registering { next }),
    ensures
        s.register(next, db).inv(),
{
    let domain = s.chains_to_scrape[next as int];
    let id = domain.id;
    let entry = s.register(next, db).scrapers[id];
    let mid = ScraperView {
        scrapers: s.scrapers.insert(id, entry),
        order: if s.scrapers.contains_key(id) {
            s.order
        } else {
            s.order.push(id)
        },
        ..s
    };
    assert(mid.order.no_duplicates());
    assert forall|other: u32| #[trigger] mid.scrapers.contains_key(other) <==> mid.order.contains(
        other,
    ) by {
        if s.scrapers.contains_key(id) {
        } else {
            assert(mid.order[s.order.len() as int] == id);
            if s.order.contains(other) {
                let i = choose|i: int| 0 <= i < s.order.len() && s.order[i] == other;
                assert(mid.order[i] == other);
            }
        }
    }
    assert(s.chains_to_scrape.contains(domain));
    assert(mid.registry_wf());
    assert forall|other: u32| #[trigger] mid.scrapers.contains_key(other) <==> listed(
        mid.chains_to_scrape,
        next + 1 as int,
        other,
    ) by {
        if listed(s.chains_to_scrape, next as int, other) {
            let i = choose|i: int|
                0 <= i < next && i < s.chains_to_scrape.len() && (
                #[trigger] s.chains_to_scrape[i]).id == other;
            assert(listed(mid.chains_to_scrape, next + 1 as int, other));
        }
        if other == id {
            assert(mid.chains_to_scrape[next as int].id == other);
        }
    }
    lemma_enter_registering(mid, (next + 1) as nat);
}

proof fn lemma_push_built(s: ScraperView, chain: int, slot: int, task: BuiltTask)
    requires
        s.built_wf(4 * chain + slot),
        0 <= chain < s.order.len(),
        0 <= slot < 4,
        task.domain == s.order[chain],
        task.kind() == TaskKind::at(slot),
    ensures
        s.push_built(task).built_wf(4 * chain + slot + 1),
{
    let t = s.push_built(task);
    assert forall|j: int| 0 <= j < t.built.len() implies {
        &&& (#[trigger] t.built[j]).domain == t.order[j / 4]
        &&& t.built[j].kind() == TaskKind::at(j % 4)
    } by {
        if j < s.built.len() {
            assert(t.built[j] == s.built[j]);
        } else {
            assert(j == 4 * chain + slot);
            assert(j / 4 == chain);
            assert(j % 4 == slot);
        }
    }
}

proof fn lemma_build(s: ScraperView, chain: nat, step: BuildStep, event: Event)
    requires
        s.inv(),
        s.stage == (StageView::Building { chain, step }),
    ensures
        s.build(chain, step, event).inv(),
{
    let domain = s.order[chain as int];
    match (step, event) {
        (BuildStep::Cursor { label, engine, kind }, Event::CursorBuilt { cursor }) => {
            let task = BuiltTask { domain, body: TaskBody::Sync { label, engine, cursor } };
            lemma_push_built(s, chain as int, step.slot(), task);
        },
        (BuildStep::Metrics, Event::MetricsBuilt { updater }) => {
            let task = BuiltTask { domain, body: TaskBody::Metrics { updater } };
            lemma_push_built(s, chain as int, 3, task);
            lemma_enter_building(s.push_built(task), (chain + 1) as nat);
        },
        _ => {},
    }
}

proof fn lemma_spawned(s: ScraperView, next: nat, handle: u64)
    requires
        s.inv(),
        s.stage == (StageView::Spawning { next }),
    ensures
        s.spawned(next, handle).inv(),
{
    let task = s.built[next as int];
    let mid = ScraperView {
        tasks: s.tasks.push(SpawnedTask { handle, domain: task.domain, label: s.label_of(task) }),
        ..s
    };
    assert(mid.tasks_wf(next + 1 as int));
    lemma_enter_spawning(mid, (next + 1) as nat);
}

/// A start-up begins in a state of which the invariant holds.
pub proof fn lemma_init_inv(chains_to_scrape: Seq<Domain>, chains: Map<u32, ChainConf>)
    ensures
        ScraperView::init(chains_to_scrape, chains).inv(),
{
}

/// No event leads out of the states of which the invariant holds.
pub proof fn lemma_step_preserves_inv(s: ScraperView, event: Event)
    requires
        s.inv(),
    ensures
        s.step(event).inv(),
{
    match (s.stage, event) {
        (StageView::Connecting, Event::DatabaseConnected) => {
            lemma_enter_registering(s, 0);
        },
        (StageView::Registering { next }, Event::ChainDbOpened { db }) => {
            lemma_register(s, next, db);
        },
        (StageView::Building { chain, step }, _) => {
            lemma_build(s, chain, step, event);
        },
        (StageView::Spawning { next }, Event::Spawned { handle }) => {
            lemma_spawned(s, next, handle);
        },
        _ => {},
    }
}

/// Nor does any run of events.
pub proof fn lemma_after_preserves_inv(s: ScraperView, events: Seq<Event>)
    requires
        s.inv(),
    ensures
        s.after(events).inv(),
    decreases events.len(),
{
    if events.len() > 0 {
        lemma_step_preserves_inv(s, events[0]);
        lemma_after_preserves_inv(s.step(events[0]), events.skip(1));
    }
}

/// The invariant holds of every state that a start-up reaches.
pub proof fn lemma_reachable_inv(
    chains_to_scrape: Seq<Domain>,
    chains: Map<u32, ChainConf>,
    events: Seq<Event>,
)
    ensures
        ScraperView::init(chains_to_scrape, chains).after(events).inv(),
{
    lemma_init_inv(chains_to_scrape, chains);
    lemma_after_preserves_inv(ScraperView::init(chains_to_scrape, chains), events);
}

/// A run of events can be taken in two parts.
pub proof fn lemma_after_split(s: ScraperView, events: Seq<Event>, k: int)
    requires
        0 <= k <= events.len(),
    ensures
        s.after(events) == s.after(events.take(k)).after(events.skip(k)),
    decreases k,
{
    if k == 0 {
        assert(events.take(0) =~= Seq::<Event>::empty());
        assert(events.skip(0) =~= events);
    } else {
        let rest = events.skip(1);
        assert(events.take(k)[0] == events[0]);
        assert(events.take(k).skip(1) =~= rest.take(k - 1));
        assert(events.skip(k) =~= rest.skip(k - 1));
        lemma_after_split(s.step(events[0]), rest, k - 1);
    }
}

/// A start-up that has failed stays as it is.
pub proof fn lemma_aborted_is_final(s: ScraperView, events: Seq<Event>)
    requires
        s.stage is Aborted,
    ensures
        s.after(events) == s,
    decreases events.len(),
{
    if events.len() > 0 {
        lemma_aborted_is_final(s, events.skip(1));
    }
}

/// Once the first task is about to start, the start-up cannot fail any more.
pub proof fn lemma_starting_is_final(s: ScraperView, events: Seq<Event>)
    requires
        s.inv(),
        s.starting(),
    ensures
        s.after(events).starting(),
    decreases events.len(),
{
    if events.len() > 0 {
        lemma_step_preserves_inv(s, events[0]);
        lemma_starting_is_final(s.step(events[0]), events.skip(1));
    }
}

/// A failure of anything that is under construction ends the start-up, and
/// the error names the chain that it was for.
pub proof fn lemma_failure_aborts(s: ScraperView)
    requires
        s.inv(),
        s.constructing(),
    ensures
        s.step(Event::Failed).stage is Aborted,
        s.step(Event::Failed).tasks.len() == 0,
        s.step(Event::Failed).action() is Abort,
        s.stage matches StageView::Registering { next } ==> s.step(Event::Failed).stage
            == StageView::Aborted(
            StartupError::ChainSetup { domain: s.chains_to_scrape[next as int].id },
        ),
        s.stage matches StageView::Building { chain, step: BuildStep::Indexer(label) }
            ==> s.step(Event::Failed).stage == StageView::Aborted(
            StartupError::Indexer { domain: s.order[chain as int], label },
        ),
        s.stage matches StageView::Building { chain, step: BuildStep::Metrics } ==> s.step(
            Event::Failed,
        ).stage == StageView::Aborted(
            StartupError::Metrics { domain: s.order[chain as int] },
        ),
{
}

/// A chain without a configuration ends the start-up when its turn comes,
/// before anything is built for it.
pub proof fn lemma_missing_config_aborts(s: ScraperView, event: Event, turn: nat)
    requires
        s.inv(),
        turn < s.chains_to_scrape.len(),
        !s.chains.contains_key(s.chains_to_scrape[turn as int].id),
        (s.stage is Connecting && event is DatabaseConnected && turn == 0) || (s.stage
            == StageView::Registering { next: (turn - 1) as nat } && event is ChainDbOpened && turn
            > 0),
    ensures
        s.step(event).stage == StageView::Aborted(
            StartupError::MissingChainConfig { domain: s.chains_to_scrape[turn as int].id },
        ),
        s.step(event).tasks.len() == 0,
{
}

/// No partial start-up: in a run that ends in failure no task was ever
/// started, and the caller was never asked to start one.
pub proof fn lemma_failure_starts_nothing(s: ScraperView, events: Seq<Event>, k: int)
    requires
        s.inv(),
        s.after(events).stage is Aborted,
        0 <= k <= events.len(),
    ensures
        !(s.after(events.take(k)).action() is Spawn),
        s.after(events.take(k)).tasks.len() == 0,
        s.after(events).tasks.len() == 0,
{
    let mid = s.after(events.take(k));
    lemma_after_preserves_inv(s, events.take(k));
    lemma_after_preserves_inv(s, events);
    lemma_after_split(s, events, k);
    if mid.starting() {
        lemma_starting_is_final(mid, events.skip(k));
    }
}

/// Once every chain is set up, the registry holds one entry for each chain
/// to scrape and for no other: the chain itself as it is listed, with the
/// index settings of its configuration.
pub proof fn lemma_registry_is_complete(s: ScraperView, id: u32)
    requires
        s.inv(),
        s.stage is Building || s.starting(),
    ensures
        s.scrapers.contains_key(id) <==> listed(
            s.chains_to_scrape,
            s.chains_to_scrape.len() as int,
            id,
        ),
        s.scrapers.contains_key(id) ==> {
            &&& s.scrapers[id].domain.id == id
            &&& s.chains_to_scrape.contains(s.scrapers[id].domain)
            &&& s.chains.contains_key(id)
            &&& s.scrapers[id].index_settings == s.chains[id].index
        },
{
}

/// A task is started only when all tasks of all chains are constructed, and
/// then the tasks that run are the first of them.
pub proof fn lemma_construct_before_start(s: ScraperView)
    requires
        s.inv(),
        s.action() is Spawn || s.tasks.len() > 0,
    ensures
        s.built.len() == 4 * s.order.len(),
        s.tasks.len() <= s.built.len(),
        forall|id: u32| listed(s.chains_to_scrape, s.chains_to_scrape.len() as int, id)
            ==> s.scrapers.contains_key(id),
{
}

/// Every running task carries the name of the chain that it was constructed
/// for, as that chain is configured, and the label of what it does; a task
/// of one chain never carries the name of another.
pub proof fn lemma_labels_name_their_origin(s: ScraperView, j: int)
    requires
        s.inv(),
        0 <= j < s.tasks.len(),
    ensures
        s.scrapers.contains_key(s.tasks[j].domain),
        s.tasks[j].domain == s.order[j / 4],
        s.tasks[j].label.chain == s.scrapers[s.tasks[j].domain].domain.name,
        s.tasks[j].label.event == TaskKind::at(j % 4),
        s.chains_to_scrape.contains(
            Domain { id: s.tasks[j].domain, name: s.tasks[j].label.chain },
        ),
{
    assert(s.starting());
    assert(s.built[j].domain == s.order[j / 4]);
    assert(s.order.contains(s.order[j / 4]));
    let id = s.tasks[j].domain;
    assert(s.scrapers.contains_key(id));
    assert(s.scrapers[id].domain.id == id);
    assert(s.scrapers[id].domain == Domain { id, name: s.tasks[j].label.chain });
}

/// The label that a task is started under is that of its own chain.
pub proof fn lemma_spawn_is_labelled(s: ScraperView)
    requires
        s.inv(),
        s.action() is Spawn,
    ensures
        s.action() matches Action::Spawn { task, label } && {
            &&& s.scrapers.contains_key(task.domain)
            &&& label.chain == s.scrapers[task.domain].domain.name
            &&& label.event == task.kind()
            &&& s.scrapers[task.domain].domain.id == task.domain
        },
{
    let next = s.stage->Spawning_next;
    assert(s.built[next as int].domain == s.order[next as int / 4]);
    assert(s.order.contains(s.order[next as int / 4]));
    assert(s.scrapers.contains_key(s.built[next as int].domain));
}

/// A sequence keeps those of its items that a test picks out; where the
/// test holds of one stretch and nowhere else, that stretch is what is kept.
proof fn lemma_filter_stretch<A>(items: Seq<A>, test: spec_fn(A) -> bool, lo: int, hi: int)
    requires
        0 <= lo <= hi <= items.len(),
        forall|j: int| 0 <= j < items.len() ==> (test(#[trigger] items[j]) <==> lo <= j < hi),
    ensures
        items.filter(test) == items.subrange(lo, hi),
    decreases items.len(),
{
    reveal(Seq::filter);
    if items.len() == 0 {
        assert(items.filter(test) =~= items.subrange(lo, hi));
    } else {
        let front = items.drop_last();
        let n = front.len() as int;
        assert forall|j: int| 0 <= j < front.len() implies (test(#[trigger] front[j]) <==> lo <= j
            < hi) by {
            assert(front[j] == items[j]);
        }
        if hi == items.len() && lo < hi {
            assert forall|j: int| 0 <= j < front.len() implies (test(#[trigger] front[j]) <==> lo
                <= j < hi - 1) by {
                assert(front[j] == items[j]);
            }
            lemma_filter_stretch(front, test, lo, hi - 1);
            assert(test(items[n]));
            assert(front.subrange(lo, hi - 1).push(items.last()) =~= items.subrange(lo, hi));
        } else if hi == items.len() {
            assert forall|j: int| 0 <= j < front.len() implies (test(#[trigger] front[j]) <==> n
                <= j < n) by {
                assert(front[j] == items[j]);
            }
            lemma_filter_stretch(front, test, n, n);
            assert(!test(items[n]));
            assert(front.subrange(n, n) =~= items.subrange(lo, hi));
        } else {
            lemma_filter_stretch(front, test, lo, hi);
            assert(!test(items[n]));
            assert(front.subrange(lo, hi) =~= items.subrange(lo, hi));
        }
    }
}

/// Once the agent runs, every chain to scrape has exactly four tasks: one
/// for each of the three event streams and one for the metrics, each under
/// the name of the chain. A chain that is not to be scraped has none.
pub proof fn lemma_four_tasks_per_chain(s: ScraperView, id: u32)
    requires
        s.inv(),
        s.stage is Running,
    ensures
        listed(s.chains_to_scrape, s.chains_to_scrape.len() as int, id) ==> {
            &&& s.tasks_of(id).len() == 4
            &&& forall|k: int|
                0 <= k < 4 ==> {
                    &&& (#[trigger] s.tasks_of(id)[k]).domain == id
                    &&& s.tasks_of(id)[k].label.event == TaskKind::at(k)
                    &&& s.tasks_of(id)[k].label.chain == s.scrapers[id].domain.name
                }
        },
        !listed(s.chains_to_scrape, s.chains_to_scrape.len() as int, id) ==> s.tasks_of(id).len()
            == 0,
        s.tasks.len() == 4 * s.order.len(),
{
    let test = |task: SpawnedTask| task.domain == id;
    if s.scrapers.contains_key(id) {
        assert(s.order.contains(id));
        let c = choose|c: int| 0 <= c < s.order.len() && s.order[c] == id;
        assert forall|j: int| 0 <= j < s.tasks.len() implies (test(#[trigger] s.tasks[j]) <==> 4
            * c <= j < 4 * c + 4) by {
            assert(s.built[j].domain == s.order[j / 4]);
            if s.order[j / 4] == id {
                assert(j / 4 == c);
            }
        }
        lemma_filter_stretch(s.tasks, test, 4 * c, 4 * c + 4);
        assert forall|k: int| 0 <= k < 4 implies {
            &&& (#[trigger] s.tasks_of(id)[k]).domain == id
            &&& s.tasks_of(id)[k].label.event == TaskKind::at(k)
            &&& s.tasks_of(id)[k].label.chain == s.scrapers[id].domain.name
        } by {
            let j = 4 * c + k;
            assert(s.tasks_of(id)[k] == s.tasks[j]);
            assert(s.built[j].kind() == TaskKind::at(j % 4));
            assert(j % 4 == k);
        }
    } else {
        assert forall|j: int| 0 <= j < s.tasks.len() implies (test(#[trigger] s.tasks[j]) <==> 0
            <= j < 0) by {
            assert(s.built[j].domain == s.order[j / 4]);
            assert(s.order.contains(s.order[j / 4]));
        }
        lemma_filter_stretch(s.tasks, test, 0, 0);
    }
}

/// The cursor of a stream that follows a sequence number starts one below
/// the newest record, and at zero where there is none or the lookup failed;
/// every other stream gets a rate-limited cursor without a lookup.
pub proof fn lemma_cursor_policy(s: ScraperView, event: Event)
    requires
        s.inv(),
        s.stage is Building,
    ensures
        ({
            let chain = s.stage->chain;
            let domain = s.order[chain as int];
            let index = s.scrapers[domain].index_settings;
            match (s.stage->step, event) {
                (BuildStep::Indexer(label), Event::IndexerBuilt { engine }) => s.step(event).action()
                    == if label.sequential() {
                    Action::LookupLastSequence { domain, db: s.scrapers[domain].db }
                } else {
                    Action::BuildCursor {
                        domain,
                        label,
                        engine,
                        kind: CursorKind::RateLimited,
                        index,
                    }
                },
                (BuildStep::Sequence { label, engine }, Event::LastSequence(last)) => s.step(
                    event,
                ).action() == Action::BuildCursor {
                    domain,
                    label,
                    engine,
                    kind: CursorKind::ForwardSequential {
                        start: forward_start(last),
                    },
                    index,
                },
                (BuildStep::Sequence { label, engine }, Event::Failed) => s.step(event).action()
                    == Action::BuildCursor {
                    domain,
                    label,
                    engine,
                    kind: CursorKind::ForwardSequential { start: 0 },
                    index,
                },
                _ => true,
            }
        }),
{
}

} // verus!
