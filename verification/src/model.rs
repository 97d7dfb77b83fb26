//! The start-up of the agent as a state machine over plain values.
//!
//! The caller performs the action that a state asks for and reports what
//! happened as an event; the machine decides what comes next. It first
//! registers every chain to scrape, then constructs the four tasks of every
//! registered chain, and only then has them started, one by one. A failure
//! while anything is still being constructed ends the run with no task
//! started.

use crate::cursor::{forward_start, CursorKind};
use crate::settings::{ChainConf, Domain, IndexSettings};
use crate::task::{BuiltTask, EventLabel, SpawnedTask, TaskBody, TaskKind, TaskLabel};
use vstd::prelude::*;

verus! {

/// What the agent keeps for a chain that it scrapes.
#[derive(Debug, PartialEq, Eq)]
pub struct ChainScraper {
    pub index_settings: IndexSettings,
    /// The handle of the chain's database accessor.
    pub db: u64,
    pub domain: Domain,
}

/// Why a start-up ended before any task ran.
#[derive(Clone, Copy, Debug, PartialEq, Eq, Structural)]
pub enum StartupError {
    /// The database could not be reached.
    Database,
    /// A chain to scrape has no configuration.
    MissingChainConfig { domain: u32 },
    /// The provider or the database accessor of a chain could not be built.
    ChainSetup { domain: u32 },
    /// The sync engine of a stream could not be built.
    Indexer { domain: u32, label: EventLabel },
    /// The metrics reporter of a chain could not be built.
    Metrics { domain: u32 },
}

/// What is under construction for the chain at hand.
#[derive(Clone, Copy, Debug, PartialEq, Eq, Structural)]
pub enum BuildStep {
    /// The sync engine of a stream.
    Indexer(EventLabel),
    /// The newest record of a stream that follows a sequence number.
    Sequence { label: EventLabel, engine: u64 },
    /// The cursor of a stream, made by its engine.
    Cursor { label: EventLabel, engine: u64, kind: CursorKind },
    /// The metrics reporter.
    Metrics,
}

impl BuildStep {
    /// The place, among the tasks of a chain, of the task under construction.
    pub open spec fn slot(self) -> int {
        match self {
            BuildStep::Indexer(label) => TaskKind::Sync(label).slot(),
            BuildStep::Sequence { label, .. } => TaskKind::Sync(label).slot(),
            BuildStep::Cursor { label, .. } => TaskKind::Sync(label).slot(),
            BuildStep::Metrics => TaskKind::Metrics.slot(),
        }
    }

    /// A newest record is asked for only where the stream follows a sequence
    /// number, and exactly those streams get a forward cursor.
    pub open spec fn wf(self) -> bool {
        match self {
            BuildStep::Sequence { label, .. } => label.sequential(),
            BuildStep::Cursor { label, kind, .. } => (kind is ForwardSequential)
                == label.sequential(),
            _ => true,
        }
    }

    /// The first step towards a cursor once the engine of `label` is there.
    pub open spec fn with_engine(label: EventLabel, engine: u64) -> BuildStep {
        if label.sequential() {
            BuildStep::Sequence { label, engine }
        } else {
            BuildStep::Cursor { label, engine, kind: CursorKind::RateLimited }
        }
    }

    /// The cursor step of a stream whose newest record is `last`.
    pub open spec fn seeded(label: EventLabel, engine: u64, last: Option<u64>) -> BuildStep {
        BuildStep::Cursor {
            label,
            engine,
            kind: CursorKind::ForwardSequential { start: forward_start(last) },
        }
    }

    /// The step that follows the task of the stream `label`.
    pub open spec fn following(label: EventLabel) -> BuildStep {
        match label {
            EventLabel::MessageDispatch => BuildStep::Indexer(EventLabel::MessageDelivery),
            EventLabel::MessageDelivery => BuildStep::Indexer(EventLabel::GasPayment),
            EventLabel::GasPayment => BuildStep::Metrics,
        }
    }
}

/// How far the start-up has come.
#[derive(Clone, Copy, Debug, PartialEq, Eq, Structural)]
pub enum Stage {
    /// The database is being connected.
    Connecting,
    /// The chain in place `next` of the chains to scrape is being set up.
    Registering { next: usize },
    /// The tasks of the registered chain in place `chain` are being
    /// constructed.
    Building { chain: usize, step: BuildStep },
    /// The constructed task in place `next` is being started.
    Spawning { next: usize },
    /// Every task runs.
    Running,
    /// The start-up failed.
    Aborted(StartupError),
}

/// A stage, with its places as natural numbers.
pub enum StageView {
    Connecting,
    Registering { next: nat },
    Building { chain: nat, step: BuildStep },
    Spawning { next: nat },
    Running,
    Aborted(StartupError),
}

impl View for Stage {
    type V = StageView;

    open spec fn view(&self) -> StageView {
        match *self {
            Stage::Connecting => StageView::Connecting,
            Stage::Registering { next } => StageView::Registering { next: next as nat },
            Stage::Building { chain, step } => StageView::Building { chain: chain as nat, step },
            Stage::Spawning { next } => StageView::Spawning { next: next as nat },
            Stage::Running => StageView::Running,
            Stage::Aborted(error) => StageView::Aborted(error),
        }
    }
}

/// What the caller reports.
#[derive(Clone, Copy, Debug, PartialEq, Eq, Structural)]
pub enum Event {
    DatabaseConnected,
    ChainDbOpened { db: u64 },
    IndexerBuilt { engine: u64 },
    /// The highest sequence number on record, if there is a record.
    LastSequence(Option<u64>),
    CursorBuilt { cursor: u64 },
    MetricsBuilt { updater: u64 },
    Spawned { handle: u64 },
    /// What was asked for could not be done.
    Failed,
}

/// What the caller is asked to do.
#[derive(Debug, PartialEq, Eq)]
#[allow(inconsistent_fields)]
pub enum Action {
    ConnectDatabase,
    /// Build the provider of a chain and open its database accessor, scoped
    /// to the chain's mailbox.
    OpenChainDb { domain: u32, mailbox: [u8; 32], index: IndexSettings },
    /// Build the sync engine of a stream on the chain's database accessor.
    BuildIndexer { domain: u32, label: EventLabel, db: u64 },
    /// Look up the highest sequence number that is on record for a chain.
    LookupLastSequence { domain: u32, db: u64 },
    /// Have an engine make its cursor.
    BuildCursor { domain: u32, label: EventLabel, engine: u64, kind: CursorKind, index: IndexSettings },
    /// Build the metrics reporter of a chain.
    BuildMetrics { domain: u32 },
    /// Start a task, with its label attached to all that it emits.
    Spawn { task: BuiltTask, label: TaskLabel },
    /// Gather the running tasks into their group.
    RunAll,
    /// Give up.
    Abort(StartupError),
}

/// A state of the start-up.
pub struct ScraperView {
    /// The chains to scrape, as configured.
    pub chains_to_scrape: Seq<Domain>,
    /// The configuration of the chains that have one.
    pub chains: Map<u32, ChainConf>,
    /// What is registered, by domain identifier.
    pub scrapers: Map<u32, ChainScraper>,
    /// The registered identifiers, in the order in which they were first
    /// registered.
    pub order: Seq<u32>,
    pub stage: StageView,
    /// The tasks that are constructed.
    pub built: Seq<BuiltTask>,
    /// The tasks that run.
    pub tasks: Seq<SpawnedTask>,
}

/// Whether `id` is among the first `n` of `chains`.
pub open spec fn listed(chains: Seq<Domain>, n: int, id: u32) -> bool {
    exists|i: int| 0 <= i < n && i < chains.len() && (#[trigger] chains[i]).id == id
}

impl ScraperView {
    /// The state that a start-up begins in.
    pub open spec fn init(chains_to_scrape: Seq<Domain>, chains: Map<u32, ChainConf>) -> ScraperView {
        ScraperView {
            chains_to_scrape,
            chains,
            scrapers: Map::empty(),
            order: Seq::empty(),
            stage: StageView::Connecting,
            built: Seq::empty(),
            tasks: Seq::empty(),
        }
    }

    pub open spec fn at(self, stage: StageView) -> ScraperView {
        ScraperView { stage, ..self }
    }

    pub open spec fn abort(self, error: StartupError) -> ScraperView {
        self.at(StageView::Aborted(error))
    }

    /// The label under which a constructed task runs: the name of its chain
    /// as registered, and what the task does.
    pub open spec fn label_of(self, task: BuiltTask) -> TaskLabel {
        TaskLabel { chain: self.scrapers[task.domain].domain.name, event: task.kind() }
    }

    /// Turns to the chain in place `next`: it must have a configuration.
    /// After the last chain the construction of tasks begins.
    pub open spec fn enter_registering(self, next: nat) -> ScraperView {
        if next >= self.chains_to_scrape.len() {
            self.enter_building(0)
        } else if !self.chains.contains_key(self.chains_to_scrape[next as int].id) {
            self.abort(StartupError::MissingChainConfig { domain: self.chains_to_scrape[next as int].id })
        } else {
            self.at(StageView::Registering { next })
        }
    }

    /// Registers the chain in place `next` with its database accessor. A
    /// chain that is listed again replaces what was registered for it.
    pub open spec fn register(self, next: nat, db: u64) -> ScraperView {
        let domain = self.chains_to_scrape[next as int];
        let entry = ChainScraper { index_settings: self.chains[domain.id].index, db, domain };
        ScraperView {
            scrapers: self.scrapers.insert(domain.id, entry),
            order: if self.scrapers.contains_key(domain.id) {
                self.order
            } else {
                self.order.push(domain.id)
            },
            ..self
        }.enter_registering((next + 1) as nat)
    }

    /// Turns to the registered chain in place `chain`. After the last one the
    /// tasks are started.
    pub open spec fn enter_building(self, chain: nat) -> ScraperView {
        if chain >= self.order.len() {
            self.enter_spawning(0)
        } else {
            self.at(
                StageView::Building {
                    chain,
                    step: BuildStep::Indexer(EventLabel::MessageDispatch),
                },
            )
        }
    }

    /// Turns to the constructed task in place `next`. After the last one the
    /// agent runs.
    pub open spec fn enter_spawning(self, next: nat) -> ScraperView {
        if next >= self.built.len() {
            self.at(StageView::Running)
        } else {
            self.at(StageView::Spawning { next })
        }
    }

    pub open spec fn push_built(self, task: BuiltTask) -> ScraperView {
        ScraperView { built: self.built.push(task), ..self }
    }

    /// One step towards the three sync tasks of the chain in place `chain`:
    /// for each stream its engine, then its cursor. A stream that follows a
    /// sequence number has the newest record looked up in between, and a
    /// lookup that fails counts as no record.
    pub open spec fn scrape(self, chain: nat, step: BuildStep, event: Event) -> ScraperView {
        let domain = self.order[chain as int];
        match (step, event) {
            (BuildStep::Indexer(label), Event::IndexerBuilt { engine }) => self.at(
                StageView::Building { chain, step: BuildStep::with_engine(label, engine) },
            ),
            (BuildStep::Indexer(label), Event::Failed) => self.abort(
                StartupError::Indexer { domain, label },
            ),
            (BuildStep::Sequence { label, engine }, Event::LastSequence(last)) => self.at(
                StageView::Building { chain, step: BuildStep::seeded(label, engine, last) },
            ),
            (BuildStep::Sequence { label, engine }, Event::Failed) => self.at(
                StageView::Building { chain, step: BuildStep::seeded(label, engine, None) },
            ),
            (BuildStep::Cursor { label, engine, kind }, Event::CursorBuilt { cursor }) => self.push_built(
                BuiltTask { domain, body: TaskBody::Sync { label, engine, cursor } },
            ).at(StageView::Building { chain, step: BuildStep::following(label) }),
            _ => self,
        }
    }

    /// One step of the construction for the chain in place `chain`: its sync
    /// tasks first, its metrics reporter last.
    pub open spec fn build(self, chain: nat, step: BuildStep, event: Event) -> ScraperView {
        let domain = self.order[chain as int];
        match (step, event) {
            (BuildStep::Metrics, Event::MetricsBuilt { updater }) => self.push_built(
                BuiltTask { domain, body: TaskBody::Metrics { updater } },
            ).enter_building((chain + 1) as nat),
            (BuildStep::Metrics, Event::Failed) => self.abort(StartupError::Metrics { domain }),
            (BuildStep::Metrics, _) => self,
            _ => self.scrape(chain, step, event),
        }
    }

    /// Records that the constructed task in place `next` runs under `handle`.
    pub open spec fn spawned(self, next: nat, handle: u64) -> ScraperView {
        let task = self.built[next as int];
        ScraperView {
            tasks: self.tasks.push(
                SpawnedTask { handle, domain: task.domain, label: self.label_of(task) },
            ),
            ..self
        }.enter_spawning((next + 1) as nat)
    }

    /// The state after an event. An event that the stage does not wait for
    /// changes nothing.
    pub open spec fn step(self, event: Event) -> ScraperView {
        match (self.stage, event) {
            (StageView::Connecting, Event::DatabaseConnected) => self.enter_registering(0),
            (StageView::Connecting, Event::Failed) => self.abort(StartupError::Database),
            (StageView::Registering { next }, Event::ChainDbOpened { db }) => self.register(next, db),
            (StageView::Registering { next }, Event::Failed) => self.abort(
                StartupError::ChainSetup { domain: self.chains_to_scrape[next as int].id },
            ),
            (StageView::Building { chain, step }, _) => self.build(chain, step, event),
            (StageView::Spawning { next }, Event::Spawned { handle }) => self.spawned(next, handle),
            _ => self,
        }
    }

    /// What a state asks the caller to do.
    pub open spec fn action(self) -> Action {
        match self.stage {
            StageView::Connecting => Action::ConnectDatabase,
            StageView::Registering { next } => {
                let conf = self.chains[self.chains_to_scrape[next as int].id];
                Action::OpenChainDb {
                    domain: self.chains_to_scrape[next as int].id,
                    mailbox: conf.mailbox,
                    index: conf.index,
                }
            },
            StageView::Building { chain, step } => {
                let domain = self.order[chain as int];
                let entry = self.scrapers[domain];
                match step {
                    BuildStep::Indexer(label) => Action::BuildIndexer {
                        domain,
                        label,
                        db: entry.db,
                    },
                    BuildStep::Sequence { .. } => Action::LookupLastSequence {
                        domain,
                        db: entry.db,
                    },
                    BuildStep::Cursor { label, engine, kind } => Action::BuildCursor {
                        domain,
                        label,
                        engine,
                        kind,
                        index: entry.index_settings,
                    },
                    BuildStep::Metrics => Action::BuildMetrics { domain },
                }
            },
            StageView::Spawning { next } => Action::Spawn {
                task: self.built[next as int],
                label: self.label_of(self.built[next as int]),
            },
            StageView::Running => Action::RunAll,
            StageView::Aborted(error) => Action::Abort(error),
        }
    }

    /// The running tasks of the chain `id`, in the order in which they were
    /// started.
    pub open spec fn tasks_of(self, id: u32) -> Seq<SpawnedTask> {
        self.tasks.filter(|task: SpawnedTask| task.domain == id)
    }

    /// Whether a task has been started or is about to be.
    pub open spec fn starting(self) -> bool {
        self.stage is Spawning || self.stage is Running
    }

    /// Whether the stage waits for something whose failure is fatal: the
    /// database, the set-up of a chain, a sync engine or a metrics reporter.
    pub open spec fn constructing(self) -> bool {
        match self.stage {
            StageView::Connecting => true,
            StageView::Registering { .. } => true,
            StageView::Building { step, .. } => step is Indexer || step is Metrics,
            _ => false,
        }
    }

    /// The state after a run of events, reported in this order.
    pub open spec fn after(self, events: Seq<Event>) -> ScraperView
        decreases events.len(),
    {
        if events.len() == 0 {
            self
        } else {
            self.step(events[0]).after(events.skip(1))
        }
    }

    /// The registry holds one entry for each identifier in `order`, which
    /// names none twice, and every entry is that of a configured chain.
    pub open spec fn registry_wf(self) -> bool {
        &&& self.order.no_duplicates()
        &&& forall|id: u32| #[trigger] self.scrapers.contains_key(id) <==> self.order.contains(id)
        &&& forall|id: u32| #[trigger]
            self.scrapers.contains_key(id) ==> {
                &&& self.scrapers[id].domain.id == id
                &&& self.chains.contains_key(id)
                &&& self.scrapers[id].index_settings == self.chains[id].index
                &&& self.chains_to_scrape.contains(self.scrapers[id].domain)
            }
    }

    /// Exactly the first `n` chains to scrape are registered.
    pub open spec fn registered(self, n: int) -> bool {
        forall|id: u32| #[trigger]
            self.scrapers.contains_key(id) <==> listed(self.chains_to_scrape, n, id)
    }

    /// `n` tasks are constructed: four for each chain, in the order of the
    /// registered chains, each kind in its place.
    pub open spec fn built_wf(self, n: int) -> bool {
        &&& self.built.len() == n
        &&& n <= 4 * self.order.len()
        &&& forall|j: int|
            0 <= j < self.built.len() ==> {
                &&& (#[trigger] self.built[j]).domain == self.order[j / 4]
                &&& self.built[j].kind() == TaskKind::at(j % 4)
            }
    }

    /// The tasks that run are the first of the constructed ones, each under
    /// its label.
    pub open spec fn tasks_wf(self, n: int) -> bool {
        &&& self.tasks.len() == n
        &&& n <= self.built.len()
        &&& forall|j: int|
            0 <= j < self.tasks.len() ==> {
                &&& (#[trigger] self.tasks[j]).domain == self.built[j].domain
                &&& self.tasks[j].label == self.label_of(self.built[j])
            }
    }

    /// What holds of every state that a start-up can reach.
    pub open spec fn inv(self) -> bool {
        &&& self.registry_wf()
        &&& match self.stage {
            StageView::Connecting => self.registered(0) && self.built_wf(0) && self.tasks_wf(0),
            StageView::Registering { next } => {
                &&& next < self.chains_to_scrape.len()
                &&& self.chains.contains_key(self.chains_to_scrape[next as int].id)
                &&& self.registered(next as int)
                &&& self.built_wf(0)
                &&& self.tasks_wf(0)
            },
            StageView::Building { chain, step } => {
                &&& chain < self.order.len()
                &&& step.wf()
                &&& self.registered(self.chains_to_scrape.len() as int)
                &&& self.built_wf(4 * chain + step.slot())
                &&& self.tasks_wf(0)
            },
            StageView::Spawning { next } => {
                &&& next < self.built.len()
                &&& self.registered(self.chains_to_scrape.len() as int)
                &&& self.built_wf(4 * self.order.len() as int)
                &&& self.tasks_wf(next as int)
            },
            StageView::Running => {
                &&& self.registered(self.chains_to_scrape.len() as int)
                &&& self.built_wf(4 * self.order.len() as int)
                &&& self.tasks_wf(4 * self.order.len() as int)
            },
            StageView::Aborted(_) => self.tasks_wf(0),
        }
    }
}

} // verus!
