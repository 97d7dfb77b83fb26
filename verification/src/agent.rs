//! The scraper agent: the start-up machine, as the caller drives it.

use crate::cursor::{forward_cursor_start, CursorKind};
use crate::group::{TaskGroup, TaskGroupView};
use crate::model::{Action, BuildStep, ChainScraper, Event, ScraperView, Stage, StartupError};
use crate::laws::lemma_step_preserves_inv;
use crate::settings::ScraperSettings;
use crate::task::{BuiltTask, EventLabel, SpawnedTask, TaskBody, TaskLabel};
use std::collections::HashMap;
use vstd::prelude::*;

verus! {

/// What the agent holds while it starts. Between two steps of one
/// transition it need not be a state that a start-up can reach.
struct State {
    settings: ScraperSettings,
    scrapers: HashMap<u32, ChainScraper>,
    order: Vec<u32>,
    stage: Stage,
    built: Vec<BuiltTask>,
    tasks: Vec<SpawnedTask>,
}

impl View for State {
    type V = ScraperView;

    closed spec fn view(&self) -> ScraperView {
        ScraperView {
            chains_to_scrape: self.settings.chains_to_scrape@,
            chains: self.settings.chains@,
            scrapers: self.scrapers@,
            order: self.order@,
            stage: self.stage@,
            built: self.built@,
            tasks: self.tasks@,
        }
    }
}

impl State {
    fn at(self, stage: Stage) -> (next: State)
        ensures
            next@ == self@.at(stage@),
    {
        State { stage, ..self }
    }

    fn enter_spawning(self, next: usize) -> (after: State)
        ensures
            after@ == self@.enter_spawning(next as nat),
    {
        if next >= self.built.len() {
            self.at(Stage::Running)
        } else {
            self.at(Stage::Spawning { next })
        }
    }

    fn enter_building(self, chain: usize) -> (after: State)
        ensures
            after@ == self@.enter_building(chain as nat),
    {
        if chain >= self.order.len() {
            self.enter_spawning(0)
        } else {
            self.at(
                Stage::Building { chain, step: BuildStep::Indexer(EventLabel::MessageDispatch) },
            )
        }
    }

    fn enter_registering(self, next: usize) -> (after: State)
        ensures
            after@ == self@.enter_registering(next as nat),
    {
        if next >= self.settings.chains_to_scrape.len() {
            self.enter_building(0)
        } else {
            let id = self.settings.chains_to_scrape[next].id;
            if self.settings.chain_setup(id).is_none() {
                self.at(Stage::Aborted(StartupError::MissingChainConfig { domain: id }))
            } else {
                self.at(Stage::Registering { next })
            }
        }
    }

    fn register(self, next: usize, db: u64) -> (after: State)
        requires
            next < self@.chains_to_scrape.len(),
            self@.chains.contains_key(self@.chains_to_scrape[next as int].id),
        ensures
            after@ == self@.register(next as nat, db),
    {
        let mut state = self;
        let domain = state.settings.chains_to_scrape[next].clone();
        let id = domain.id;
        let index = state.settings.chain_setup(id).unwrap().index;
        if !state.scrapers.contains_key(&id) {
            state.order.push(id);
        }
        state.scrapers.insert(id, ChainScraper { index_settings: index, db, domain });
        assert(next < state.settings.chains_to_scrape.len());
        state.enter_registering(next + 1)
    }

    fn push_built(self, task: BuiltTask) -> (after: State)
        ensures
            after@ == self@.push_built(task),
    {
        let mut state = self;
        state.built.push(task);
        state
    }

    fn scrape(self, chain: usize, step: BuildStep, event: Event) -> (after: State)
        requires
            chain < self@.order.len(),
        ensures
            after@ == self@.scrape(chain as nat, step, event),
    {
        let domain = self.order[chain];
        match (step, event) {
            (BuildStep::Indexer(label), Event::IndexerBuilt { engine }) => {
                let then = if label.is_sequential() {
                    BuildStep::Sequence { label, engine }
                } else {
                    BuildStep::Cursor { label, engine, kind: CursorKind::RateLimited }
                };
                self.at(Stage::Building { chain, step: then })
            },
            (BuildStep::Indexer(label), Event::Failed) => self.at(
                Stage::Aborted(StartupError::Indexer { domain, label }),
            ),
            (BuildStep::Sequence { label, engine }, Event::LastSequence(last)) => {
                let kind = CursorKind::ForwardSequential { start: forward_cursor_start(last) };
                self.at(Stage::Building { chain, step: BuildStep::Cursor { label, engine, kind } })
            },
            (BuildStep::Sequence { label, engine }, Event::Failed) => {
                let kind = CursorKind::ForwardSequential { start: forward_cursor_start(None) };
                self.at(Stage::Building { chain, step: BuildStep::Cursor { label, engine, kind } })
            },
            (BuildStep::Cursor { label, engine, kind }, Event::CursorBuilt { cursor }) => {
                let then = match label {
                    EventLabel::MessageDispatch => BuildStep::Indexer(EventLabel::MessageDelivery),
                    EventLabel::MessageDelivery => BuildStep::Indexer(EventLabel::GasPayment),
                    EventLabel::GasPayment => BuildStep::Metrics,
                };
                self.push_built(
                    BuiltTask { domain, body: TaskBody::Sync { label, engine, cursor } },
                ).at(Stage::Building { chain, step: then })
            },
            _ => self,
        }
    }

    fn build(self, chain: usize, step: BuildStep, event: Event) -> (after: State)
        requires
            chain < self@.order.len(),
        ensures
            after@ == self@.build(chain as nat, step, event),
    {
        let domain = self.order[chain];
        assert(chain < self.order.len());
        match (step, event) {
            (BuildStep::Metrics, Event::MetricsBuilt { updater }) => self.push_built(
                BuiltTask { domain, body: TaskBody::Metrics { updater } },
            ).enter_building(chain + 1),
            (BuildStep::Metrics, Event::Failed) => self.at(
                Stage::Aborted(StartupError::Metrics { domain }),
            ),
            (BuildStep::Metrics, _) => self,
            _ => self.scrape(chain, step, event),
        }
    }

    fn label_of(&self, task: &BuiltTask) -> (label: TaskLabel)
        requires
            self@.scrapers.contains_key(task.domain),
        ensures
            label == self@.label_of(*task),
    {
        let entry = self.scrapers.get(&task.domain).unwrap();
        TaskLabel { chain: entry.domain.name.clone(), event: task.task_kind() }
    }

    fn spawned(self, next: usize, handle: u64) -> (after: State)
        requires
            next < self@.built.len(),
            self@.scrapers.contains_key(self@.built[next as int].domain),
        ensures
            after@ == self@.spawned(next as nat, handle),
    {
        let task = self.built[next];
        let label = self.label_of(&task);
        assert(next < self.built.len());
        let mut state = self;
        state.tasks.push(SpawnedTask { handle, domain: task.domain, label });
        state.enter_spawning(next + 1)
    }

    fn step(self, event: Event) -> (after: State)
        requires
            self@.inv(),
        ensures
            after@ == self@.step(event),
    {
        match (self.stage, event) {
            (Stage::Connecting, Event::DatabaseConnected) => self.enter_registering(0),
            (Stage::Connecting, Event::Failed) => self.at(Stage::Aborted(StartupError::Database)),
            (Stage::Registering { next }, Event::ChainDbOpened { db }) => self.register(next, db),
            (Stage::Registering { next }, Event::Failed) => {
                let domain = self.settings.chains_to_scrape[next].id;
                self.at(Stage::Aborted(StartupError::ChainSetup { domain }))
            },
            (Stage::Building { chain, step }, _) => self.build(chain, step, event),
            (Stage::Spawning { next }, Event::Spawned { handle }) => {
                proof {
                    lemma_task_is_registered(self@, next as int);
                }
                self.spawned(next, handle)
            },
            _ => self,
        }
    }

    fn action(&self) -> (action: Action)
        requires
            self@.inv(),
        ensures
            action == self@.action(),
    {
        match self.stage {
            Stage::Connecting => Action::ConnectDatabase,
            Stage::Registering { next } => {
                let domain = self.settings.chains_to_scrape[next].id;
                let conf = self.settings.chain_setup(domain).unwrap();
                Action::OpenChainDb { domain, mailbox: conf.mailbox, index: conf.index }
            },
            Stage::Building { chain, step } => {
                let domain = self.order[chain];
                assert(self@.order.contains(domain));
                let entry = self.scrapers.get(&domain).unwrap();
                match step {
                    BuildStep::Indexer(label) => Action::BuildIndexer {
                        domain,
                        label,
                        db: entry.db,
                    },
                    BuildStep::Sequence { .. } => Action::LookupLastSequence {
                        domain,
                        db: entry.db,
                    },
                    BuildStep::Cursor { label, engine, kind } => Action::BuildCursor {
                        domain,
                        label,
                        engine,
                        kind,
                        index: entry.index_settings,
                    },
                    BuildStep::Metrics => Action::BuildMetrics { domain },
                }
            },
            Stage::Spawning { next } => {
                proof {
                    lemma_task_is_registered(self@, next as int);
                }
                let task = self.built[next];
                Action::Spawn { task, label: self.label_of(&task) }
            },
            Stage::Running => Action::RunAll,
            Stage::Aborted(error) => Action::Abort(error),
        }
    }
}

/// The chain of a constructed task is registered.
proof fn lemma_task_is_registered(s: ScraperView, j: int)
    requires
        s.registry_wf(),
        s.built_wf(s.built.len() as int),
        0 <= j < s.built.len(),
    ensures
        s.scrapers.contains_key(s.built[j].domain),
{
    assert(s.built[j].domain == s.order[j / 4]);
    assert(s.order.contains(s.order[j / 4]));
}

/// The scraper agent while it starts.
pub struct Scraper {
    state: State,
}

impl View for Scraper {
    type V = ScraperView;

    closed spec fn view(&self) -> ScraperView {
        self.state@
    }
}

impl Scraper {
    #[verifier::type_invariant]
    spec fn inv(self) -> bool {
        self.state@.inv()
    }

    /// An agent that has done nothing yet.
    pub fn from_settings(settings: ScraperSettings) -> (agent: Scraper)
        ensures
            agent@ == ScraperView::init(settings.chains_to_scrape@, settings.chains@),
            agent@.inv(),
    {
        Scraper {
            state: State {
                settings,
                scrapers: HashMap::new(),
                order: Vec::new(),
                stage: Stage::Connecting,
                built: Vec::new(),
                tasks: Vec::new(),
            },
        }
    }

    /// The name under which the agent reports.
    pub fn agent_name() -> (name: &'static str)
        ensures
            name@ == "scraper"@,
    {
        "scraper"
    }

    /// What the caller is to do now.
    pub fn next_action(&self) -> (action: Action)
        ensures
            action == self@.action(),
            self@.inv(),
    {
        proof {
            use_type_invariant(self);
        }
        self.state.action()
    }

    /// Takes in what the caller reports.
    pub fn on_event(self, event: Event) -> (next: Scraper)
        ensures
            next@ == self@.step(event),
            next@.inv(),
    {
        proof {
            use_type_invariant(&self);
            lemma_step_preserves_inv(self@, event);
        }
        Scraper { state: self.state.step(event) }
    }

    /// How far the start-up has come.
    pub fn stage(&self) -> (stage: Stage)
        ensures
            stage@ == self@.stage,
    {
        self.state.stage
    }

    /// What is registered for the chain `id`.
    pub fn scraper(&self, id: u32) -> (entry: Option<&ChainScraper>)
        ensures
            entry == if self@.scrapers.contains_key(id) {
                Some(&self@.scrapers[id])
            } else {
                None
            },
    {
        self.state.scrapers.get(&id)
    }

    /// The group of the tasks, once all of them run.
    pub fn run(self) -> (group: Option<TaskGroup>)
        ensures
            self@.inv(),
            match group {
                Some(g) => self@.stage is Running && g@ == (TaskGroupView {
                    tasks: self@.tasks,
                    outcome: None,
                }),
                None => !(self@.stage is Running),
            },
    {
        proof {
            use_type_invariant(&self);
        }
        match self.state.stage {
            Stage::Running => Some(TaskGroup::run_all(self.state.tasks)),
            _ => None,
        }
    }
}

} // verus!
