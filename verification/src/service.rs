//! The service: the instruments, their latest sentiments, the market mood
//! and the parameters, with the transitions that the engine and the
//! broadcasters make on them.

use vstd::prelude::*;
use crate::broadcaster::Broadcaster;
use crate::config::SentimentConfig;
use crate::engine::{derive_sentiment, derived_sentiment};
use crate::mood::{MarketMood, next_mood};
use crate::noise::uniform_draws;
use crate::stock::{Stock, all_distinct, ids_of, instrument_ids, instrument_ports, ports_of};
use crate::store::SentimentStore;
use crate::units::SCALE;
use crate::wire::{encode_sentiment, payload_text};

verus! {

/// Why a service was not built.
#[derive(Debug, Clone, Copy, PartialEq, Eq, Structural)]
pub enum ServiceError {
    /// The volatility is zero or negative.
    NonPositiveVolatility,
    /// Two instruments share an id.
    DuplicateId,
    /// Two instruments share a port.
    DuplicatePort,
}

/// One periodic task that a running service consists of.
#[derive(Debug, Clone, Copy, PartialEq, Eq, Structural)]
pub enum Task {
    /// Advance the engine by one tick every `interval_ms` milliseconds.
    Engine { interval_ms: u32 },
    /// Run the broadcaster of one instrument.
    Broadcaster(Broadcaster),
}

/// The state of a service as contracts see it.
pub struct ServiceView {
    pub stocks: Seq<Stock>,
    pub config: SentimentConfig,
    pub mood: int,
    pub sentiments: Map<u64, int>,
}

impl ServiceView {
    /// The ids of the tracked instruments, in order.
    pub open spec fn ids(self) -> Seq<u64> {
        ids_of(self.stocks)
    }

    /// What a lookup of `id` yields: its latest sentiment, or the neutral
    /// 0.0 for an id that is not tracked.
    pub open spec fn sentiment(self, id: u64) -> int {
        if self.sentiments.contains_key(id) {
            self.sentiments[id]
        } else {
            0
        }
    }

    /// The parameters are usable, no id and no port occurs twice, a
    /// sentiment is held for the tracked ids and for no others, and the
    /// mood and every sentiment lie between -1.0 and 1.0.
    pub open spec fn is_valid(self) -> bool {
        &&& self.config.valid()
        &&& ids_of(self.stocks).no_duplicates()
        &&& ports_of(self.stocks).no_duplicates()
        &&& forall|id: u64| #[trigger] self.sentiments.contains_key(id) <==> self.ids().contains(id)
        &&& forall|id: u64|
            self.sentiments.contains_key(id) ==> -SCALE <= #[trigger] self.sentiments[id] <= SCALE
        &&& -SCALE <= self.mood <= SCALE
    }
}

/// The parameters that a service is built with: the given ones, or the
/// standard ones where none are given.
pub open spec fn effective_config(config: Option<SentimentConfig>) -> SentimentConfig {
    match config {
        Some(c) => c,
        None => SentimentConfig::standard(),
    }
}

/// Why no service can be built from `stocks` and `cfg`, if anything: a
/// volatility that is not positive, else an id that occurs twice, else a
/// port that occurs twice.
pub open spec fn rejection(stocks: Seq<Stock>, cfg: SentimentConfig) -> Option<ServiceError> {
    if !cfg.valid() {
        Some(ServiceError::NonPositiveVolatility)
    } else if !ids_of(stocks).no_duplicates() {
        Some(ServiceError::DuplicateId)
    } else if !ports_of(stocks).no_duplicates() {
        Some(ServiceError::DuplicatePort)
    } else {
        None
    }
}

/// The state of a new service: a neutral mood, and a neutral sentiment for
/// every instrument.
pub open spec fn initial_view(stocks: Seq<Stock>, cfg: SentimentConfig) -> ServiceView {
    ServiceView {
        stocks,
        config: cfg,
        mood: 0,
        sentiments: Map::new(|id: u64| ids_of(stocks).contains(id), |id: u64| 0int),
    }
}

/// The place of `id` in `ids`.
pub open spec fn slot_of(ids: Seq<u64>, id: u64) -> int {
    choose|i: int| 0 <= i < ids.len() && ids[i] == id
}

/// The state after one engine tick: the mood moves once, driven by the
/// standard-normal draw `normal`, and the instrument in place `i` gets a
/// new sentiment from the new mood and the uniform draw `uniforms[i]`.
pub open spec fn tick_view(v: ServiceView, normal: int, uniforms: Seq<i64>) -> ServiceView {
    let mood = next_mood(v.config, v.mood, normal);
    ServiceView {
        stocks: v.stocks,
        config: v.config,
        mood,
        sentiments: Map::new(
            |id: u64| v.ids().contains(id),
            |id: u64| derived_sentiment(v.config, mood, uniforms[slot_of(v.ids(), id)] as int),
        ),
    }
}

/// The draws that one tick consumes: one from the standard normal
/// distribution for the mood, and one uniform draw from -1.0 to 1.0 for
/// each instrument, in order.
#[derive(Debug, Clone, PartialEq, Eq)]
pub struct TickNoise {
    pub normal: i64,
    pub uniforms: Vec<i64>,
}

/// The state that `v` reaches by one tick for each entry of `noise`, in
/// order.
pub open spec fn replay(v: ServiceView, noise: Seq<TickNoise>) -> ServiceView
    decreases noise.len(),
{
    if noise.len() == 0 {
        v
    } else {
        tick_view(
            replay(v, noise.drop_last()),
            noise.last().normal as int,
            noise.last().uniforms@,
        )
    }
}

/// `uniforms` holds `count` draws, each from -1.0 up to, but not
/// including, 1.0.
pub open spec fn is_uniform_noise(uniforms: Seq<i64>, count: nat) -> bool {
    &&& uniforms.len() == count
    &&& forall|i: int| 0 <= i < count ==> -SCALE <= #[trigger] uniforms[i] < SCALE
}

/// The tasks that a running service consists of: the engine first, then
/// one broadcaster for each instrument, in order.
pub open spec fn launch_plan(stocks: Seq<Stock>, cfg: SentimentConfig) -> Seq<Task> {
    Seq::new(
        stocks.len() + 1,
        |i: int|
            if i == 0 {
                Task::Engine { interval_ms: cfg.tick_interval_ms }
            } else {
                Task::Broadcaster(
                    Broadcaster {
                        id: stocks[i - 1].id,
                        port: stocks[i - 1].sentiment_port,
                        interval_ms: cfg.broadcast_interval_ms,
                        ttl: cfg.multicast_ttl,
                    },
                )
            },
    )
}

/// A sentiment service: the tracked instruments, the latest sentiment of
/// each, the market mood and the parameters.
#[derive(Debug)]
pub struct SentimentService {
    stocks: Vec<Stock>,
    sentiments: SentimentStore,
    market_mood: MarketMood,
    config: SentimentConfig,
}

impl View for SentimentService {
    type V = ServiceView;

    closed spec fn view(&self) -> ServiceView {
        ServiceView {
            stocks: self.stocks@,
            config: self.config,
            mood: self.market_mood@,
            sentiments: Map::new(
                |id: u64| self.sentiments@.contains_key(id),
                |id: u64| self.sentiments@[id] as int,
            ),
        }
    }
}

impl SentimentService {
    /// The state is valid.
    pub open spec fn wf(&self) -> bool {
        self@.is_valid()
    }

    /// The view holds exactly what the store holds.
    proof fn lemma_view_of_store(&self)
        ensures
            forall|id: u64|
                #[trigger] self@.sentiments.contains_key(id) <==> self.sentiments@.contains_key(id),
            forall|id: u64|
                self.sentiments@.contains_key(id) ==> #[trigger] self@.sentiments[id]
                    == self.sentiments@[id] as int,
    {
    }

    /// Builds a service for `stocks` with the given parameters, or the
    /// standard ones. Fails when the volatility is not positive or when an
    /// id or a port occurs twice.
    pub fn new(stocks: Vec<Stock>, config: Option<SentimentConfig>) -> (r: Result<
        SentimentService,
        ServiceError,
    >)
        ensures
            match r {
                Ok(s) => {
                    &&& rejection(stocks@, effective_config(config)) is None
                    &&& s.wf()
                    &&& s@ == initial_view(stocks@, effective_config(config))
                },
                Err(e) => rejection(stocks@, effective_config(config)) == Some(e),
            },
    {
        let cfg: SentimentConfig = match config {
            Some(c) => c,
            None => SentimentConfig::default(),
        };
        if !cfg.is_valid() {
            return Err(ServiceError::NonPositiveVolatility);
        }
        let ids: Vec<u64> = instrument_ids(&stocks);
        if !all_distinct(&ids) {
            return Err(ServiceError::DuplicateId);
        }
        let ports: Vec<u64> = instrument_ports(&stocks);
        if !all_distinct(&ports) {
            return Err(ServiceError::DuplicatePort);
        }
        let sentiments: SentimentStore = SentimentStore::new(&ids);
        let service = SentimentService {
            stocks,
            sentiments,
            market_mood: MarketMood::new(),
            config: cfg,
        };
        assert(service@.sentiments =~= initial_view(stocks@, cfg).sentiments);
        Ok(service)
    }

    /// Lists the tasks to launch: the engine, then one broadcaster per
    /// instrument. Nothing is started here; the caller runs them.
    pub fn start(&self) -> (tasks: Vec<Task>)
        ensures
            tasks@ == launch_plan(self@.stocks, self@.config),
    {
        let mut tasks: Vec<Task> = Vec::new();
        tasks.push(Task::Engine { interval_ms: self.config.tick_interval_ms });
        let n: usize = self.stocks.len();
        let mut i: usize = 0;
        while i < n
            invariant
                i <= n,
                n == self.stocks.len(),
                tasks.len() == i + 1,
                forall|k: int|
                    0 <= k < i + 1 ==> tasks@[k] == launch_plan(self.stocks@, self.config)[k],
            decreases n - i,
        {
            tasks.push(
                Task::Broadcaster(
                    Broadcaster {
                        id: self.stocks[i].id,
                        port: self.stocks[i].sentiment_port,
                        interval_ms: self.config.broadcast_interval_ms,
                        ttl: self.config.multicast_ttl,
                    },
                ),
            );
            i += 1;
        }
        assert(tasks@ =~= launch_plan(self.stocks@, self.config));
        tasks
    }

    /// The latest sentiment of `stock_id`; the neutral 0.0 for an id that
    /// is not tracked.
    pub fn get_sentiment(&self, stock_id: u64) -> (r: i64)
        ensures
            r == self@.sentiment(stock_id),
            self.wf() ==> -SCALE <= r <= SCALE,
            self.wf() && !self@.ids().contains(stock_id) ==> r == 0,
    {
        self.sentiments.get(stock_id)
    }

    /// The text of the datagram that a broadcaster of `stock_id` sends
    /// now: its latest sentiment with six digits after the point.
    pub fn payload(&self, stock_id: u64) -> (text: Vec<u8>)
        ensures
            text@ == payload_text(self@.sentiment(stock_id)),
            self.wf() ==> -SCALE <= self@.sentiment(stock_id) <= SCALE,
    {
        encode_sentiment(self.sentiments.get(stock_id))
    }

    /// The current market mood.
    pub fn mood(&self) -> (r: i64)
        ensures
            r == self@.mood,
    {
        self.market_mood.value()
    }

    /// The tracked instruments, in order.
    pub fn stocks(&self) -> (r: &Vec<Stock>)
        ensures
            r@ == self@.stocks,
    {
        &self.stocks
    }

    /// The parameters of the service.
    pub fn config(&self) -> (r: SentimentConfig)
        ensures
            r == self@.config,
    {
        self.config
    }

    /// One engine tick with the given draws: `normal` from the standard
    /// normal distribution drives the mood, and `uniforms[i]`, from
    /// -1.0 to 1.0, is the noise of the instrument in place `i`.
    pub fn tick_with(&mut self, normal: i64, uniforms: &Vec<i64>)
        requires
            old(self).wf(),
            uniforms.len() == old(self)@.stocks.len(),
        ensures
            final(self).wf(),
            final(self)@ == tick_view(old(self)@, normal as int, uniforms@),
    {
        let cfg: SentimentConfig = self.config;
        let ghost ids = ids_of(self.stocks@);
        proof {
            self.lemma_view_of_store();
            assert(ids == self@.ids());
            assert forall|id: u64| self.sentiments@.contains_key(id) <==> ids.contains(id) by {
                assert(self@.sentiments.contains_key(id) <==> self@.ids().contains(id));
            }
            assert forall|id: u64| self.sentiments@.contains_key(id) implies -SCALE
                <= #[trigger] self.sentiments@[id] <= SCALE by {
                assert(self@.sentiments.contains_key(id));
                assert(-SCALE <= self@.sentiments[id] <= SCALE);
            }
        }
        let mood: i64 = self.market_mood.advance(&cfg, normal);
        let n: usize = self.stocks.len();
        let mut i: usize = 0;
        while i < n
            invariant
                i <= n,
                n == self.stocks.len(),
                n == uniforms.len(),
                self.stocks == old(self).stocks,
                self.config == old(self).config,
                cfg == self.config,
                self.market_mood@ == mood,
                ids == ids_of(self.stocks@),
                ids.no_duplicates(),
                forall|id: u64| self.sentiments@.contains_key(id) <==> ids.contains(id),
                forall|id: u64|
                    self.sentiments@.contains_key(id) ==> -SCALE <= #[trigger] self.sentiments@[id]
                        <= SCALE,
                forall|k: int|
                    0 <= k < i ==> #[trigger] self.sentiments@[ids[k]] == derived_sentiment(
                        cfg,
                        mood as int,
                        uniforms@[k] as int,
                    ),
            decreases n - i,
        {
            let id: u64 = self.stocks[i].id;
            let value: i64 = derive_sentiment(&cfg, mood, uniforms[i]);
            let ghost before = self.sentiments@;
            assert(ids[i as int] == id);
            assert(ids.contains(id));
            let written: bool = self.sentiments.set(id, value);
            assert(written);
            assert forall|k: int| 0 <= k < i + 1 implies #[trigger] self.sentiments@[ids[k]]
                == derived_sentiment(cfg, mood as int, uniforms@[k] as int) by {
                if k < i {
                    assert(ids[k] != ids[i as int]);
                    assert(before[ids[k]] == derived_sentiment(
                        cfg,
                        mood as int,
                        uniforms@[k] as int,
                    ));
                }
            }
            i += 1;
        }
        proof {
            self.lemma_view_of_store();
            let expected = tick_view(old(self)@, normal as int, uniforms@);
            assert forall|id: u64| ids.contains(id) implies self.sentiments@[id] as int
                == expected.sentiments[id] by {
                let k = slot_of(ids, id);
                assert(0 <= k < ids.len() && ids[k] == id);
                assert(self.sentiments@[ids[k]] == derived_sentiment(
                    cfg,
                    mood as int,
                    uniforms@[k] as int,
                ));
            }
            assert(self@.sentiments =~= expected.sentiments);
            assert forall|id: u64| self@.sentiments.contains_key(id) implies -SCALE
                <= #[trigger] self@.sentiments[id] <= SCALE by {
                assert(self.sentiments@.contains_key(id));
            }
        }
    }

    /// One tick with the given draws for each entry of `noise`, in order.
    pub fn run(&mut self, noise: &Vec<TickNoise>)
        requires
            old(self).wf(),
            forall|k: int|
                0 <= k < noise.len() ==> (#[trigger] noise@[k]).uniforms.len() == old(
                    self,
                )@.stocks.len(),
        ensures
            final(self).wf(),
            final(self)@ == replay(old(self)@, noise@),
    {
        let n: usize = noise.len();
        let mut k: usize = 0;
        while k < n
            invariant
                k <= n,
                n == noise.len(),
                self.wf(),
                self@.stocks == old(self)@.stocks,
                self@ == replay(old(self)@, noise@.take(k as int)),
                forall|j: int|
                    0 <= j < noise.len() ==> (#[trigger] noise@[j]).uniforms.len() == old(
                        self,
                    )@.stocks.len(),
            decreases n - k,
        {
            assert(noise@.take(k + 1).drop_last() =~= noise@.take(k as int));
            assert(noise@.take(k + 1).last() == noise@[k as int]);
            self.tick_with(noise[k].normal, &noise[k].uniforms);
            k += 1;
        }
        assert(noise@.take(n as int) =~= noise@);
    }

    /// One engine tick: `normal`, a draw from the standard normal
    /// distribution, drives the mood, and the noise of each instrument is
    /// drawn here.
    pub fn tick(&mut self, normal: i64)
        requires
            old(self).wf(),
        ensures
            final(self).wf(),
            exists|uniforms: Seq<i64>|
                is_uniform_noise(uniforms, old(self)@.stocks.len()) && final(self)@ == tick_view(
                    old(self)@,
                    normal as int,
                    uniforms,
                ),
    {
        let draws: Vec<i64> = uniform_draws(self.stocks.len());
        self.tick_with(normal, &draws);
        assert(is_uniform_noise(draws@, old(self)@.stocks.len()));
    }
}

} // verus!
