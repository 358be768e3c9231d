//! The per-thread worker: generate a candidate, check it against the target
//! prefix, flush progress in batches, and stop — on a match of its own, or
//! within one batch of the stop flag being raised by another worker.

use vstd::prelude::*;
use core::sync::atomic::{AtomicBool, AtomicU64, Ordering};
use crate::alphabet::{hrp_prefix, starts_with, str_starts_with};
use crate::counter::{flush_batch, read_total};
use crate::host;
use crate::host::addr_of_wif;
use crate::plan::{BATCH_SIZE, REPORT_INTERVAL};
use crate::progress::{pow32_saturating, progress_line};

verus! {

/// One generated candidate: a private key in its standard serialization and
/// the derived address.
pub struct Candidate {
    pub wif: String,
    pub address: String,
}

/// Every candidate's address is the one its own private key derives — a
/// 42-character mainnet segwit address that begins with the fixed leading
/// segment.
pub open spec fn candidate_wf(c: Candidate) -> bool {
    &&& c.address@ == addr_of_wif(c.wif@)
    &&& c.address@.len() == 42
    &&& c.address@.subrange(0, 4) == hrp_prefix()
}

/// Draws one fresh random keypair and derives its address.
pub fn fresh_candidate() -> (c: Candidate)
    ensures
        candidate_wf(c),
{
    let (wif, address) = host::generate_candidate();
    Candidate { wif, address }
}

/// A worker's spawn-time configuration: its reporter role, the batching
/// discipline and the target prefix.
pub struct WorkerConfig {
    /// Whether this worker is the designated reporter.
    pub reporter: bool,
    /// Batch size: iterations buffered before a flush and a flag check.
    pub batch: u64,
    /// Flushes between two progress reports, so the reporting interval in
    /// iterations is `batch * report_batches`.
    pub report_batches: u64,
    /// The full target prefix a matching address must start with.
    pub prefix: String,
}

impl WorkerConfig {
    /// A usable configuration: positive intervals, and a prefix that begins
    /// with the fixed leading segment every generated address carries.
    pub open spec fn wf(self) -> bool {
        &&& 1 <= self.batch
        &&& 1 <= self.report_batches
        &&& starts_with(self.prefix@, hrp_prefix())
    }

    /// The standard configuration for `prefix`: a batch of 10000 iterations
    /// and a report every 100000.
    pub fn new(prefix: String, reporter: bool) -> (cfg: WorkerConfig)
        requires
            starts_with(prefix@, hrp_prefix()),
        ensures
            cfg.wf(),
            cfg.prefix == prefix,
            cfg.reporter == reporter,
            cfg.batch == BATCH_SIZE,
            cfg.batch * cfg.report_batches == REPORT_INTERVAL,
    {
        proof {
            assert(REPORT_INTERVAL / BATCH_SIZE == 10);
            assert(BATCH_SIZE * (REPORT_INTERVAL / BATCH_SIZE) == REPORT_INTERVAL);
        }
        WorkerConfig { reporter, batch: BATCH_SIZE, report_batches: REPORT_INTERVAL / BATCH_SIZE, prefix }
    }
}

/// Whether a worker still runs or has terminated its loop.
pub enum WorkerStatus {
    Running,
    Stopped,
}

/// The worker loop's state, as far as the shutdown discipline is concerned:
/// how far into the current batch it is, and whether it still runs.
pub struct LoopState {
    pub iter_in_batch: u64,
    pub status: WorkerStatus,
}

impl LoopState {
    /// The loop never rests exactly on a batch boundary: the boundary work
    /// happens within the iteration that reaches it.
    pub open spec fn wf(self, cfg: WorkerConfig) -> bool {
        self.iter_in_batch < cfg.batch
    }

    /// The state a worker starts in.
    pub open spec fn initial() -> LoopState {
        LoopState { iter_in_batch: 0, status: WorkerStatus::Running }
    }
}

/// One iteration of the worker loop, observed at the level of the shutdown
/// discipline: a candidate either matches or not, and at a batch boundary
/// the stop flag is read as `flag`. Off the boundary the flag is never read.
pub open spec fn loop_step(cfg: WorkerConfig, st: LoopState, flag: bool, matched: bool) -> LoopState
    recommends
        st.wf(cfg),
        st.status is Running,
{
    let at_boundary = st.iter_in_batch + 1 == cfg.batch;
    let next_iter = if at_boundary { 0 } else { (st.iter_in_batch + 1) as u64 };
    if at_boundary && flag {
        LoopState { iter_in_batch: 0, status: WorkerStatus::Stopped }
    } else if matched {
        LoopState { iter_in_batch: next_iter, status: WorkerStatus::Stopped }
    } else {
        LoopState { iter_in_batch: next_iter, status: WorkerStatus::Running }
    }
}

/// The loop state after a sequence of iterations; each event is the pair
/// (the stop flag as the worker would read it at a boundary, whether the
/// candidate matched). A stopped worker takes no further step.
pub open spec fn run_steps(cfg: WorkerConfig, st: LoopState, evs: Seq<(bool, bool)>) -> LoopState
    decreases evs.len(),
{
    if evs.len() == 0 || !(st.status is Running) {
        st
    } else {
        run_steps(cfg, loop_step(cfg, st, evs.first().0, evs.first().1), evs.drop_first())
    }
}

/// Law (bounded-latency shutdown): once the stop flag is raised — every read
/// of it yields true — a running worker stops within one batch interval:
/// after `cfg.batch - st.iter_in_batch` further iterations it has stopped,
/// whether or not any of its own candidates matches. It never runs past
/// that bound.
pub proof fn lemma_bounded_shutdown(cfg: WorkerConfig, st: LoopState, evs: Seq<(bool, bool)>)
    requires
        cfg.wf(),
        st.wf(cfg),
        st.status is Running,
        forall|i: int| 0 <= i < evs.len() ==> (#[trigger] evs[i]).0 == true,
        evs.len() >= cfg.batch - st.iter_in_batch,
    ensures
        run_steps(cfg, st, evs).status is Stopped,
    decreases evs.len(),
{
    assert(evs.len() >= 1);
    assert((evs[0]).0 == true);
    let st2 = loop_step(cfg, st, evs.first().0, evs.first().1);
    if st2.status is Running {
        assert(st2.iter_in_batch == st.iter_in_batch + 1);
        assert(forall|i: int|
            0 <= i < evs.drop_first().len() ==> (#[trigger] evs.drop_first()[i]).0 == true);
        lemma_bounded_shutdown(cfg, st2, evs.drop_first());
    } else {
        assert(run_steps(cfg, st2, evs.drop_first()) == st2);
    }
}

/// Law (no mid-batch shutdown): while no candidate of its own matches, a
/// running worker never stops strictly inside a batch: fewer iterations
/// than remain in the batch leave it running, whatever the flag holds in
/// between, with its batch position advanced accordingly.
pub proof fn lemma_no_midbatch_stop(cfg: WorkerConfig, st: LoopState, evs: Seq<(bool, bool)>)
    requires
        cfg.wf(),
        st.wf(cfg),
        st.status is Running,
        forall|i: int| 0 <= i < evs.len() ==> (#[trigger] evs[i]).1 == false,
        evs.len() < cfg.batch - st.iter_in_batch,
    ensures
        run_steps(cfg, st, evs).status is Running,
        run_steps(cfg, st, evs).iter_in_batch == st.iter_in_batch + evs.len(),
    decreases evs.len(),
{
    if evs.len() > 0 {
        let st2 = loop_step(cfg, st, evs.first().0, evs.first().1);
        lemma_no_midbatch_stop(cfg, st2, evs.drop_first());
    }
}

/// Builds the three lines of the result block for `c`: the literal header,
/// the private key serialization and the address.
pub fn result_block(c: &Candidate) -> (lines: (String, String, String))
    ensures
        lines.0@ == "result:"@,
        lines.1@ == "privkey:\t"@ + c.wif@,
        lines.2@ == "address:\t"@ + c.address@,
{
    let header = String::from_str("result:");
    let mut key_line = String::from_str("privkey:\t");
    key_line.append(c.wif.as_str());
    let mut addr_line = String::from_str("address:\t");
    addr_line.append(c.address.as_str());
    (header, key_line, addr_line)
}

/// Prints the result block for `c`.
fn announce(c: &Candidate) {
    let (header, key_line, addr_line) = result_block(c);
    host::print_line(header.as_str());
    host::print_line(key_line.as_str());
    host::print_line(addr_line.as_str());
}

/// One worker: generates and checks candidates until its own candidate
/// matches the target prefix — announced, the stop flag raised, and the
/// candidate returned — or until it observes the stop flag at a batch
/// boundary and returns `None`. Progress is flushed to the shared counter
/// one whole batch at a time, and the designated reporter prints a progress
/// line every reporting interval. The loop carries a fuel of 2^64
/// iterations so that its termination is provable; centuries beyond any
/// feasible run, the worker would give up and return `None`.
pub fn run_worker(cfg: &WorkerConfig, counter: &AtomicU64, flag: &AtomicBool) -> (found: Option<
    Candidate,
>)
    requires
        cfg.wf(),
    ensures
        found matches Some(c) ==> candidate_wf(c) && starts_with(c.address@, cfg.prefix@),
{
    let start_ms = host::now_millis();
    let free_chars = cfg.prefix.as_str().unicode_len() - 4;
    let space = pow32_saturating(free_chars);
    let mut iter_in_batch: u64 = 0;
    let mut flushes: u64 = 0;
    let mut fuel: u64 = u64::MAX;
    let ghost mut model = LoopState::initial();
    loop
        invariant
            cfg.wf(),
            iter_in_batch < cfg.batch,
            flushes < cfg.report_batches,
            space >= 1,
            model.status is Running,
            model.iter_in_batch == iter_in_batch,
        decreases fuel,
    {
        if fuel == 0 {
            return None;
        }
        fuel = fuel - 1;
        let cand = fresh_candidate();
        let matched = str_starts_with(cand.address.as_str(), cfg.prefix.as_str());
        let at_boundary = iter_in_batch + 1 == cfg.batch;
        let flag_seen = if at_boundary {
            flag.load(Ordering::SeqCst)
        } else {
            false
        };
        proof {
            model = loop_step(*cfg, model, flag_seen, matched);
        }
        if at_boundary && flag_seen {
            assert(model.status is Stopped);
            return None;
        }
        iter_in_batch = if at_boundary {
            0
        } else {
            iter_in_batch + 1
        };
        if at_boundary {
            flush_batch(counter, cfg.batch);
            flushes = flushes + 1;
            if flushes == cfg.report_batches {
                flushes = 0;
                if cfg.reporter {
                    let now = host::now_millis();
                    let elapsed = if now >= start_ms {
                        now - start_ms
                    } else {
                        0
                    };
                    let total = read_total(counter);
                    match progress_line(total, elapsed, space) {
                        Some(line) => host::print_line(line.as_str()),
                        None => {},
                    }
                }
            }
        }
        if matched {
            announce(&cand);
            flag.store(true, Ordering::SeqCst);
            assert(model.status is Stopped);
            return Some(cand);
        }
    }
}

} // verus!
