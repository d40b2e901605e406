//! The resumable position scan: each invocation walks a bounded number of
//! positions of one collateral type, asks for liquidation or settlement
//! where due, and records where the next invocation resumes.
use crate::engine::CdpEngine;
use crate::fixed::Price;
use crate::traits::PriceProvider;
use crate::types::{AccountId, CurrencyId, Position};
use sp_runtime::traits::BlakeTwo256;
use sp_runtime::RandomNumberGenerator;
use vstd::prelude::*;

verus! {

/// Most positions examined by one invocation.
pub const MAX_ITERATIONS: u32 = 10000;

/// Lifetime of the scan lease, in milliseconds.
pub const LOCK_DURATION: u64 = 100;

/// Where a scanning agent's next invocation starts.
#[derive(Clone, Debug, PartialEq, Eq)]
pub struct ScanCheckpoint {
    /// Index of the collateral type being scanned.
    pub collateral_position: u32,
    /// Ledger key of the last position examined; `None` at the start of
    /// the collateral type's positions.
    pub resume_key: Option<Vec<u8>>,
}

/// The mathematical content of a checkpoint.
pub struct CheckpointModel {
    pub collateral_position: nat,
    pub resume_key: Option<Seq<u8>>,
}

impl ScanCheckpoint {
    pub open spec fn view(&self) -> CheckpointModel {
        CheckpointModel {
            collateral_position: self.collateral_position as nat,
            resume_key: match self.resume_key {
                Some(k) => Some(k@),
                None => None,
            },
        }
    }
}

/// A request that the scan hands on for admission.
#[derive(Clone, Copy, Debug, PartialEq, Eq, Structural)]
pub enum ScanRequest {
    Liquidate(CurrencyId, AccountId),
    Settle(CurrencyId, AccountId),
}

/// One position as the ledger yields it, with its key.
pub type ScanEntry = (AccountId, Position, Vec<u8>);

/// The node-side services that a scan uses.
pub trait PositionScanHost {
    /// Positions the walk over collateral type `c` after `start_key`, or at
    /// its first position when `start_key` is `None`, in ledger key order.
    fn start(&mut self, c: CurrencyId, start_key: &Option<Vec<u8>>);

    /// The next position of the walk, or `None` when there is none.
    fn next_entry(&mut self) -> Option<ScanEntry>;

    /// Extends the scan lease; `false` when it could not be extended.
    fn extend_lock(&mut self) -> bool;

    /// Hands a request on for admission.
    fn submit(&mut self, request: ScanRequest);
}

/// Index of the collateral type after `i` among `n`, wrapping to zero.
pub open spec fn next_position(i: nat, n: nat) -> nat {
    if i + 1 < n { i + 1 } else { 0 }
}

/// The checkpoint after an invocation at `collateral_position` that
/// reached the end of the positions, or else stopped after `last_key`.
pub open spec fn next_checkpoint_spec(collateral_position: nat, n: nat, finished: bool, last_key: Option<Seq<u8>>) -> CheckpointModel {
    if finished {
        CheckpointModel { collateral_position: next_position(collateral_position, n), resume_key: None }
    } else {
        CheckpointModel { collateral_position, resume_key: last_key }
    }
}

/// The checkpoint to persist after an invocation.
pub fn next_checkpoint(collateral_position: u32, n: usize, finished: bool, last_key: Option<Vec<u8>>) -> (r: ScanCheckpoint)
    requires
        collateral_position < n <= u32::MAX,
    ensures
        r@ == next_checkpoint_spec(collateral_position as nat, n as nat, finished, match last_key {
            Some(k) => Some(k@),
            None => None,
        }),
{
    if finished {
        let next: u32 = if (collateral_position as usize) + 1 < n { collateral_position + 1 } else { 0 };
        ScanCheckpoint { collateral_position: next, resume_key: None }
    } else {
        ScanCheckpoint { collateral_position, resume_key: last_key }
    }
}

/// The number at most `max` that a generator seeded from `seed` picks first.
pub uninterp spec fn seeded_pick(seed: Seq<u8>, max: u32) -> u32;

/// Relies on `sp_runtime::RandomNumberGenerator::<BlakeTwo256>`, seeded with
/// the `BlakeTwo256` hash of `seed`: `pick_u32(max)` returns a number at most
/// `max` that depends on `seed` and `max` alone (it computes `max + 1`).
#[verifier::external_body]
fn pick_start_position(seed: &Vec<u8>, max: u32) -> (r: u32)
    requires
        max < u32::MAX,
    ensures
        r == seeded_pick(seed@, max),
        r <= max,
{
    RandomNumberGenerator::<BlakeTwo256>::new(<BlakeTwo256 as sp_runtime::traits::Hash>::hash(&seed[..])).pick_u32(max)
}

/// Whether a stored checkpoint names one of `n` collateral types.
pub open spec fn usable(stored: Option<ScanCheckpoint>, n: nat) -> bool {
    match stored {
        Some(s) => s.collateral_position < n,
        None => false,
    }
}

/// Where an invocation starts: the stored checkpoint when it names a
/// collateral type among `n`, else the type `random_pick` at no key.
pub fn start_checkpoint(stored: Option<ScanCheckpoint>, random_pick: u32, n: usize) -> (r: ScanCheckpoint)
    requires
        n > 0,
    ensures
        r.collateral_position < n,
        usable(stored, n as nat) ==> Some(r) == stored,
        !usable(stored, n as nat) ==> r.resume_key is None && r.collateral_position == random_pick as int % n as int,
{
    match stored {
        Some(s) => {
            if (s.collateral_position as usize) < n {
                return s;
            }
        },
        None => {},
    }
    let pick = (random_pick as usize) % n;
    assert(pick <= random_pick) by (nonlinear_arith)
        requires
            pick == (random_pick as usize) % n,
            n > 0,
    ;
    ScanCheckpoint { collateral_position: pick as u32, resume_key: None }
}

/// The request due for one position: liquidation when the system runs and
/// the position is unsafe, settlement when it is shut down and there is debit.
pub open spec fn request_spec(
    engine: CdpEngine,
    c: CurrencyId,
    is_shutdown: bool,
    feed_price: Option<Price>,
    who: AccountId,
    position: Position,
) -> Option<ScanRequest> {
    if !is_shutdown && engine.unsafe_at(c, position.collateral, position.debit, feed_price) {
        Some(ScanRequest::Liquidate(c, who))
    } else if is_shutdown && position.debit != 0 {
        Some(ScanRequest::Settle(c, who))
    } else {
        None
    }
}

/// The requests due for the positions `visited`, in order.
pub open spec fn requests_spec(
    engine: CdpEngine,
    c: CurrencyId,
    is_shutdown: bool,
    feed_price: Option<Price>,
    visited: Seq<(AccountId, Position, Seq<u8>)>,
) -> Seq<ScanRequest>
    decreases visited.len(),
{
    if visited.len() == 0 {
        seq![]
    } else {
        let e = visited.last();
        let before = requests_spec(engine, c, is_shutdown, feed_price, visited.drop_last());
        match request_spec(engine, c, is_shutdown, feed_price, e.0, e.1) {
            Some(q) => before.push(q),
            None => before,
        }
    }
}

/// What one scan invocation did.
pub struct ScanOutcome {
    pub currency_id: CurrencyId,
    /// The oracle's price of the collateral type during the scan.
    pub feed_price: Option<Price>,
    /// The requests handed on, in order.
    pub requests: Vec<ScanRequest>,
    /// Number of positions examined.
    pub examined: usize,
    /// Whether the walk reached the end of the positions.
    pub finished: bool,
    /// The checkpoint to persist; `None` when the lease was lost.
    pub checkpoint: Option<ScanCheckpoint>,
    /// The positions examined, in order.
    pub visited: Ghost<Seq<(AccountId, Position, Seq<u8>)>>,
}

impl CdpEngine {
    /// What an invocation from `start` reports: the collateral type it
    /// names, at most `max_iterations` positions examined, the requests due
    /// for them, and, unless the lease was lost after some position, the
    /// checkpoint after them.
    pub open spec fn scan_reported(&self, start: CheckpointModel, is_shutdown: bool, max_iterations: u32, r: ScanOutcome) -> bool {
        &&& r.currency_id == self.config.collateral_currency_ids@[start.collateral_position as int]
        &&& r.examined == r.visited@.len()
        &&& r.examined <= max_iterations
        &&& r.finished ==> r.examined < max_iterations
        &&& !r.finished && r.checkpoint is Some ==> r.examined == max_iterations
        &&& r.checkpoint is None ==> !r.finished && r.examined > 0
        &&& r.requests@ == requests_spec(*self, r.currency_id, is_shutdown, r.feed_price, r.visited@)
        &&& r.checkpoint matches Some(ck) ==> ck@ == next_checkpoint_spec(
            start.collateral_position,
            self.config.collateral_currency_ids@.len() as nat,
            r.finished,
            if r.examined > 0 { Some(r.visited@.last().2) } else { start.resume_key },
        )
    }

    /// The request due for one position.
    pub fn scan_request(
        &self,
        c: CurrencyId,
        is_shutdown: bool,
        feed_price: Option<Price>,
        who: AccountId,
        position: Position,
    ) -> (r: Option<ScanRequest>)
        requires
            self.wf(),
        ensures
            r == request_spec(*self, c, is_shutdown, feed_price, who, position),
    {
        if !is_shutdown && self.is_cdp_unsafe(c, position.collateral, position.debit, feed_price) {
            Some(ScanRequest::Liquidate(c, who))
        } else if is_shutdown && position.debit != 0 {
            Some(ScanRequest::Settle(c, who))
        } else {
            None
        }
    }

    /// One invocation from `start`: walks at most `max_iterations` positions
    /// of the collateral type it names, hands on the requests due, extends
    /// the lease after each position and stops at once when that fails.
    pub fn scan_collateral<H: PositionScanHost + PriceProvider>(
        &self,
        host: &mut H,
        start: ScanCheckpoint,
        is_shutdown: bool,
        max_iterations: u32,
    ) -> (r: ScanOutcome)
        requires
            self.wf(),
            start.collateral_position < self.config.collateral_currency_ids@.len(),
        ensures
            self.scan_reported(start@, is_shutdown, max_iterations, r),
    {
        let n = self.config.collateral_currency_ids.len();
        let c = self.config.collateral_currency_ids[start.collateral_position as usize];
        let feed_price = host.get_relative_price(c, self.config.stable_currency_id);
        host.start(c, &start.resume_key);
        let mut requests: Vec<ScanRequest> = Vec::new();
        let mut examined: usize = 0;
        let mut finished = false;
        let mut last_key: Option<Vec<u8>> = start.resume_key;
        let ghost mut visited: Seq<(AccountId, Position, Seq<u8>)> = seq![];
        while examined < max_iterations as usize
            invariant_except_break
                !finished,
            invariant
                self.wf(),
                start.collateral_position < self.config.collateral_currency_ids@.len(),
                c == self.config.collateral_currency_ids@[start.collateral_position as int],
                n == self.config.collateral_currency_ids@.len(),
                examined == visited.len(),
                examined <= max_iterations,
                requests@ == requests_spec(*self, c, is_shutdown, feed_price, visited),
                match last_key {
                    Some(k) => Some(k@),
                    None => None,
                } == if examined > 0 { Some(visited.last().2) } else { start@.resume_key },
            ensures
                finished ==> examined < max_iterations,
                !finished ==> examined == max_iterations,
            decreases max_iterations - examined,
        {
            let entry = host.next_entry();
            match entry {
                None => {
                    finished = true;
                    break;
                },
                Some(e) => {
                    let (who, position, key) = e;
                    let ghost before = visited;
                    proof {
                        visited = visited.push((who, position, key@));
                        assert(visited.drop_last() =~= before);
                    }
                    match self.scan_request(c, is_shutdown, feed_price, who, position) {
                        Some(q) => {
                            host.submit(q);
                            requests.push(q);
                        },
                        None => {},
                    }
                    last_key = Some(key);
                    examined = examined + 1;
                    if !host.extend_lock() {
                        return ScanOutcome {
                            currency_id: c,
                            feed_price,
                            requests,
                            examined,
                            finished: false,
                            checkpoint: None,
                            visited: Ghost(visited),
                        };
                    }
                },
            }
        }
        let checkpoint = next_checkpoint(start.collateral_position, n, finished, last_key);
        ScanOutcome {
            currency_id: c,
            feed_price,
            requests,
            examined,
            finished,
            checkpoint: Some(checkpoint),
            visited: Ghost(visited),
        }
    }

    /// One scan invocation of an agent: nothing when no collateral type is
    /// configured; else from the stored checkpoint, or, when none is stored,
    /// from a collateral type picked with the period's `random_seed`, over
    /// at most `MAX_ITERATIONS` positions.
    pub fn offchain_scan<H: PositionScanHost + PriceProvider>(
        &self,
        host: &mut H,
        stored: Option<ScanCheckpoint>,
        random_seed: &Vec<u8>,
        is_shutdown: bool,
    ) -> (r: Option<ScanOutcome>)
        requires
            self.wf(),
        ensures
            r is None <==> self.config.collateral_currency_ids@.len() == 0,
            r is Some && usable(stored, self.config.collateral_currency_ids@.len()) ==> self.scan_reported(
                stored->Some_0@,
                is_shutdown,
                MAX_ITERATIONS,
                r->Some_0,
            ),
            r is Some && !usable(stored, self.config.collateral_currency_ids@.len()) ==> self.scan_reported(
                CheckpointModel {
                    collateral_position: seeded_pick(
                        random_seed@,
                        (self.config.collateral_currency_ids@.len() - 1) as u32,
                    ) as nat,
                    resume_key: None,
                },
                is_shutdown,
                MAX_ITERATIONS,
                r->Some_0,
            ),
    {
        let n = self.config.collateral_currency_ids.len();
        if n == 0 {
            return None;
        }
        let needs_pick = match &stored {
            Some(s) => (s.collateral_position as usize) >= n,
            None => true,
        };
        let pick: u32 = if needs_pick { pick_start_position(random_seed, (n - 1) as u32) } else { 0 };
        proof {
            if needs_pick {
                assert(pick as int % n as int == pick) by (nonlinear_arith)
                    requires
                        pick < n,
                ;
            }
        }
        let start = start_checkpoint(stored, pick, n);
        Some(self.scan_collateral(host, start, is_shutdown, MAX_ITERATIONS))
    }
}

} // verus!
