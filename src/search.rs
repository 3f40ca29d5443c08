use crate::keys::{address_text_of, keypair_bytes, new_keypair, public_address};
use crate::target::{has_suffix, Alternative, MatchTarget};
use solana_sdk::signer::keypair::Keypair;
use std::sync::atomic::{AtomicBool, AtomicU64, Ordering};
use std::sync::Arc;
use vstd::prelude::*;

verus! {

/// A candidate keypair, its 64 bytes (secret key, then public key) and the
/// address that is tested.
pub struct SearchOutcome {
    keypair: Keypair,
    secret: Vec<u8>,
    address: String,
}

/// The public-key half of a keypair's 64 bytes.
pub open spec fn public_half(secret: Seq<u8>) -> Seq<u8> {
    secret.subrange(32, 64)
}

/// The address that the bytes of a keypair give.
pub open spec fn derived_address(secret: Seq<u8>) -> Seq<char> {
    address_text_of(public_half(secret))
}

/// Bytes 32 to 64 of `secret`.
fn copy_public_half(secret: &Vec<u8>) -> (r: Vec<u8>)
    requires
        secret@.len() == 64,
    ensures
        r@ == public_half(secret@),
{
    let mut r: Vec<u8> = Vec::new();
    let mut i: usize = 32;
    while i < 64
        invariant
            32 <= i <= 64,
            secret@.len() == 64,
            r@ == secret@.subrange(32, i as int),
        decreases 64 - i,
    {
        r.push(secret[i]);
        assert(secret@.subrange(32, i + 1) =~= secret@.subrange(32, i as int).push(secret@[i as int]));
        i = i + 1;
    }
    r
}

impl SearchOutcome {
    /// The address that the candidate is tested under.
    pub closed spec fn spec_address(&self) -> Seq<char> {
        self.address@
    }

    /// The 64 bytes of the candidate's keypair.
    pub closed spec fn spec_secret(&self) -> Seq<u8> {
        self.secret@
    }

    pub closed spec fn spec_keypair(&self) -> Keypair {
        self.keypair
    }

    pub fn address(&self) -> (r: &String)
        ensures
            r@ == self.spec_address(),
    {
        &self.address
    }

    pub fn secret(&self) -> (r: &Vec<u8>)
        ensures
            r@ == self.spec_secret(),
    {
        &self.secret
    }

    pub fn keypair(&self) -> (r: &Keypair)
        ensures
            *r == self.spec_keypair(),
    {
        &self.keypair
    }

    /// A fresh random keypair with its bytes and the address derived from them.
    pub fn generate() -> (r: Self)
        ensures
            r.spec_secret().len() == 64,
            r.spec_address() == derived_address(r.spec_secret()),
    {
        let keypair = new_keypair();
        let secret = keypair_bytes(&keypair);
        let public = copy_public_half(&secret);
        let address = public_address(&public);
        SearchOutcome { keypair, secret, address }
    }

    /// A candidate that carries `keypair` and its bytes but is tested under
    /// the given `address`, as a scripted source hands it out.
    pub fn with_address(keypair: Keypair, address: String) -> (r: Self)
        ensures
            r.spec_keypair() == keypair,
            r.spec_address() == address@,
            r.spec_secret().len() == 64,
    {
        let secret = keypair_bytes(&keypair);
        SearchOutcome { keypair, secret, address }
    }
}

/// Where a worker takes its candidates from: fresh random keypairs, or a
/// fixed list handed out in order (for replays and for driving a search by
/// hand).
pub enum KeypairSource {
    Random,
    Scripted(Vec<SearchOutcome>),
}

/// How a call of `run_worker` ended; `tried` counts the candidates that the
/// call generated and tested.
pub enum WorkerExit {
    /// A candidate satisfied the target; the shared flag has been set.
    Found { outcome: SearchOutcome, alternative: Alternative, tried: u64 },
    /// The shared flag was seen set before the next candidate.
    Cancelled { tried: u64 },
    /// The call used up its allowance of attempts without a match.
    Paused { tried: u64 },
    /// The source had no candidate left.
    Drained { tried: u64 },
}

/// Why a search episode ended without a match.
#[derive(Clone, Copy, Debug, PartialEq, Eq, Structural)]
pub enum SearchError {
    /// Every worker stopped and none handed over a match.
    ExhaustedSearch,
}

/// The result of an episode from what its handoff slot received: the match,
/// or `ExhaustedSearch` when the slot was closed empty.
pub fn episode_result(received: Option<SearchOutcome>) -> (r: Result<SearchOutcome, SearchError>)
    ensures
        match received {
            Some(o) => r == Ok::<SearchOutcome, SearchError>(o),
            None => r == Err::<SearchOutcome, SearchError>(SearchError::ExhaustedSearch),
        },
{
    match received {
        Some(o) => Ok(o),
        None => Err(SearchError::ExhaustedSearch),
    }
}

/// No candidate among the first `k` of `cands` satisfies `target`.
pub open spec fn none_match(target: MatchTarget, cands: Seq<SearchOutcome>, k: int) -> bool {
    forall|j: int| 0 <= j < k ==> (#[trigger] target.spec_match(cands[j].spec_address())).is_none()
}

impl KeypairSource {
    /// Hands out the next candidate: a fresh one for `Random`, the first of the
    /// list for `Scripted`.
    pub fn next_candidate(&mut self) -> (r: Option<SearchOutcome>)
        ensures
            match *old(self) {
                KeypairSource::Random => {
                    &&& r is Some
                    &&& *final(self) is Random
                    &&& r->Some_0.spec_secret().len() == 64
                    &&& r->Some_0.spec_address() == derived_address(r->Some_0.spec_secret())
                },
                KeypairSource::Scripted(v) => if v@.len() == 0 {
                    r.is_none() && *final(self) == *old(self)
                } else {
                    r == Some(v@[0]) && *final(self) is Scripted
                        && final(self)->Scripted_0@ == v@.drop_first()
                },
            },
    {
        match self {
            KeypairSource::Random => Some(SearchOutcome::generate()),
            KeypairSource::Scripted(v) => {
                if v.len() == 0 {
                    None
                } else {
                    Some(v.remove(0))
                }
            },
        }
    }
}

/// What one step of a worker did.
pub enum Step {
    /// The stop flag was set: nothing was drawn.
    Cancelled,
    /// The source had no candidate left.
    Drained,
    /// A candidate was drawn and did not satisfy the target.
    Missed(SearchOutcome),
    /// A candidate was drawn and satisfied the target with this alternative.
    Found(SearchOutcome, Alternative),
}

/// The candidate that a step drew.
pub open spec fn step_candidate(r: Step) -> SearchOutcome
    recommends
        r is Missed || r is Found,
{
    match r {
        Step::Missed(c) => c,
        Step::Found(c, _) => c,
        _ => arbitrary(),
    }
}

/// `r` is the verdict of `target` on the drawn candidate `c`.
pub open spec fn judged(target: MatchTarget, c: SearchOutcome, r: Step) -> bool {
    match target.spec_match(c.spec_address()) {
        Some(alt) => r == Step::Found(c, alt),
        None => r == Step::Missed(c),
    }
}

/// One step of a worker, given whether the stop flag was seen set: when it
/// was, nothing is done; otherwise the next candidate is drawn from `source`
/// and tested against `target`.
pub fn worker_step(target: &MatchTarget, source: &mut KeypairSource, cancelled: bool) -> (r: Step)
    ensures
        cancelled ==> r is Cancelled && *final(source) == *old(source),
        !cancelled ==> match *old(source) {
            KeypairSource::Random => {
                &&& *final(source) is Random
                &&& (r is Missed || r is Found)
                &&& judged(*target, step_candidate(r), r)
                &&& step_candidate(r).spec_secret().len() == 64
                &&& step_candidate(r).spec_address() == derived_address(
                    step_candidate(r).spec_secret(),
                )
            },
            KeypairSource::Scripted(v) => if v@.len() == 0 {
                r is Drained && *final(source) == *old(source)
            } else {
                &&& *final(source) is Scripted
                &&& final(source)->Scripted_0@ == v@.drop_first()
                &&& judged(*target, v@[0], r)
            },
        },
{
    if cancelled {
        return Step::Cancelled;
    }
    match source.next_candidate() {
        None => Step::Drained,
        Some(outcome) => match target.evaluate(outcome.address().as_str()) {
            Some(alternative) => Step::Found(outcome, alternative),
            None => Step::Missed(outcome),
        },
    }
}

/// The search loop of one worker. Until the shared `found` flag is seen set,
/// it draws a candidate, adds one to the shared attempt counter and tests the
/// candidate; the first match sets `found` and is returned. It gives up after
/// `limit` attempts, so that its caller can report progress and call again.
/// A worker that searches alone has no flag (`None`): no one else can stop it.
pub fn run_worker(
    target: &MatchTarget,
    source: &mut KeypairSource,
    found: Option<&AtomicBool>,
    attempts: &AtomicU64,
    limit: u64,
) -> (r: WorkerExit)
    ensures
        match r {
            WorkerExit::Found { outcome, alternative, tried } => 1 <= tried <= limit
                && target.spec_match(outcome.spec_address()) == Some(alternative),
            WorkerExit::Cancelled { tried } => tried < limit,
            WorkerExit::Paused { tried } => tried == limit,
            WorkerExit::Drained { tried } => tried < limit && !(*old(source) is Random),
        },
        found is None ==> !(r is Cancelled),
        *old(source) is Random ==> *final(source) is Random,
        match *old(source) {
            KeypairSource::Random => r is Found ==> {
                &&& r->Found_outcome.spec_secret().len() == 64
                &&& r->Found_outcome.spec_address() == derived_address(
                    r->Found_outcome.spec_secret(),
                )
            },
            KeypairSource::Scripted(v) => {
                let n = match r {
                    WorkerExit::Found { tried, .. } => tried,
                    WorkerExit::Cancelled { tried } => tried,
                    WorkerExit::Paused { tried } => tried,
                    WorkerExit::Drained { tried } => tried,
                };
                &&& n <= v@.len()
                &&& *final(source) is Scripted
                &&& final(source)->Scripted_0@ == v@.skip(n as int)
                &&& (r is Drained ==> n == v@.len())
                &&& match r {
                    WorkerExit::Found { outcome, .. } => outcome == v@[n - 1] && none_match(
                        *target,
                        v@,
                        n - 1,
                    ),
                    _ => none_match(*target, v@, n as int),
                }
            },
        },
{
    let ghost script = if *source is Scripted {
        source->Scripted_0@
    } else {
        Seq::empty()
    };
    let ghost random = *source is Random;
    let mut tried: u64 = 0;
    while tried < limit
        invariant
            tried <= limit,
            random ==> *source is Random,
            !random ==> {
                &&& *source is Scripted
                &&& tried <= script.len()
                &&& source->Scripted_0@ == script.skip(tried as int)
                &&& none_match(*target, script, tried as int)
            },
            random == (*old(source) is Random),
            !random ==> old(source)->Scripted_0@ == script,
        decreases limit - tried,
    {
        let cancelled = match found {
            Some(flag) => flag.load(Ordering::Relaxed),
            None => false,
        };
        match worker_step(target, source, cancelled) {
            Step::Cancelled => {
                return WorkerExit::Cancelled { tried };
            },
            Step::Drained => {
                return WorkerExit::Drained { tried };
            },
            Step::Missed(outcome) => {
                attempts.fetch_add(1, Ordering::Relaxed);
                proof {
                    if !random {
                        assert(script.skip(tried as int).drop_first() =~= script.skip(tried + 1));
                    }
                }
                tried = tried + 1;
            },
            Step::Found(outcome, alternative) => {
                attempts.fetch_add(1, Ordering::Relaxed);
                proof {
                    if !random {
                        assert(script.skip(tried as int).drop_first() =~= script.skip(tried + 1));
                    }
                }
                tried = tried + 1;
                match found {
                    Some(flag) => flag.store(true, Ordering::Relaxed),
                    None => {},
                }
                return WorkerExit::Found { outcome, alternative, tried };
            },
        }
    }
    WorkerExit::Paused { tried }
}

/// A worker's match satisfies the target: its address ends with the suffix
/// of the alternative that it reports.
pub proof fn lemma_found_satisfies_target(target: MatchTarget, exit: WorkerExit)
    requires
        exit is Found,
        target.spec_match(exit->Found_outcome.spec_address()) == Some(exit->Found_alternative),
    ensures
        has_suffix(exit->Found_outcome.spec_address(), target.suffix_of(exit->Found_alternative)),
{
}

/// The state that the searches of one run share: the attempt counter, which
/// only ever grows, across every episode of the run.
pub struct AddressGenerator {
    attempts: Arc<AtomicU64>,
}

impl AddressGenerator {
    /// A generator whose counter starts at zero.
    pub fn new() -> (r: Self) {
        Self { attempts: Arc::new(AtomicU64::new(0)) }
    }

    /// The shared counter, for the workers of a search.
    pub fn counter(&self) -> &Arc<AtomicU64> {
        &self.attempts
    }

    /// The attempts counted so far.
    pub fn total_attempts(&self) -> u64 {
        self.attempts.load(Ordering::Relaxed)
    }
}

} // verus!
