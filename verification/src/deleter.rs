//! Bulk deletion: the batch-size guard, per-request outcome
//! accounting, and the progress counter.  The HTTP exchanges themselves
//! happen outside the library; what each exchange observed comes back
//! in as a plain `HttpReply`, and this module turns the replies into
//! outcomes.

use vstd::prelude::*;

verus! {

/// The remote service's documented hourly quota of deletion requests,
/// used as the default maximum batch size.
pub const MAX_BATCH_SIZE: usize = 1250;

/// Rate-limit metadata reported by the remote service, kept verbatim
/// as strings.
pub struct RateLimit {
    pub remaining: String,
    pub limit: String,
    pub reset: String,
}

/// Mathematical image of `RateLimit`.
pub ghost struct RateLimitView {
    pub remaining: Seq<char>,
    pub limit: Seq<char>,
    pub reset: Seq<char>,
}

impl View for RateLimit {
    type V = RateLimitView;

    open spec fn view(&self) -> RateLimitView {
        RateLimitView {
            remaining: self.remaining@,
            limit: self.limit@,
            reset: self.reset@,
        }
    }
}

/// What one deletion exchange observed: either an HTTP status with the
/// optional rate-limit headers, or a transport failure before any
/// status arrived.
pub enum HttpReply {
    Status {
        code: u16,
        remaining: Option<String>,
        limit: Option<String>,
        reset: Option<String>,
    },
    Transport {
        message: String,
    },
}

/// Mathematical image of `HttpReply`.
pub ghost enum HttpReplyView {
    Status {
        code: u16,
        remaining: Option<Seq<char>>,
        limit: Option<Seq<char>>,
        reset: Option<Seq<char>>,
    },
    Transport {
        message: Seq<char>,
    },
}

impl View for HttpReply {
    type V = HttpReplyView;

    open spec fn view(&self) -> HttpReplyView {
        match self {
            HttpReply::Status { code, remaining, limit, reset } => HttpReplyView::Status {
                code: *code,
                remaining: crate::history::opt_str_view(*remaining),
                limit: crate::history::opt_str_view(*limit),
                reset: crate::history::opt_str_view(*reset),
            },
            HttpReply::Transport { message } => HttpReplyView::Transport { message: message@ },
        }
    }
}

/// The result of one deletion attempt.
pub struct DeletionOutcome {
    pub endpoint: String,
    pub succeeded: bool,
    pub status_code: Option<u16>,
    pub rate_limit: Option<RateLimit>,
    pub error: Option<String>,
}

/// Mathematical image of `DeletionOutcome`.
pub ghost struct DeletionOutcomeView {
    pub endpoint: Seq<char>,
    pub succeeded: bool,
    pub status_code: Option<u16>,
    pub rate_limit: Option<RateLimitView>,
    pub error: Option<Seq<char>>,
}

impl View for DeletionOutcome {
    type V = DeletionOutcomeView;

    open spec fn view(&self) -> DeletionOutcomeView {
        DeletionOutcomeView {
            endpoint: self.endpoint@,
            succeeded: self.succeeded,
            status_code: self.status_code,
            rate_limit: match self.rate_limit {
                Some(rl) => Some(rl@),
                None => None,
            },
            error: crate::history::opt_str_view(self.error),
        }
    }
}

/// An HTTP status counts as success exactly in the 2xx range.
pub open spec fn is_success_status(code: u16) -> bool {
    200 <= code < 300
}

/// The rate-limit triple carried by a reply: populated exactly when
/// all three headers were present.
pub open spec fn rate_limit_of(
    remaining: Option<Seq<char>>,
    limit: Option<Seq<char>>,
    reset: Option<Seq<char>>,
) -> Option<RateLimitView> {
    match (remaining, limit, reset) {
        (Some(a), Some(b), Some(c)) => Some(RateLimitView { remaining: a, limit: b, reset: c }),
        _ => None,
    }
}

/// The outcome one endpoint's reply determines: success exactly on a
/// 2xx status; any other status, or a transport failure, is a recorded
/// failure that never aborts the batch.
pub open spec fn outcome_of(endpoint: Seq<char>, reply: HttpReplyView) -> DeletionOutcomeView {
    match reply {
        HttpReplyView::Status { code, remaining, limit, reset } => DeletionOutcomeView {
            endpoint: endpoint,
            succeeded: is_success_status(code),
            status_code: Some(code),
            rate_limit: rate_limit_of(remaining, limit, reset),
            error: None,
        },
        HttpReplyView::Transport { message } => DeletionOutcomeView {
            endpoint: endpoint,
            succeeded: false,
            status_code: None,
            rate_limit: None,
            error: Some(message),
        },
    }
}

/// What the deleter decides to do with a batch before any request is
/// sent.
pub enum BatchPlan {
    /// Nothing to delete; no request is to be issued.
    EmptySelection,
    /// The batch exceeds the maximum; no request is to be issued.
    BatchTooLarge { limit: usize, attempted: usize },
    /// The batch may be dispatched as a whole.
    Proceed,
}

/// Plans and accounts for one bulk deletion run.
pub struct BulkDeleter {
    pub max_batch: usize,
}

impl BulkDeleter {
    /// A deleter with the remote service's documented batch limit.
    pub fn new() -> (d: BulkDeleter)
        ensures
            d.max_batch == MAX_BATCH_SIZE,
    {
        BulkDeleter { max_batch: MAX_BATCH_SIZE }
    }

    /// A deleter with an explicit batch limit.
    pub fn with_max_batch(max_batch: usize) -> (d: BulkDeleter)
        ensures
            d.max_batch == max_batch,
    {
        BulkDeleter { max_batch }
    }

    /// The guard that runs before any network activity: an empty batch
    /// is nothing to do, an oversized batch is refused whole, and only
    /// a batch within the limit proceeds.
    pub fn plan(&self, endpoints: &Vec<String>) -> (p: BatchPlan)
        ensures
            endpoints@.len() == 0 ==> p is EmptySelection,
            endpoints@.len() > self.max_batch ==> (p matches BatchPlan::BatchTooLarge {
                limit,
                attempted,
            } && limit == self.max_batch && attempted == endpoints@.len()),
            0 < endpoints@.len() <= self.max_batch ==> p is Proceed,
    {
        if endpoints.len() == 0 {
            BatchPlan::EmptySelection
        } else if endpoints.len() > self.max_batch {
            BatchPlan::BatchTooLarge { limit: self.max_batch, attempted: endpoints.len() }
        } else {
            BatchPlan::Proceed
        }
    }

    /// Builds the outcome of one completed exchange.
    pub fn outcome(&self, endpoint: String, reply: HttpReply) -> (o: DeletionOutcome)
        ensures
            o@ == outcome_of(endpoint@, reply@),
    {
        match reply {
            HttpReply::Status { code, remaining, limit, reset } => {
                let rate_limit = match (remaining, limit, reset) {
                    (Some(a), Some(b), Some(c)) => Some(
                        RateLimit { remaining: a, limit: b, reset: c },
                    ),
                    _ => None,
                };
                DeletionOutcome {
                    endpoint,
                    succeeded: 200 <= code && code < 300,
                    status_code: Some(code),
                    rate_limit,
                    error: None,
                }
            },
            HttpReply::Transport { message } => DeletionOutcome {
                endpoint,
                succeeded: false,
                status_code: None,
                rate_limit: None,
                error: Some(message),
            },
        }
    }

    /// Pairs every endpoint of a batch with what its exchange observed
    /// and returns one outcome per endpoint, in batch order.  One
    /// failing deletion never disturbs the others' outcomes.
    pub fn collect_outcomes(&self, endpoints: Vec<String>, replies: Vec<HttpReply>) -> (outs: Vec<
        DeletionOutcome,
    >)
        requires
            endpoints@.len() == replies@.len(),
        ensures
            outs@.len() == endpoints@.len(),
            forall|i: int|
                0 <= i < outs@.len() ==> (#[trigger] outs@[i])@ == outcome_of(
                    endpoints@[i]@,
                    replies@[i]@,
                ),
    {
        let mut outs: Vec<DeletionOutcome> = Vec::new();
        let mut endpoints = endpoints;
        let mut replies = replies;
        let ghost eps = endpoints@;
        let ghost reps = replies@;
        let n = endpoints.len();
        let mut i: usize = 0;
        while i < n
            invariant
                i <= n,
                n == eps.len(),
                reps.len() == eps.len(),
                endpoints@ == eps.skip(i as int),
                replies@ == reps.skip(i as int),
                outs@.len() == i,
                forall|k: int|
                    0 <= k < i ==> (#[trigger] outs@[k])@ == outcome_of(eps[k]@, reps[k]@),
            decreases n - i,
        {
            let endpoint = endpoints.remove(0);
            let reply = replies.remove(0);
            proof {
                assert(eps.skip(i as int)[0] == eps[i as int]);
                assert(reps.skip(i as int)[0] == reps[i as int]);
                assert(eps.skip(i as int).skip(1) =~= eps.skip(i as int + 1));
                assert(reps.skip(i as int).skip(1) =~= reps.skip(i as int + 1));
            }
            let out = self.outcome(endpoint, reply);
            outs.push(out);
            i = i + 1;
        }
        outs
    }
}

/// How many outcomes of a run succeeded.
pub open spec fn succeeded_count(os: Seq<DeletionOutcomeView>) -> int
    decreases os.len(),
{
    if os.len() == 0 {
        0
    } else {
        succeeded_count(os.drop_last()) + if os.last().succeeded {
            1int
        } else {
            0int
        }
    }
}

/// The views of a sequence of outcomes.
pub open spec fn outcome_views(os: Seq<DeletionOutcome>) -> Seq<DeletionOutcomeView> {
    os.map_values(|o: DeletionOutcome| o@)
}

/// Counts the successful outcomes of a run.
pub fn count_succeeded(outcomes: &Vec<DeletionOutcome>) -> (n: usize)
    ensures
        n == succeeded_count(outcome_views(outcomes@)),
{
    let ghost ov = outcome_views(outcomes@);
    let mut n: usize = 0;
    let mut i: usize = 0;
    while i < outcomes.len()
        invariant
            i <= outcomes@.len(),
            ov == outcome_views(outcomes@),
            ov.len() == outcomes@.len(),
            forall|k: int| 0 <= k < outcomes@.len() ==> ov[k] == outcomes@[k]@,
            n <= i,
            n == succeeded_count(ov.take(i as int)),
        decreases outcomes@.len() - i,
    {
        proof {
            assert(ov.take(i as int + 1).drop_last() =~= ov.take(i as int));
            assert(ov.take(i as int + 1).last() == ov[i as int]);
        }
        if outcomes[i].succeeded {
            n = n + 1;
        }
        i = i + 1;
    }
    proof {
        assert(ov.take(outcomes@.len() as int) =~= ov);
    }
    n
}

/// The progress counter a run reports through: one tick per completed
/// request, never more ticks than requests, never a tick lost.
pub struct Progress {
    done: usize,
    total: usize,
}

impl Progress {
    /// How many requests have completed.
    pub closed spec fn spec_done(&self) -> int {
        self.done as int
    }

    /// How many requests the run dispatched.
    pub closed spec fn spec_total(&self) -> int {
        self.total as int
    }

    /// The counter never runs past the batch size.
    pub closed spec fn wf(&self) -> bool {
        self.done <= self.total
    }

    /// A fresh counter for a batch of the given size.
    pub fn new(total: usize) -> (p: Progress)
        ensures
            p.wf(),
            p.spec_done() == 0,
            p.spec_total() == total,
    {
        Progress { done: 0, total }
    }

    /// One request completed: the count rises by exactly one and the
    /// batch size stands.
    pub fn tick(&mut self)
        requires
            old(self).wf(),
            old(self).spec_done() < old(self).spec_total(),
        ensures
            final(self).wf(),
            final(self).spec_done() == old(self).spec_done() + 1,
            final(self).spec_total() == old(self).spec_total(),
    {
        self.done = self.done + 1;
    }

    /// The completed count, for reporting a tick to the caller.
    pub fn done(&self) -> (d: usize)
        ensures
            d == self.spec_done(),
    {
        self.done
    }

    /// The batch size the counter was made with.
    pub fn total(&self) -> (t: usize)
        ensures
            t == self.spec_total(),
    {
        self.total
    }

    /// The run is complete when every request has ticked.
    pub fn is_complete(&self) -> (b: bool)
        ensures
            b == (self.spec_done() == self.spec_total()),
    {
        self.done == self.total
    }
}

} // verus!
