//! The count-then-fill enumeration protocol of the library's list queries.
//!
//! A list query is a foreign function taking a count and a buffer. Called with
//! no buffer it writes the number of records it holds; called with a buffer of
//! `count` slots it fills them and writes back how many it wrote. The number of
//! records may grow between the two calls, and the second call then answers
//! `VK_INCOMPLETE`: the protocol starts over until a second call does not.
//!
//! The protocol is a step function here: it takes the request just made and
//! what the foreign function replied, and says which call to make next or what
//! the query returns. The caller makes the calls.
use vstd::prelude::*;

use crate::status::{bool32_is_true, ResultCode, INCOMPLETE, SUCCESS, TRUE};

verus! {

/// The next call to make to a list query.
#[derive(Clone, Copy, Debug, PartialEq, Eq, Structural)]
pub enum Request {
    /// Ask for the number of records: count 0 and no buffer.
    Count,
    /// Hand over a buffer of `capacity` slots, with the count set to `capacity`.
    Fill { capacity: u32 },
}

/// What a call to a list query reported.
#[derive(Debug)]
pub enum Reply<C> {
    /// The reply to `Request::Count`: the status and the count written back.
    Counted { status: ResultCode, count: u32 },
    /// The reply to `Request::Fill`: the status and the records written, as
    /// many as the count written back.
    Filled { status: ResultCode, records: C },
}

/// What to do after a reply: make another call, or return the query's result.
#[derive(Debug)]
pub enum Progress<C> {
    Call(Request),
    Finished(Result<C, ResultCode>),
}

impl<T> View for Reply<Vec<T>> {
    type V = Reply<Seq<T>>;

    open spec fn view(&self) -> Reply<Seq<T>> {
        match self {
            Reply::Counted { status, count } => Reply::Counted { status: *status, count: *count },
            Reply::Filled { status, records } => Reply::Filled { status: *status, records: records@ },
        }
    }
}

impl<T> View for Progress<Vec<T>> {
    type V = Progress<Seq<T>>;

    open spec fn view(&self) -> Progress<Seq<T>> {
        match self {
            Progress::Call(request) => Progress::Call(*request),
            Progress::Finished(Ok(records)) => Progress::Finished(Ok(records@)),
            Progress::Finished(Err(status)) => Progress::Finished(Err(*status)),
        }
    }
}

impl<T> View for Progress<(Vec<T>, bool)> {
    type V = Progress<(Seq<T>, bool)>;

    open spec fn view(&self) -> Progress<(Seq<T>, bool)> {
        match self {
            Progress::Call(request) => Progress::Call(*request),
            Progress::Finished(Ok((records, flag))) => Progress::Finished(Ok((records@, *flag))),
            Progress::Finished(Err(status)) => Progress::Finished(Err(*status)),
        }
    }
}

/// `reply` is of the kind that `request` asks for, and a filled buffer holds no
/// more records than it has slots.
pub open spec fn answers<T>(request: Request, reply: Reply<Seq<T>>) -> bool {
    match (request, reply) {
        (Request::Count, Reply::Counted { .. }) => true,
        (Request::Fill { capacity }, Reply::Filled { records, .. }) => records.len() <= capacity,
        _ => false,
    }
}

/// The protocol's decision on a reply. A count that did not succeed ends the
/// query with its status; a successful count asks for a buffer of exactly that
/// many slots. A fill answered with `VK_INCOMPLETE` starts over; a successful
/// one returns the records written; any other ends the query with its status.
pub open spec fn next_step<T>(reply: Reply<Seq<T>>) -> Progress<Seq<T>> {
    match reply {
        Reply::Counted { status, count } => if status.raw == SUCCESS {
            Progress::Call(Request::Fill { capacity: count })
        } else {
            Progress::Finished(Err(status))
        },
        Reply::Filled { status, records } => if status.raw == INCOMPLETE {
            Progress::Call(Request::Count)
        } else if status.raw == SUCCESS {
            Progress::Finished(Ok(records))
        } else {
            Progress::Finished(Err(status))
        },
    }
}

/// `next_step` for a query that also writes a `VkBool32` at each call: the
/// flag returned is the one written by the call that ended the query.
pub open spec fn next_step_with_flag<T>(reply: Reply<Seq<T>>, flag: u32) -> Progress<(Seq<T>, bool)> {
    match next_step(reply) {
        Progress::Call(request) => Progress::Call(request),
        Progress::Finished(Ok(records)) => Progress::Finished(Ok((records, flag == TRUE))),
        Progress::Finished(Err(status)) => Progress::Finished(Err(status)),
    }
}

/// Decides what follows `reply`, the answer to `request`.
pub fn read_all_step<T>(request: Request, reply: Reply<Vec<T>>) -> (r: Progress<Vec<T>>)
    requires
        answers(request, reply@),
    ensures
        r@ == next_step(reply@),
{
    match reply {
        Reply::Counted { status, count } => {
            match status.result() {
                Ok(()) => Progress::Call(Request::Fill { capacity: count }),
                Err(e) => Progress::Finished(Err(e)),
            }
        },
        Reply::Filled { status, records } => {
            if status.is_incomplete() {
                Progress::Call(Request::Count)
            } else {
                match status.result() {
                    Ok(()) => Progress::Finished(Ok(records)),
                    Err(e) => Progress::Finished(Err(e)),
                }
            }
        },
    }
}

/// Decides what follows `reply`, the answer to `request` of a query that also
/// wrote `flag`.
pub fn read_all_with_flag_step<T>(
    request: Request,
    reply: Reply<Vec<T>>,
    flag: u32,
) -> (r: Progress<(Vec<T>, bool)>)
    requires
        answers(request, reply@),
    ensures
        r@ == next_step_with_flag(reply@, flag),
{
    match read_all_step(request, reply) {
        Progress::Call(next) => Progress::Call(next),
        Progress::Finished(Ok(records)) => Progress::Finished(Ok((records, bool32_is_true(flag)))),
        Progress::Finished(Err(status)) => Progress::Finished(Err(status)),
    }
}

/// The reply of a list query that keeps to the convention: at its `call`-th
/// call (from 0) it holds `size(call)` records, the first ones of `items`. A
/// count succeeds with that number; a fill of a buffer too small for it writes
/// the buffer full and answers `VK_INCOMPLETE`, and any other fill writes them
/// all and succeeds.
pub open spec fn conforming_reply<T>(
    size: spec_fn(nat) -> u32,
    items: Seq<T>,
    call: nat,
    request: Request,
) -> Reply<Seq<T>> {
    match request {
        Request::Count => Reply::Counted { status: ResultCode { raw: SUCCESS }, count: size(call) },
        Request::Fill { capacity } => if size(call) > capacity {
            Reply::Filled { status: ResultCode { raw: INCOMPLETE }, records: items.take(capacity as int) }
        } else {
            Reply::Filled { status: ResultCode { raw: SUCCESS }, records: items.take(size(call) as int) }
        },
    }
}

/// The protocol run against such a query from its `call`-th call on, starting
/// with `request`, for at most `fuel` calls: the query's result and the number
/// of calls made since call 0, or `None` where `fuel` calls do not end it.
pub open spec fn run<T>(
    size: spec_fn(nat) -> u32,
    items: Seq<T>,
    call: nat,
    request: Request,
    fuel: nat,
) -> Option<(Result<Seq<T>, ResultCode>, nat)>
    decreases fuel,
{
    if fuel == 0 {
        None
    } else {
        match next_step(conforming_reply(size, items, call, request)) {
            Progress::Call(next) => run(size, items, call + 1, next, (fuel - 1) as nat),
            Progress::Finished(result) => Some((result, call + 1)),
        }
    }
}

/// `run` for a query that also writes `flag(call)` at its `call`-th call.
pub open spec fn run_with_flag<T>(
    size: spec_fn(nat) -> u32,
    items: Seq<T>,
    flag: spec_fn(nat) -> u32,
    call: nat,
    request: Request,
    fuel: nat,
) -> Option<(Result<(Seq<T>, bool), ResultCode>, nat)>
    decreases fuel,
{
    if fuel == 0 {
        None
    } else {
        match next_step_with_flag(conforming_reply(size, items, call, request), flag(call)) {
            Progress::Call(next) => run_with_flag(size, items, flag, call + 1, next, (fuel - 1) as nat),
            Progress::Finished(result) => Some((result, call + 1)),
        }
    }
}

/// A query whose number of records never changes is read in exactly two
/// calls, and all its records are returned.
pub proof fn lemma_stable_count_reads_in_two_calls<T>(
    size: spec_fn(nat) -> u32,
    items: Seq<T>,
    n: u32,
)
    requires
        forall|call: nat| #[trigger] size(call) == n,
        items.len() >= n,
    ensures
        run(size, items, 0, Request::Count, 2) == Some(
            (Ok::<Seq<T>, ResultCode>(items.take(n as int)), 2nat),
        ),
{
    assert(size(0) == n);
    assert(size(1) == n);
    reveal_with_fuel(run, 3);
}

/// The number of records at call `call` of a query that holds one record at its
/// first call and one more at each later call, up to `k`.
pub open spec fn growing_count(k: u32, call: nat) -> u32 {
    if call + 1 <= k {
        (call + 1) as u32
    } else {
        k
    }
}

/// A query whose number of records grows by one at every call, from 1 up to an
/// odd bound `k`, and stays there, is read in exactly `k + 1` calls, and the
/// `k` records it holds in the end are returned.
pub proof fn lemma_growing_count_reads_in_k_plus_one_calls<T>(
    size: spec_fn(nat) -> u32,
    items: Seq<T>,
    k: u32,
)
    requires
        forall|call: nat| #[trigger] size(call) == growing_count(k, call),
        k % 2 == 1,
        items.len() >= k,
    ensures
        run(size, items, 0, Request::Count, (k + 1) as nat) == Some(
            (Ok::<Seq<T>, ResultCode>(items.take(k as int)), (k + 1) as nat),
        ),
{
    lemma_growing_count_from(size, items, k, 0);
}

/// The rounds of `lemma_growing_count_reads_in_k_plus_one_calls` from the
/// count at call `2 * round` on.
proof fn lemma_growing_count_from<T>(size: spec_fn(nat) -> u32, items: Seq<T>, k: u32, round: nat)
    requires
        forall|call: nat| #[trigger] size(call) == growing_count(k, call),
        k % 2 == 1,
        items.len() >= k,
        2 * round + 1 <= k,
    ensures
        run(size, items, 2 * round, Request::Count, (k + 1 - 2 * round) as nat) == Some(
            (Ok::<Seq<T>, ResultCode>(items.take(k as int)), (k + 1) as nat),
        ),
    decreases k - 2 * round,
{
    let call = 2 * round;
    let fuel = (k + 1 - call) as nat;
    assert(size(call) == growing_count(k, call));
    assert(size(call + 1) == growing_count(k, call + 1));
    reveal_with_fuel(run, 2);
    if call + 1 < k {
        lemma_growing_count_from(size, items, k, round + 1);
        assert(run(size, items, call, Request::Count, fuel) == run(
            size,
            items,
            call + 2,
            Request::Count,
            (fuel - 2) as nat,
        ));
    } else {
        assert(call + 1 == k);
    }
}

/// The flag that a query returns is the one written by the call that ended
/// it, whatever earlier calls wrote; and its records are those of `run`.
pub proof fn lemma_flag_of_final_call<T>(
    size: spec_fn(nat) -> u32,
    items: Seq<T>,
    flag: spec_fn(nat) -> u32,
    call: nat,
    request: Request,
    fuel: nat,
)
    ensures
        match run_with_flag(size, items, flag, call, request, fuel) {
            Some((Ok((records, supported)), calls)) => calls >= 1 && supported == (flag(
                (calls - 1) as nat,
            ) == TRUE) && run(size, items, call, request, fuel) == Some(
                (Ok::<Seq<T>, ResultCode>(records), calls),
            ),
            Some((Err(status), calls)) => run(size, items, call, request, fuel) == Some(
                (Err::<Seq<T>, ResultCode>(status), calls),
            ),
            None => run(size, items, call, request, fuel) is None,
        },
    decreases fuel,
{
    if fuel > 0 {
        match next_step(conforming_reply(size, items, call, request)) {
            Progress::Call(next) => {
                lemma_flag_of_final_call(size, items, flag, call + 1, next, (fuel - 1) as nat);
            },
            Progress::Finished(_) => {},
        }
    }
}

} // verus!
