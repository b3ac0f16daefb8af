//! One run: select a record, fetch its image, compose the post, submit it,
//! record what became of it.
//!
//! The run is a state machine. The caller performs each action that the
//! machine asks for and reports the answer as an event; the machine decides
//! what follows.

use vstd::prelude::*;
use bytes::Bytes;
use crate::cli::Cli;
use crate::fetch::{bytes_of, download_image, size_accepted, Transport};
use crate::post::{fetch_failure, generate_post, post_of, Post};
use crate::store::{has_pending, is_next_pending, swept, written, Index, RowView};
use crate::types::{Image, Status};

verus! {

/// How the posting gateway answered.
#[derive(Debug, Copy, Clone, PartialEq, Eq, Structural)]
pub enum Gateway {
    /// The gateway did not accept the credentials.
    AuthError,
    /// The gateway did not accept the post.
    SubmitError,
    /// The post is published.
    Ack,
}

impl Gateway {
    /// The status that a record gets for this answer. The two ways of
    /// failing are one status.
    pub open spec fn spec_status(self) -> Status {
        match self {
            Gateway::Ack => Status::Success,
            _ => Status::PostFail,
        }
    }

    /// The status that a record gets for this answer.
    pub fn status(self) -> (status: Status)
        ensures
            status == self.spec_status(),
    {
        match self {
            Gateway::Ack => Status::Success,
            Gateway::AuthError => Status::PostFail,
            Gateway::SubmitError => Status::PostFail,
        }
    }
}

/// Where a run stands.
#[derive(Debug)]
pub enum Phase {
    /// The index was asked for a pending record. `swept` says whether the
    /// sweep has run already.
    Selecting { args: Cli, swept: bool },
    /// The index was asked to sweep.
    Resetting { args: Cli },
    /// The image of `image` was asked for.
    Fetching { image: Image, args: Cli },
    /// The post of record `id` was handed to the gateway.
    Submitting { id: u64 },
    /// The index was asked to write `status` to record `id`.
    Recording { id: u64, status: Status },
    /// The run is over: `status` was written to record `id`, in `rows` rows.
    Done { id: u64, status: Status, rows: usize },
    /// The run is over and failed: nothing was pending even after the sweep.
    Exhausted,
    /// The run is over and failed: an event came that the phase did not wait
    /// for.
    Aborted,
}

/// What the caller reports back.
#[derive(Debug)]
pub enum Event {
    /// The answer of the index to `Action::Select`.
    Selected(Option<Image>),
    /// The answer of the index to `Action::Sweep`: the number of rows it
    /// applied to.
    Swept(usize),
    /// The end of the download asked for by `Action::Fetch`.
    Fetched(Transport),
    /// The answer of the gateway to `Action::Submit`.
    Submitted(Gateway),
    /// The answer of the index to `Action::Record`: the number of rows
    /// written.
    Recorded(usize),
}

/// What the caller is to do next.
#[derive(Debug)]
pub enum Action {
    /// Ask the index for a pending record.
    Select,
    /// Ask the index to sweep.
    Sweep,
    /// Download the image at `url`.
    Fetch { url: String },
    /// Sign in to the gateway and submit `post`.
    Submit { post: Post },
    /// Write `status` to record `id`.
    Record { id: u64, status: Status },
    /// Stop: the run is over.
    Finish,
    /// Stop and report a failure.
    Fail,
}

impl Phase {
    /// Whether the run is over.
    pub open spec fn is_final(self) -> bool {
        self is Done || self is Exhausted || self is Aborted
    }

    /// An upper bound on the number of events that a run in this phase still
    /// takes before it is over.
    pub open spec fn steps_left(self) -> nat {
        match self {
            Phase::Selecting { args, swept } => if swept {
                4
            } else {
                6
            },
            Phase::Resetting { args } => 5,
            Phase::Fetching { image, args } => 3,
            Phase::Submitting { id } => 2,
            Phase::Recording { id, status } => 1,
            _ => 0,
        }
    }

    /// The action that a run in this phase has asked for.
    pub open spec fn awaits(self, action: Action) -> bool {
        match self {
            Phase::Selecting { args, swept } => action == Action::Select,
            Phase::Resetting { args } => action == Action::Sweep,
            Phase::Fetching { image, args } => action is Fetch && action->url@ == image.image_url@,
            Phase::Submitting { id } => action is Submit,
            Phase::Recording { id, status } => action == (Action::Record { id: id, status: status }),
            Phase::Done { id, status, rows } => action == Action::Finish,
            Phase::Exhausted => action == Action::Fail,
            Phase::Aborted => action == Action::Fail,
        }
    }

    /// The identifier of the record that the run is working on, once it has
    /// one.
    pub open spec fn record_id(self) -> Option<u64> {
        match self {
            Phase::Fetching { image, args } => Some(image.id),
            Phase::Submitting { id } => Some(id),
            Phase::Recording { id, status } => Some(id),
            Phase::Done { id, status, rows } => Some(id),
            _ => None,
        }
    }
}

/// The status that a run writes, given how the download ended and what the
/// gateway would answer. A download that fails, or an image of the wrong
/// size, decides the status alone: the gateway is not asked.
pub open spec fn outcome(response: Transport, gateway: Gateway) -> Status {
    match fetch_failure(fetched_of(response)) {
        Some(status) => status,
        None => gateway.spec_status(),
    }
}

/// What a download hands on: the accepted body, or `DownloadFail`.
pub open spec fn fetched_of(response: Transport) -> Result<Bytes, Status> {
    match response.accepted_body() {
        Some(buf) => Ok(buf),
        None => Err(Status::DownloadFail),
    }
}

/// The transitions of a run: from `phase`, on `event`, to `next`, asking for
/// `action`.
pub open spec fn transition(phase: Phase, event: Event, next: Phase, action: Action) -> bool {
    match (phase, event) {
        (Phase::Selecting { args, swept }, Event::Selected(Some(image))) => {
            &&& next == Phase::Fetching { image: image, args: args }
            &&& action is Fetch
            &&& action->url@ == image.image_url@
        },
        (Phase::Selecting { args, swept }, Event::Selected(None)) => if swept {
            next == Phase::Exhausted && action == Action::Fail
        } else {
            next == (Phase::Resetting { args: args }) && action == Action::Sweep
        },
        (Phase::Resetting { args }, Event::Swept(_)) => {
            next == (Phase::Selecting { args: args, swept: true }) && action == Action::Select
        },
        (Phase::Fetching { image, args }, Event::Fetched(response)) => match fetch_failure(
            fetched_of(response),
        ) {
            Some(status) => {
                &&& next == (Phase::Recording { id: image.id, status: status })
                &&& action == (Action::Record { id: image.id, status: status })
            },
            None => {
                &&& next == (Phase::Submitting { id: image.id })
                &&& action is Submit
                &&& action->post@ == post_of(image, bytes_of(response.accepted_body()->Some_0), args)
            },
        },
        (Phase::Submitting { id }, Event::Submitted(gateway)) => {
            &&& next == (Phase::Recording { id: id, status: gateway.spec_status() })
            &&& action == (Action::Record { id: id, status: gateway.spec_status() })
        },
        (Phase::Recording { id, status }, Event::Recorded(rows)) => {
            &&& next == (Phase::Done { id: id, status: status, rows: rows })
            &&& action == Action::Finish
        },
        (Phase::Done { id, status, rows }, _) => next == phase && action == Action::Finish,
        (Phase::Exhausted, _) => next == Phase::Exhausted && action == Action::Fail,
        _ => next == Phase::Aborted && action == Action::Fail,
    }
}

/// Begins a run: the first thing to do is to ask the index for a pending
/// record.
pub fn start(args: Cli) -> (begun: (Phase, Action))
    ensures
        begun.0 == (Phase::Selecting { args: args, swept: false }),
        begun.1 == Action::Select,
{
    (Phase::Selecting { args, swept: false }, Action::Select)
}

/// Takes the answer to the last action and decides what follows.
///
/// A record that was found is fetched. Where none is pending the index is
/// swept and asked once more; where none is pending even then, the run
/// fails. A download that failed, or brought an image of the wrong size, is
/// recorded as such without asking the gateway; any other image is composed
/// into a post and submitted, and the gateway's answer is recorded. An event
/// that the phase did not wait for ends the run in `Aborted`.
pub fn step(phase: Phase, event: Event) -> (stepped: (Phase, Action))
    ensures
        transition(phase, event, stepped.0, stepped.1),
{
    match (phase, event) {
        (Phase::Selecting { args, swept }, Event::Selected(found)) => match found {
            Some(image) => {
                let url = image.image_url.clone();
                (Phase::Fetching { image, args }, Action::Fetch { url })
            },
            None => if swept {
                (Phase::Exhausted, Action::Fail)
            } else {
                (Phase::Resetting { args }, Action::Sweep)
            },
        },
        (Phase::Resetting { args }, Event::Swept(_)) => {
            (Phase::Selecting { args, swept: true }, Action::Select)
        },
        (Phase::Fetching { image, args }, Event::Fetched(response)) => {
            let id = image.id;
            match generate_post(&image, download_image(response), args) {
                Ok(post) => (Phase::Submitting { id }, Action::Submit { post }),
                Err(status) => (Phase::Recording { id, status }, Action::Record { id, status }),
            }
        },
        (Phase::Submitting { id }, Event::Submitted(gateway)) => {
            let status = gateway.status();
            (Phase::Recording { id, status }, Action::Record { id, status })
        },
        (Phase::Recording { id, status }, Event::Recorded(rows)) => {
            (Phase::Done { id, status, rows }, Action::Finish)
        },
        (Phase::Done { id, status, rows }, _) => (Phase::Done { id, status, rows }, Action::Finish),
        (Phase::Exhausted, _) => (Phase::Exhausted, Action::Fail),
        _ => (Phase::Aborted, Action::Fail),
    }
}

/// The rows that a run selects from: the index as it is where a row is
/// pending, and the swept index where none is.
pub open spec fn selection_base(rows: Seq<RowView>) -> Seq<RowView> {
    if has_pending(rows) {
        rows
    } else {
        swept(rows)
    }
}

/// Plays one whole run on `index`, with `response` as the end of the
/// download and `gateway` as the answer that the gateway gives if it is
/// asked.
///
/// The index is swept only where nothing is pending. Where nothing is
/// pending even then, the run ends in `Exhausted` and the swept index is all
/// that has changed. Otherwise the pending record of the lowest identifier
/// is processed and exactly one status is written, to that record: the
/// `outcome` of the download and the gateway's answer.
pub fn run_once(index: &mut Index, args: Cli, response: Transport, gateway: Gateway) -> (end:
    Phase)
    requires
        old(index).wf(),
    ensures
        final(index).wf(),
        !has_pending(selection_base(old(index)@)) ==> end == Phase::Exhausted && final(index)@
            == selection_base(old(index)@),
        has_pending(selection_base(old(index)@)) ==> exists|i: int| #[trigger]
            is_next_pending(selection_base(old(index)@), i) && final(index)@ == written(
                selection_base(old(index)@),
                selection_base(old(index)@)[i].id,
                outcome(response, gateway),
            ) && end == (Phase::Done {
                id: selection_base(old(index)@)[i].id,
                status: outcome(response, gateway),
                rows: 1,
            }),
{
    let (phase, action) = start(args);
    let found = index.next_pending();
    let (phase, action) = step(phase, Event::Selected(found));
    let (phase, action) = match action {
        Action::Sweep => {
            let count = index.reset_retryable();
            let (phase, _) = step(phase, Event::Swept(count));
            let found = index.next_pending();
            step(phase, Event::Selected(found))
        },
        _ => (phase, action),
    };
    let ghost base = index@;
    assert(base == selection_base(old(index)@));
    let (phase, action) = match action {
        Action::Fetch { url } => step(phase, Event::Fetched(response)),
        _ => {
            return phase;
        },
    };
    let ghost at = choose|i: int| #[trigger]
        is_next_pending(base, i) && phase.record_id() == Some(base[i].id);
    let (phase, action) = match action {
        Action::Submit { post } => step(phase, Event::Submitted(gateway)),
        _ => (phase, action),
    };
    match action {
        Action::Record { id, status } => {
            let rows = index.write_status(id, status);
            assert(base[at].id == id);
            let (phase, _) = step(phase, Event::Recorded(rows));
            phase
        },
        _ => phase,
    }
}

/// Every run ends: each event brings a run that is not over closer to its
/// end, and a run that is over stays as it is. No run takes more than six
/// events.
pub proof fn lemma_runs_end(phase: Phase, event: Event, next: Phase, action: Action)
    requires
        transition(phase, event, next, action),
    ensures
        !phase.is_final() ==> next.steps_left() < phase.steps_left(),
        phase.is_final() ==> next == phase,
        phase.is_final() <==> phase.steps_left() == 0,
        phase.steps_left() <= 6,
{
}

/// The action that a transition asks for is the one that its new phase
/// waits for, and a record once taken up is kept to the end of the run.
pub proof fn lemma_action_fits_phase(phase: Phase, event: Event, next: Phase, action: Action)
    requires
        transition(phase, event, next, action),
    ensures
        next.awaits(action),
        phase.record_id() is Some && !(next is Aborted) ==> next.record_id() == phase.record_id(),
{
}

/// A status is recorded only after the download and, where the image can be
/// posted, the gateway have answered; the status recorded is never
/// `Unposted`, so the record is not selected again before a sweep.
pub proof fn lemma_outcome_is_terminal(response: Transport, gateway: Gateway)
    ensures
        outcome(response, gateway) != Status::Unposted,
        outcome(response, gateway) == Status::Success <==> fetch_failure(fetched_of(response))
            is None && gateway == Gateway::Ack,
        outcome(response, gateway) == Status::PostFail <==> fetch_failure(fetched_of(response))
            is None && gateway != Gateway::Ack,
        outcome(response, gateway) == Status::DownloadFail <==> response.accepted_body() is None,
        outcome(response, gateway) == Status::ImageTooLarge <==> response.accepted_body() is Some
            && !size_accepted(bytes_of(response.accepted_body()->Some_0).len()),
{
}

} // verus!
