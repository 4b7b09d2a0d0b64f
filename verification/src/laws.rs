//! What holds of every run of the state machine, whatever the driver
//! reports. A run is a state and the events handed to it in order.

use crate::error::ErrorKind;
use crate::hash::sha256;
use crate::protocol::{
    acquired, awaits, begin, destination, idle, next, opening, prefetched, respond, ActionView,
    Event, Phase, State,
};
use crate::response::Response;
use vstd::prelude::*;

verus! {

/// The state after the first `n` events.
pub open spec fn state_after(s: State, events: Seq<Event>, n: nat) -> State
    decreases n,
{
    if n == 0 {
        s
    } else {
        next(state_after(s, events, (n - 1) as nat), events[n - 1])
    }
}

/// The action that answers the event at `i`.
pub open spec fn action_at(s: State, events: Seq<Event>, i: int) -> ActionView {
    respond(state_after(s, events, i as nat), events[i])
}

/// Whether the event at `i` answers what the session asked for before it.
pub open spec fn awaited_at(s: State, events: Seq<Event>, i: int) -> bool {
    awaits(state_after(s, events, i as nat), events[i])
}

/// A run in which every event answers the action before it.
pub open spec fn admissible(s: State, events: Seq<Event>) -> bool {
    forall|i: int| 0 <= i < events.len() ==> #[trigger] awaited_at(s, events, i)
}

/// A state in which a download has just begun: nothing is transferred
/// yet, and the first action is out.
pub open spec fn started(s: State) -> bool {
    (s.phase is Fetching || s.phase is ProbingFile) && s.transferred == Seq::<u8>::empty()
}

/// How far a download has come. A session at rest stands above every
/// stage of a download under way.
spec fn stage(phase: Phase) -> nat {
    match phase {
        Phase::Fetching => 0,
        Phase::ProbingFile => 1,
        Phase::ProbingDirectory => 2,
        Phase::Creating => 3,
        Phase::Reading => 4,
        Phase::Writing => 4,
        Phase::Unfetched => 5,
        Phase::Fetched => 5,
        Phase::Completed => 5,
        Phase::Failed => 5,
    }
}

/// Whether the action changes anything on disk.
pub open spec fn touches_disk(action: ActionView) -> bool {
    action is Create || action is Write
}

/// The bytes of the chunks among the first `n` events, in order.
pub open spec fn received(events: Seq<Event>, n: nat) -> Seq<u8>
    decreases n,
{
    if n == 0 {
        Seq::empty()
    } else {
        received(events, (n - 1) as nat) + match events[n - 1] {
            Event::Chunk(bytes) => bytes@,
            _ => Seq::empty(),
        }
    }
}

/// The bytes handed out for writing by the first `n` actions, in order.
pub open spec fn written(s: State, events: Seq<Event>, n: nat) -> Seq<u8>
    decreases n,
{
    if n == 0 {
        Seq::empty()
    } else {
        written(s, events, (n - 1) as nat) + match action_at(s, events, n - 1) {
            ActionView::Write { bytes, .. } => bytes,
            _ => Seq::empty(),
        }
    }
}

/// Two states that differ at most in the advertised length.
pub open spec fn same_but_length(a: State, b: State) -> bool {
    a == (State { length: a.length, ..b })
}

/// A download never steps back, and a session at rest awaits nothing.
proof fn lemma_stage_step(s: State, event: Event)
    requires
        awaits(s, event),
    ensures
        stage(s.phase) < 5,
        stage(s.phase) <= stage(next(s, event).phase),
        stage(s.phase) < 4 ==> stage(s.phase) < stage(next(s, event).phase),
{
}

/// Along a run, the stage only grows.
proof fn lemma_stage_grows(s: State, events: Seq<Event>, i: nat, j: nat)
    requires
        admissible(s, events),
        i <= j <= events.len(),
    ensures
        stage(state_after(s, events, i).phase) <= stage(state_after(s, events, j).phase),
    decreases j,
{
    if i < j {
        lemma_stage_grows(s, events, i, (j - 1) as nat);
        assert(awaited_at(s, events, j - 1));
        lemma_stage_step(state_after(s, events, (j - 1) as nat), events[j - 1]);
    }
}

/// Once the session is at rest the run is over.
proof fn lemma_rest_ends_the_run(s: State, events: Seq<Event>, n: nat)
    requires
        admissible(s, events),
        n <= events.len(),
        stage(state_after(s, events, n).phase) == 5,
    ensures
        n == events.len(),
{
    if n < events.len() {
        assert(awaited_at(s, events, n as int));
        lemma_stage_step(state_after(s, events, n), events[n as int]);
    }
}

/// Up to a stage before the file is created, nothing touches the disk.
proof fn lemma_disk_untouched_before(s: State, events: Seq<Event>, i: int)
    requires
        admissible(s, events),
        0 <= i < events.len(),
        stage(state_after(s, events, i as nat).phase) <= 1,
    ensures
        forall|j: int| 0 <= j <= i ==> !touches_disk(#[trigger] action_at(s, events, j)),
{
    assert forall|j: int| 0 <= j <= i implies !touches_disk(#[trigger] action_at(s, events, j)) by {
        lemma_stage_grows(s, events, j as nat, i as nat);
        assert(awaited_at(s, events, j));
    }
}

/// No clobbering. In every run in which the probe of the destination
/// finds a regular file, the download ends there with `FileExists`, the
/// stream is kept for another attempt, and no action of the run creates
/// or writes a file.
pub proof fn lemma_existing_file_is_kept(s: State, events: Seq<Event>, i: int)
    requires
        admissible(s, events),
        0 <= i < events.len(),
        events[i] == Event::IsFile(true),
    ensures
        action_at(s, events, i) == ActionView::Fail(ErrorKind::FileExists),
        i == events.len() - 1,
        state_after(s, events, events.len()).phase is Fetched,
        forall|j: int| 0 <= j < events.len() ==> !touches_disk(#[trigger] action_at(s, events, j)),
{
    assert(awaited_at(s, events, i));
    lemma_rest_ends_the_run(s, events, (i + 1) as nat);
    lemma_disk_untouched_before(s, events, i);
}

/// The directory must be there. In every run in which the probe of the
/// destination directory finds none, the download ends there with
/// `DirectoryMissing`, the stream is kept, and no action of the run
/// creates or writes a file.
pub proof fn lemma_missing_directory_stops(s: State, events: Seq<Event>, i: int)
    requires
        admissible(s, events),
        0 <= i < events.len(),
        events[i] == Event::IsDirectory(false),
    ensures
        action_at(s, events, i) == ActionView::Fail(ErrorKind::DirectoryMissing),
        i == events.len() - 1,
        state_after(s, events, events.len()).phase is Fetched,
        forall|j: int| 0 <= j < events.len() ==> !touches_disk(#[trigger] action_at(s, events, j)),
{
    assert(awaited_at(s, events, i));
    lemma_rest_ends_the_run(s, events, (i + 1) as nat);
    assert forall|j: int| 0 <= j < events.len() implies !touches_disk(
        #[trigger] action_at(s, events, j),
    ) by {
        assert(awaited_at(s, events, j));
        if j < i {
            lemma_stage_step(state_after(s, events, j as nat), events[j]);
            lemma_stage_grows(s, events, (j + 1) as nat, i as nat);
        }
    }
}

/// A failed request fails the download. In every run in which the
/// transport hands over no stream, be it for the status of the response
/// or for want of any response, the download ends there with
/// `InvalidResponse`, the session is left without a stream, and no action
/// of the run creates or writes a file.
pub proof fn lemma_transport_failure_stops(s: State, events: Seq<Event>, i: int)
    requires
        admissible(s, events),
        0 <= i < events.len(),
        events[i] matches Event::Fetched(outcome) && !acquired(outcome),
    ensures
        action_at(s, events, i) == ActionView::Fail(ErrorKind::InvalidResponse),
        i == events.len() - 1,
        state_after(s, events, events.len()).phase is Unfetched,
        forall|j: int| 0 <= j < events.len() ==> !touches_disk(#[trigger] action_at(s, events, j)),
{
    assert(awaited_at(s, events, i));
    lemma_rest_ends_the_run(s, events, (i + 1) as nat);
    lemma_disk_untouched_before(s, events, i);
}

/// Byte-exact transfer. The bytes handed out for writing are the bytes
/// that the stream yielded, in the same order, however the stream cut
/// them into chunks; and the session has counted exactly those.
pub proof fn lemma_bytes_pass_unchanged(s: State, events: Seq<Event>, n: nat)
    requires
        n <= events.len(),
    ensures
        written(s, events, n) == received(events, n),
        state_after(s, events, n).transferred == s.transferred + received(events, n),
    decreases n,
{
    if n > 0 {
        lemma_bytes_pass_unchanged(s, events, (n - 1) as nat);
    }
}

/// The request is fixed. Whatever happens, a session keeps its URL, its
/// directory and its file name, and so its destination; and a download
/// keeps what it was asked to do.
pub proof fn lemma_request_stays(s: State, events: Seq<Event>, n: nat)
    requires
        n <= events.len(),
    ensures
        state_after(s, events, n).url == s.url,
        state_after(s, events, n).directory == s.directory,
        state_after(s, events, n).filename == s.filename,
        destination(state_after(s, events, n)) == destination(s),
        state_after(s, events, n).hashing == s.hashing,
        state_after(s, events, n).reporting == s.reporting,
    decreases n,
{
    if n > 0 {
        lemma_request_stays(s, events, (n - 1) as nat);
    }
}

/// Nothing is left unwritten. In a run that completes, every chunk
/// handed out was reported written before the next was read.
pub proof fn lemma_complete_means_written(s: State, events: Seq<Event>, i: int, j: int)
    requires
        admissible(s, events),
        0 <= j < i < events.len(),
        action_at(s, events, i) is Complete,
        action_at(s, events, j) is Write,
    ensures
        events[j + 1] == Event::Written,
{
    assert(awaited_at(s, events, j));
    assert(awaited_at(s, events, j + 1));
    if events[j + 1] is Failed {
        lemma_rest_ends_the_run(s, events, (j + 2) as nat);
    }
}

/// Digest correctness. The `Complete` that ends a hashing download
/// carries the SHA-256 digest of all the bytes handed out for writing,
/// in order; the one that ends a plain download carries none.
pub proof fn lemma_digest_covers_the_file(s: State, events: Seq<Event>)
    requires
        started(s),
        events.len() > 0,
        action_at(s, events, events.len() - 1) is Complete,
    ensures
        action_at(s, events, events.len() - 1) == ActionView::Complete(
            if s.hashing {
                Some(sha256(written(s, events, events.len())))
            } else {
                None
            },
        ),
{
    let last = (events.len() - 1) as nat;
    lemma_bytes_pass_unchanged(s, events, last);
    lemma_request_stays(s, events, last);
    assert(written(s, events, events.len()) == written(s, events, last));
    assert(s.transferred + received(events, last) == received(events, last));
}

/// Progress counts the bytes. Each `Write` of a reporting download
/// carries the count of all bytes handed out for writing up to and with
/// its own; a download that does not report carries none.
pub proof fn lemma_progress_counts_bytes(s: State, events: Seq<Event>, i: int)
    requires
        started(s),
        admissible(s, events),
        0 <= i < events.len(),
        action_at(s, events, i) is Write,
    ensures
        written(s, events, (i + 1) as nat).len() <= u64::MAX,
        action_at(s, events, i)->progress == if s.reporting {
            Some(written(s, events, (i + 1) as nat).len() as u64)
        } else {
            None
        },
{
    lemma_bytes_pass_unchanged(s, events, i as nat);
    lemma_request_stays(s, events, i as nat);
    assert(awaited_at(s, events, i));
    assert(s.transferred + received(events, i as nat) == received(events, i as nat));
}

/// The bytes handed out only grow along a run, and grow with each write.
proof fn lemma_written_grows(s: State, events: Seq<Event>, i: nat, j: nat)
    requires
        i <= j <= events.len(),
    ensures
        written(s, events, i).len() <= written(s, events, j).len(),
        i < j && action_at(s, events, j - 1) is Write && awaited_at(s, events, j - 1)
            ==> written(s, events, i).len() < written(s, events, j).len(),
    decreases j,
{
    if i < j {
        lemma_written_grows(s, events, i, (j - 1) as nat);
    }
}

/// Progress is monotonic. Of two writes of a reporting download, the
/// later reports the larger count.
pub proof fn lemma_progress_increases(s: State, events: Seq<Event>, i: int, j: int)
    requires
        started(s),
        admissible(s, events),
        s.reporting,
        0 <= i < j < events.len(),
        action_at(s, events, i) is Write,
        action_at(s, events, j) is Write,
    ensures
        action_at(s, events, i)->progress is Some,
        action_at(s, events, j)->progress is Some,
        action_at(s, events, i)->progress->0 < action_at(s, events, j)->progress->0,
{
    lemma_progress_counts_bytes(s, events, i);
    lemma_progress_counts_bytes(s, events, j);
    assert(awaited_at(s, events, j));
    lemma_written_grows(s, events, (i + 1) as nat, (j + 1) as nat);
}

/// The last report is the total. The report of the last write of a
/// reporting download is the count of all bytes handed out for writing
/// in the run.
pub proof fn lemma_last_report_is_total(s: State, events: Seq<Event>, i: int)
    requires
        started(s),
        admissible(s, events),
        s.reporting,
        0 <= i < events.len(),
        action_at(s, events, i) is Write,
        forall|j: int| i < j < events.len() ==> !(#[trigger] action_at(s, events, j) is Write),
    ensures
        action_at(s, events, i)->progress == Some(
            written(s, events, events.len()).len() as u64,
        ),
{
    lemma_progress_counts_bytes(s, events, i);
    lemma_no_write_adds_nothing(s, events, (i + 1) as nat, events.len());
}

/// Where no action writes, the bytes handed out stay as they are.
proof fn lemma_no_write_adds_nothing(s: State, events: Seq<Event>, i: nat, j: nat)
    requires
        i <= j <= events.len(),
        forall|k: int| i <= k < j ==> !(#[trigger] action_at(s, events, k) is Write),
    ensures
        written(s, events, j) == written(s, events, i),
    decreases j,
{
    if i < j {
        lemma_no_write_adds_nothing(s, events, i, (j - 1) as nat);
        assert(!(action_at(s, events, j - 1) is Write));
    }
}

/// Two events that differ at most in the `content-length` header of the
/// response they carry.
pub open spec fn same_but_header(a: Event, b: Event) -> bool {
    a == b || match (a, b) {
        (Event::Fetched(Ok(x)), Event::Fetched(Ok(y))) => x.status == y.status && x.reason
            == y.reason,
        _ => false,
    }
}

/// The advertised length is advisory. Two runs that differ only in the
/// `content-length` headers reported, and in the length held at the
/// start, await the same events and answer them with the same actions;
/// afterwards the sessions differ only in the length they hold. A
/// download runs the same whether the length is stated, missing,
/// unreadable or wrong.
pub proof fn lemma_length_is_advisory(
    a: State,
    b: State,
    left: Seq<Event>,
    right: Seq<Event>,
    n: nat,
)
    requires
        same_but_length(a, b),
        left.len() == right.len(),
        forall|i: int| 0 <= i < left.len() ==> same_but_header(#[trigger] left[i], right[i]),
        n <= left.len(),
    ensures
        same_but_length(state_after(a, left, n), state_after(b, right, n)),
        n < left.len() ==> awaited_at(a, left, n as int) == awaited_at(b, right, n as int),
        n < left.len() ==> action_at(a, left, n as int) == action_at(b, right, n as int),
    decreases n,
{
    if n > 0 {
        lemma_length_is_advisory(a, b, left, right, (n - 1) as nat);
        assert(same_but_header(left[n - 1], right[n - 1]));
    }
    if n < left.len() {
        assert(same_but_header(left[n as int], right[n as int]));
    }
}

/// Whether a download has taken the stream.
pub open spec fn stream_taken(phase: Phase) -> bool {
    phase is Creating || phase is Reading || phase is Writing || phase is Completed
        || phase is Failed
}

/// The stream is taken only by way of creating the file.
proof fn lemma_taken_by_create(s: State, events: Seq<Event>, n: nat)
    requires
        admissible(s, events),
        n <= events.len(),
        !stream_taken(s.phase),
        stream_taken(state_after(s, events, n).phase),
    ensures
        exists|j: int| 0 <= j < n && #[trigger] action_at(s, events, j) is Create,
    decreases n,
{
    if n > 0 {
        assert(awaited_at(s, events, n - 1));
        if stream_taken(state_after(s, events, (n - 1) as nat).phase) {
            lemma_taken_by_create(s, events, (n - 1) as nat);
        } else {
            assert(action_at(s, events, n - 1) is Create);
        }
    }
}

/// The file is there. Whenever a download hands out bytes to write, or
/// completes, an earlier action of the run has created the file.
pub proof fn lemma_file_is_created_first(s: State, events: Seq<Event>, i: int)
    requires
        started(s),
        admissible(s, events),
        0 <= i < events.len(),
        action_at(s, events, i) is Write || action_at(s, events, i) is Complete,
    ensures
        exists|j: int| 0 <= j < i && #[trigger] action_at(s, events, j) is Create,
{
    assert(awaited_at(s, events, i));
    lemma_taken_by_create(s, events, i as nat);
}

/// Fetching ahead changes nothing but the moment of the request. A
/// download that begins on a session fetched ahead stands where a
/// download on the unfetched session stands once the same response has
/// come in, and asks for the same thing.
pub proof fn lemma_fetching_ahead_agrees(
    s: State,
    response: Response,
    hashing: bool,
    reporting: bool,
)
    requires
        s.phase is Unfetched,
        acquired(Ok(response)),
    ensures
        begin(prefetched(s, response), hashing, reporting) == next(
            begin(s, hashing, reporting),
            Event::Fetched(Ok(response)),
        ),
        opening(prefetched(s, response)) == respond(
            begin(s, hashing, reporting),
            Event::Fetched(Ok(response)),
        ),
        awaits(begin(s, hashing, reporting), Event::Fetched(Ok(response))),
{
}

/// Every download begins in a started state.
pub proof fn lemma_download_starts(s: State, hashing: bool, reporting: bool)
    requires
        idle(s),
    ensures
        started(begin(s, hashing, reporting)),
        begin(s, hashing, reporting).hashing == hashing,
        begin(s, hashing, reporting).reporting == reporting,
{
}

/// The stream is drained once. From the moment the destination file is
/// asked for, the session is never idle again: no second download can
/// begin on it.
pub proof fn lemma_stream_is_drained_once(s: State, events: Seq<Event>, n: nat)
    requires
        admissible(s, events),
        n <= events.len(),
        stream_taken(s.phase),
    ensures
        stream_taken(state_after(s, events, n).phase),
        !idle(state_after(s, events, n)),
    decreases n,
{
    if n > 0 {
        lemma_stream_is_drained_once(s, events, (n - 1) as nat);
        assert(awaited_at(s, events, n - 1));
    }
}

} // verus!
