//! Accounting for one batch of dropped files, and the loading bar.

use vstd::prelude::*;

use crate::relink::RelinkReport;
use crate::text::{
    board_full_text, board_full_text_exec, decimal_spec, loading_text, loading_text_exec,
    push_decimal, Lang,
};

verus! {

/// What became of one batch of files that the user dropped on the board.
///
/// Every file that is asked for ends in exactly one bucket: `added` (on the
/// board), `rejected` (the board was full), `failed` (the file could not be
/// opened) or `cancelled` (its job was dropped on the way, e.g. after a pan).
#[derive(Debug, Clone, Copy, PartialEq, Eq, Structural)]
pub struct DropBatch {
    /// Files the user asked to open in this batch.
    pub requested: usize,
    /// Put on the board.
    pub added: usize,
    /// Turned away because the board is full.
    pub rejected: usize,
    /// Could not be opened.
    pub failed: usize,
    /// Dropped on the way; they will never become items.
    pub cancelled: usize,
    /// The end of this batch has been reported already.
    pub reported: bool,
}

impl Default for DropBatch {
    fn default() -> (b: Self)
        ensures
            b == (DropBatch {
                requested: 0,
                added: 0,
                rejected: 0,
                failed: 0,
                cancelled: 0,
                reported: false,
            }),
    {
        DropBatch { requested: 0, added: 0, rejected: 0, failed: 0, cancelled: 0, reported: false }
    }
}

impl DropBatch {
    /// The number of files that have an answer, whatever the answer is.
    pub open spec fn answered_spec(self) -> int {
        self.added + self.rejected + self.failed + self.cancelled
    }

    /// The batch is over once every requested file has an answer.
    pub open spec fn settled_spec(self) -> bool {
        self.answered_spec() >= self.requested
    }

    /// Starts a new batch of `requested` files: every counter and the
    /// reported flag go back to their start values at once.
    pub fn start(&mut self, requested: usize)
        ensures
            *final(self) == (DropBatch {
                requested,
                added: 0,
                rejected: 0,
                failed: 0,
                cancelled: 0,
                reported: false,
            }),
    {
        *self = DropBatch { requested, ..DropBatch::default() };
    }

    /// Whether every requested file has an answer.
    pub fn settled(&self) -> (r: bool)
        requires
            self.answered_spec() <= usize::MAX,
        ensures
            r == self.settled_spec(),
    {
        self.answered() >= self.requested
    }

    /// How many files have an answer: added, rejected, failed and cancelled.
    pub fn answered(&self) -> (n: usize)
        requires
            self.answered_spec() <= usize::MAX,
        ensures
            n == self.answered_spec(),
    {
        self.added + self.rejected + self.failed + self.cancelled
    }
}

/// What became of one file of a batch.
#[derive(Debug, Clone, Copy, PartialEq, Eq, Structural)]
pub enum FileOutcome {
    /// It is on the board.
    Added,
    /// The board was full.
    Rejected,
    /// It could not be opened or stored.
    Failed,
    /// Its job was cancelled, or its item went away meanwhile.
    Cancelled,
}

/// The batch with one more file counted in the bucket of `outcome`.
pub open spec fn counted(b: DropBatch, outcome: FileOutcome) -> DropBatch {
    match outcome {
        FileOutcome::Added => DropBatch { added: (b.added + 1) as usize, ..b },
        FileOutcome::Rejected => DropBatch { rejected: (b.rejected + 1) as usize, ..b },
        FileOutcome::Failed => DropBatch { failed: (b.failed + 1) as usize, ..b },
        FileOutcome::Cancelled => DropBatch { cancelled: (b.cancelled + 1) as usize, ..b },
    }
}

/// The batch after counting `outs`, one after another.
pub open spec fn counted_all(b: DropBatch, outs: Seq<FileOutcome>) -> DropBatch
    decreases outs.len(),
{
    if outs.len() == 0 {
        b
    } else {
        counted(counted_all(b, outs.drop_last()), outs.last())
    }
}

impl DropBatch {
    /// Counts one more file in the bucket of its outcome.
    pub fn count(&mut self, outcome: FileOutcome)
        requires
            old(self).answered_spec() < usize::MAX,
        ensures
            *final(self) == counted(*old(self), outcome),
    {
        match outcome {
            FileOutcome::Added => self.added = self.added + 1,
            FileOutcome::Rejected => self.rejected = self.rejected + 1,
            FileOutcome::Failed => self.failed = self.failed + 1,
            FileOutcome::Cancelled => self.cancelled = self.cancelled + 1,
        }
    }
}

/// What a decode job was for.
#[derive(Debug, Clone, Copy, PartialEq, Eq, Structural)]
pub enum JobTarget {
    /// The thumbnail of a dropped, pasted or relinked image: one file of a batch.
    Thumbnail,
    /// A sharper texture for an image already on the board.
    Working,
    /// One pixel read for the colour picker.
    Sample,
}

/// How a decode job ended, as the batch sees it.
#[derive(Debug, Clone, Copy, PartialEq, Eq, Structural)]
pub enum JobEnd {
    /// A thumbnail was decoded; it is counted once it has been stored.
    Done,
    /// A pasted image got a file of its own in the spool.
    Spooled,
    /// The clipboard held a list of files instead of an image.
    ClipboardFiles,
    /// A sharper texture is ready.
    WorkingReady,
    /// The colour picker's pixel was read.
    Sampled,
    /// The job was cancelled on the way.
    Cancelled(JobTarget),
    /// The job failed.
    Failed(JobTarget),
}

/// The bucket a job's end puts one file of the batch in, if any. Only
/// thumbnail jobs are files of a batch; a decoded one is counted when it
/// is stored (see [`stored_outcome`]). A failure while the colour picker
/// waits on that job is the picker's, not the batch's.
pub open spec fn end_outcome_spec(end: JobEnd, picking: bool) -> Option<FileOutcome> {
    match end {
        JobEnd::Cancelled(JobTarget::Thumbnail) => Some(FileOutcome::Cancelled),
        JobEnd::Failed(JobTarget::Thumbnail) => if picking {
            None
        } else {
            Some(FileOutcome::Failed)
        },
        _ => None,
    }
}

/// Sorts the end of one decode job into the bucket of the batch it counts
/// in, if any; `picking` says whether the colour picker waits on this job.
pub fn end_outcome(end: JobEnd, picking: bool) -> (r: Option<FileOutcome>)
    ensures
        r == end_outcome_spec(end, picking),
{
    match end {
        JobEnd::Cancelled(JobTarget::Thumbnail) => Some(FileOutcome::Cancelled),
        JobEnd::Failed(JobTarget::Thumbnail) => {
            if picking {
                None
            } else {
                Some(FileOutcome::Failed)
            }
        },
        _ => None,
    }
}

/// What storing a decoded thumbnail gave.
#[derive(Debug, Clone, Copy, PartialEq, Eq, Structural)]
pub enum Stored {
    /// A new image was put on the board.
    Placed,
    /// An image that was looked for again is drawn again.
    Relinked,
    /// The image looked for went away meanwhile, or there was nothing to relink.
    RelinkGone,
    /// The board refused the new image.
    AddRefused,
    /// The thumbnail atlas is full: the board holds no more images.
    BoardFull,
    /// The thumbnail could not be stored for another reason (e.g. video memory).
    StoreFailed,
}

/// The bucket of a decoded thumbnail once it has been stored.
pub open spec fn stored_outcome_spec(stored: Stored) -> FileOutcome {
    match stored {
        Stored::Placed | Stored::Relinked => FileOutcome::Added,
        Stored::RelinkGone => FileOutcome::Cancelled,
        Stored::BoardFull => FileOutcome::Rejected,
        Stored::AddRefused | Stored::StoreFailed => FileOutcome::Failed,
    }
}

/// Sorts a stored thumbnail into its bucket: every decoded file ends in
/// exactly one, so a batch always settles.
pub fn stored_outcome(stored: Stored) -> (r: FileOutcome)
    ensures
        r == stored_outcome_spec(stored),
{
    match stored {
        Stored::Placed | Stored::Relinked => FileOutcome::Added,
        Stored::RelinkGone => FileOutcome::Cancelled,
        Stored::BoardFull => FileOutcome::Rejected,
        Stored::AddRefused | Stored::StoreFailed => FileOutcome::Failed,
    }
}

/// Where each file lands: a cancelled thumbnail job in the cancelled ones,
/// a failed one in the failed ones; a stored thumbnail is added when it is
/// on the board, rejected when the board is full, cancelled when the image
/// it was looked for went away, and failed when it could not be stored.
pub proof fn law_each_file_lands_in_its_bucket()
    ensures
        end_outcome_spec(JobEnd::Cancelled(JobTarget::Thumbnail), false) == Some(
            FileOutcome::Cancelled,
        ),
        end_outcome_spec(JobEnd::Cancelled(JobTarget::Thumbnail), true) == Some(
            FileOutcome::Cancelled,
        ),
        end_outcome_spec(JobEnd::Failed(JobTarget::Thumbnail), false) == Some(FileOutcome::Failed),
        stored_outcome_spec(Stored::Placed) == FileOutcome::Added,
        stored_outcome_spec(Stored::Relinked) == FileOutcome::Added,
        stored_outcome_spec(Stored::BoardFull) == FileOutcome::Rejected,
        stored_outcome_spec(Stored::RelinkGone) == FileOutcome::Cancelled,
        stored_outcome_spec(Stored::AddRefused) == FileOutcome::Failed,
        stored_outcome_spec(Stored::StoreFailed) == FileOutcome::Failed,
{
}

/// A job that is not a thumbnail never counts in a batch, and a thumbnail
/// job counts at most once: when it ends without a thumbnail (cancelled or
/// failed), or, decoded, when it is stored.
pub proof fn law_only_thumbnails_count(end: JobEnd, picking: bool)
    ensures
        end_outcome_spec(end, picking) is Some ==> (end == JobEnd::Cancelled(JobTarget::Thumbnail)
            || end == JobEnd::Failed(JobTarget::Thumbnail)),
        end == JobEnd::Done ==> end_outcome_spec(end, picking) is None,
        end == JobEnd::Cancelled(JobTarget::Thumbnail) ==> end_outcome_spec(end, picking) is Some,
        end == JobEnd::Failed(JobTarget::Thumbnail) && !picking ==> end_outcome_spec(
            end,
            picking,
        ) is Some,
{
}

/// Every file of a batch is counted exactly once, whatever became of it:
/// after a new batch of `n` files and the outcomes of `k` files, `k`
/// files have an answer, the batch still asks for `n`, and it is settled
/// exactly when `k` reaches `n`.
pub proof fn law_every_file_is_counted_once(n: usize, outs: Seq<FileOutcome>)
    requires
        outs.len() <= usize::MAX,
    ensures
        ({
            let started = DropBatch {
                requested: n,
                added: 0,
                rejected: 0,
                failed: 0,
                cancelled: 0,
                reported: false,
            };
            let b = counted_all(started, outs);
            &&& b.answered_spec() == outs.len()
            &&& b.requested == n
            &&& !b.reported
            &&& b.settled_spec() == (outs.len() >= n)
        }),
    decreases outs.len(),
{
    if outs.len() > 0 {
        law_every_file_is_counted_once(n, outs.drop_last());
    }
}

/// The buckets that the ends of a drain put files in, in order; `ends`
/// pairs each job's end with whether the colour picker waited on that job.
pub open spec fn end_outcomes(ends: Seq<(JobEnd, bool)>) -> Seq<FileOutcome>
    decreases ends.len(),
{
    if ends.len() == 0 {
        Seq::empty()
    } else {
        let before = end_outcomes(ends.drop_last());
        match end_outcome_spec(ends.last().0, ends.last().1) {
            Some(o) => before.push(o),
            None => before,
        }
    }
}

/// The buckets of the stored thumbnails, in order.
pub open spec fn stored_outcomes(stored: Seq<Stored>) -> Seq<FileOutcome> {
    stored.map_values(|st: Stored| stored_outcome_spec(st))
}

/// The number of decoded thumbnails among `ends`.
pub open spec fn done_count(ends: Seq<(JobEnd, bool)>) -> nat
    decreases ends.len(),
{
    if ends.len() == 0 {
        0
    } else {
        done_count(ends.drop_last()) + if ends.last().0 == JobEnd::Done {
            1nat
        } else {
            0nat
        }
    }
}

/// Whether a job's end is a file of the batch: a decoded thumbnail, or a
/// thumbnail job that was cancelled or failed (not while the colour picker
/// waited on it).
pub open spec fn is_batch_file(end: JobEnd, picking: bool) -> bool {
    end == JobEnd::Done || end == JobEnd::Cancelled(JobTarget::Thumbnail) || (end
        == JobEnd::Failed(JobTarget::Thumbnail) && !picking)
}

/// The number of ends among `ends` that are files of the batch.
pub open spec fn file_count(ends: Seq<(JobEnd, bool)>) -> nat
    decreases ends.len(),
{
    if ends.len() == 0 {
        0
    } else {
        file_count(ends.drop_last()) + if is_batch_file(ends.last().0, ends.last().1) {
            1nat
        } else {
            0nat
        }
    }
}

/// Counts one drain of the decode pool into the batch: first the end of
/// every job, in order, then every decoded thumbnail once stored.
pub fn count_drain(batch: &mut DropBatch, ends: &Vec<(JobEnd, bool)>, stored: &Vec<Stored>)
    requires
        old(batch).answered_spec() + ends@.len() + stored@.len() <= usize::MAX,
    ensures
        *final(batch) == counted_all(*old(batch), end_outcomes(ends@) + stored_outcomes(stored@)),
{
    let ghost b0 = *batch;
    let mut i: usize = 0;
    proof {
        lemma_end_outcomes_len(ends@);
    }
    while i < ends.len()
        invariant
            i <= ends@.len(),
            end_outcomes(ends@.take(i as int)).len() <= i,
            *batch == counted_all(b0, end_outcomes(ends@.take(i as int))),
            batch.answered_spec() == b0.answered_spec() + end_outcomes(ends@.take(i as int)).len(),
            b0.answered_spec() + ends@.len() + stored@.len() <= usize::MAX,
        decreases ends@.len() - i,
    {
        let (end, picking) = ends[i];
        proof {
            assert(ends@.take(i + 1).drop_last() == ends@.take(i as int));
            lemma_end_outcomes_len(ends@.take(i + 1));
        }
        match end_outcome(end, picking) {
            Some(o) => {
                let ghost before = end_outcomes(ends@.take(i as int));
                batch.count(o);
                proof {
                    lemma_counted_all_push(b0, before, o);
                }
            },
            None => {},
        }
        i = i + 1;
    }
    proof {
        assert(ends@.take(ends@.len() as int) == ends@);
    }
    let ghost mid = end_outcomes(ends@);
    let mut j: usize = 0;
    while j < stored.len()
        invariant
            j <= stored@.len(),
            mid == end_outcomes(ends@),
            mid.len() <= ends@.len(),
            *batch == counted_all(b0, mid + stored_outcomes(stored@.take(j as int))),
            batch.answered_spec() == b0.answered_spec() + mid.len() + j,
            b0.answered_spec() + ends@.len() + stored@.len() <= usize::MAX,
        decreases stored@.len() - j,
    {
        let o = stored_outcome(stored[j]);
        let ghost before = mid + stored_outcomes(stored@.take(j as int));
        batch.count(o);
        proof {
            lemma_counted_all_push(b0, before, o);
            assert(mid + stored_outcomes(stored@.take(j + 1)) == before.push(o));
        }
        j = j + 1;
    }
    proof {
        assert(stored@.take(stored@.len() as int) == stored@);
    }
}

proof fn lemma_counted_all_push(b: DropBatch, outs: Seq<FileOutcome>, o: FileOutcome)
    ensures
        counted_all(b, outs.push(o)) == counted(counted_all(b, outs), o),
{
    assert(outs.push(o).drop_last() == outs);
}

proof fn lemma_end_outcomes_len(ends: Seq<(JobEnd, bool)>)
    ensures
        end_outcomes(ends).len() + done_count(ends) == file_count(ends),
        end_outcomes(ends).len() <= ends.len(),
        file_count(ends) <= ends.len(),
    decreases ends.len(),
{
    if ends.len() > 0 {
        lemma_end_outcomes_len(ends.drop_last());
    }
}

/// Counting `outs` answers exactly `outs.len()` more files and leaves the
/// batch's size and its reported flag as they were.
pub proof fn lemma_counted_all_answers(b: DropBatch, outs: Seq<FileOutcome>)
    requires
        b.answered_spec() + outs.len() <= usize::MAX,
    ensures
        counted_all(b, outs).answered_spec() == b.answered_spec() + outs.len(),
        counted_all(b, outs).requested == b.requested,
        counted_all(b, outs).reported == b.reported,
    decreases outs.len(),
{
    if outs.len() > 0 {
        lemma_counted_all_answers(b, outs.drop_last());
    }
}

/// Each drain counts every file of the batch among its results exactly
/// once: the decoded thumbnails (each stored once) and the thumbnail jobs
/// that were cancelled or failed. Sharper textures and colour samples never
/// touch the batch, which keeps its size and reported flag.
pub proof fn law_drain_counts_each_file_once(
    b: DropBatch,
    ends: Seq<(JobEnd, bool)>,
    stored: Seq<Stored>,
)
    requires
        stored.len() == done_count(ends),
        b.answered_spec() + ends.len() + stored.len() <= usize::MAX,
    ensures
        ({
            let after = counted_all(b, end_outcomes(ends) + stored_outcomes(stored));
            &&& after.answered_spec() == b.answered_spec() + file_count(ends)
            &&& after.requested == b.requested
            &&& after.reported == b.reported
            &&& (file_count(ends) == 0 ==> after == b)
        }),
{
    lemma_end_outcomes_len(ends);
    let outs = end_outcomes(ends) + stored_outcomes(stored);
    lemma_counted_all_answers(b, outs);
    if file_count(ends) == 0 {
        assert(outs.len() == 0);
        assert(outs =~= Seq::<FileOutcome>::empty());
    }
}

/// The message that tells the user the board took only part of a batch, or
/// `None` when no file was turned away for want of room.
pub fn board_full_message(lang: Lang, capacity: usize, batch: DropBatch) -> (m: Option<String>)
    ensures
        m is None <==> batch.rejected == 0,
        m matches Some(s) ==> s@ == board_full_text(
            lang,
            capacity as nat,
            batch.rejected as nat,
            batch.requested as nat,
        ),
{
    if batch.rejected == 0 {
        return None;
    }
    Some(board_full_text_exec(lang, capacity as u64, batch.rejected as u64, batch.requested as u64))
}

/// How a settled batch is reported on the status bar, most important first.
#[derive(Debug, Clone, PartialEq, Eq)]
pub enum BatchReport {
    /// The board filled up: this message, shown as a warning.
    BoardFull(String),
    /// The batch was a relink: its summary.
    Relink(RelinkReport),
    /// One image pasted from the clipboard is on screen.
    Pasted,
    /// The dropped files are on screen.
    Opened,
}

/// What to report at the end of a batch; `None` while there is nothing to
/// report (not settled yet, reported already, or no batch was timed).
///
/// A full board is reported before anything else: a line that says the
/// files are open would read as "all of them" to someone who dropped more
/// than the board holds.
pub fn batch_report(
    lang: Lang,
    capacity: usize,
    batch: &mut DropBatch,
    timed: bool,
    relink: Option<RelinkReport>,
    from_clipboard: bool,
) -> (r: Option<BatchReport>)
    requires
        old(batch).answered_spec() <= usize::MAX,
    ensures
        (r is Some) <==> (!old(batch).reported && old(batch).settled_spec() && timed),
        r is Some ==> *final(batch) == (DropBatch { reported: true, ..*old(batch) }),
        r is None ==> *final(batch) == *old(batch),
        r matches Some(rep) ==> (match rep {
            BatchReport::BoardFull(s) => old(batch).rejected > 0 && s@ == board_full_text(
                lang,
                capacity as nat,
                old(batch).rejected as nat,
                old(batch).requested as nat,
            ),
            BatchReport::Relink(rr) => old(batch).rejected == 0 && relink == Some(rr),
            BatchReport::Pasted => old(batch).rejected == 0 && relink is None && from_clipboard,
            BatchReport::Opened => old(batch).rejected == 0 && relink is None && !from_clipboard,
        }),
{
    if batch.reported || !batch.settled() || !timed {
        return None;
    }
    batch.reported = true;
    if let Some(message) = board_full_message(lang, capacity, *batch) {
        Some(BatchReport::BoardFull(message))
    } else if let Some(report) = relink {
        Some(BatchReport::Relink(report))
    } else if from_clipboard {
        Some(BatchReport::Pasted)
    } else {
        Some(BatchReport::Opened)
    }
}

/// Lets one clipboard paste run at a time: a key held down or pressed
/// quickly again does not queue a second read of a clipboard image that
/// can be hundreds of megabytes.
#[derive(Debug, Clone, Copy, PartialEq, Eq, Structural)]
pub struct PasteSlot {
    /// The number of the paste whose job is still running.
    pub in_flight: Option<u64>,
    /// Pastes started so far; each gets the next number.
    pub count: u64,
}

/// The slot and answer after a Ctrl+V: nothing while a paste runs, else
/// the next number, which is now in flight.
pub open spec fn paste_start_spec(g: PasteSlot) -> (PasteSlot, Option<u64>) {
    if g.in_flight is Some {
        (g, None)
    } else {
        let n = (g.count + 1) as u64;
        (PasteSlot { in_flight: Some(n), count: n }, Some(n))
    }
}

/// The slot after job `n` finished: free again if `n` was the paste in flight.
pub open spec fn paste_finished_spec(g: PasteSlot, n: u64) -> PasteSlot {
    if g.in_flight == Some(n) {
        PasteSlot { in_flight: None, ..g }
    } else {
        g
    }
}

impl PasteSlot {
    /// No paste yet.
    pub fn new() -> (g: Self)
        ensures
            g == (PasteSlot { in_flight: None, count: 0 }),
    {
        PasteSlot { in_flight: None, count: 0 }
    }

    /// The user pressed Ctrl+V: the number of the new paste job, or `None`
    /// while the previous one is still running.
    pub fn start(&mut self) -> (n: Option<u64>)
        requires
            old(self).in_flight is None ==> old(self).count < u64::MAX,
        ensures
            (*final(self), n) == paste_start_spec(*old(self)),
    {
        if self.in_flight.is_some() {
            return None;
        }
        self.count = self.count + 1;
        self.in_flight = Some(self.count);
        Some(self.count)
    }

    /// A job finished, whatever its result: if it was the paste in flight,
    /// the next Ctrl+V may start another.
    pub fn finished(&mut self, n: u64)
        ensures
            *final(self) == paste_finished_spec(*old(self), n),
    {
        if self.in_flight == Some(n) {
            self.in_flight = None;
        }
    }
}

/// The slot after `k` presses of Ctrl+V with no job finishing in between.
pub open spec fn pressed(g: PasteSlot, k: nat) -> PasteSlot
    decreases k,
{
    if k == 0 {
        g
    } else {
        pressed(paste_start_spec(g).0, (k - 1) as nat)
    }
}

/// Holding Ctrl+V down while a paste runs changes nothing, however many
/// presses come.
pub proof fn law_presses_while_pasting_change_nothing(g: PasteSlot, k: nat)
    requires
        g.in_flight is Some,
    ensures
        pressed(g, k) == g,
        paste_start_spec(pressed(g, k)).1 is None,
    decreases k,
{
    if k > 0 {
        law_presses_while_pasting_change_nothing(g, (k - 1) as nat);
    }
}

/// At most one paste runs at a time. A press that starts a paste puts
/// exactly that paste in flight, counted once more; every further press,
/// however many, starts nothing and changes nothing; another job finishing
/// leaves the slot taken; only the paste itself finishing frees it, and
/// the next press then starts the next number.
pub proof fn law_one_paste_at_a_time(g: PasteSlot, other: u64)
    requires
        g.in_flight is None,
        g.count < u64::MAX - 1,
    ensures
        ({
            let (taken, n) = paste_start_spec(g);
            &&& n == Some((g.count + 1) as u64)
            &&& taken.in_flight == n
            &&& taken.count == g.count + 1
            &&& paste_start_spec(taken) == (taken, None::<u64>)
            &&& (Some(other) != n ==> paste_finished_spec(taken, other) == taken)
            &&& paste_finished_spec(taken, n.unwrap()).in_flight is None
            &&& paste_start_spec(paste_finished_spec(taken, n.unwrap())).1 == Some(
                (g.count + 2) as u64,
            )
        }),
{
}

/// The paste job a Ctrl+V starts.
#[derive(Debug, Clone, PartialEq, Eq)]
pub struct PasteJob {
    /// Its number among the pastes of this run.
    pub number: u64,
    /// The text its job key is made from: `clipboard:` and the number, so
    /// that no two pastes share a key.
    pub key_text: String,
}

/// The text the key of paste `n` is made from.
pub open spec fn paste_key_text(n: u64) -> Seq<char> {
    "clipboard:"@ + decimal_spec(n as nat)
}

/// The user pressed Ctrl+V. While a paste runs nothing happens at all.
/// Otherwise the next paste starts: it is in flight, the batch starts anew
/// as one file, and the batch comes from the clipboard.
pub fn paste_pressed(slot: &mut PasteSlot, batch: &mut DropBatch, from_clipboard: &mut bool) -> (job:
    Option<PasteJob>)
    requires
        old(slot).in_flight is None ==> old(slot).count < u64::MAX,
    ensures
        (*final(slot), match job {
            Some(j) => Some(j.number),
            None => None,
        }) == paste_start_spec(*old(slot)),
        job is None ==> *final(batch) == *old(batch) && *final(from_clipboard) == *old(
            from_clipboard,
        ),
        job matches Some(j) ==> {
            &&& j.key_text@ == paste_key_text(j.number)
            &&& *final(batch) == (DropBatch {
                requested: 1,
                added: 0,
                rejected: 0,
                failed: 0,
                cancelled: 0,
                reported: false,
            })
            &&& *final(from_clipboard)
        },
{
    match slot.start() {
        None => None,
        Some(number) => {
            let mut key_text = String::from_str("clipboard:");
            proof {
                reveal_strlit("clipboard:");
            }
            push_decimal(&mut key_text, number);
            batch.start(1);
            *from_clipboard = true;
            Some(PasteJob { number, key_text })
        },
    }
}

/// Counters of the decode pool, read at one moment. They count from the
/// start of the program, not from the start of a batch.
#[derive(Debug, Clone, Copy, PartialEq, Eq, Structural)]
pub struct PoolStatsSnapshot {
    pub submitted: u64,
    pub completed: u64,
    pub cancelled: u64,
    pub failed: u64,
    pub timed_out: u64,
}

/// The number of finished jobs, capped at `u64::MAX`.
pub open spec fn finished_spec(s: PoolStatsSnapshot) -> int {
    let sum = s.completed + s.cancelled + s.failed + s.timed_out;
    if sum > u64::MAX { u64::MAX as int } else { sum }
}

impl PoolStatsSnapshot {
    /// Jobs that no longer wait in the queue, whatever their outcome: done,
    /// cancelled, failed or timed out (capped at `u64::MAX`).
    pub fn finished(&self) -> (n: u64)
        ensures
            n == finished_spec(*self),
    {
        self.completed.saturating_add(self.cancelled).saturating_add(self.failed).saturating_add(
            self.timed_out,
        )
    }
}

/// Progress of the current batch: `done` of `total` jobs.
#[derive(Debug, Clone, Copy, PartialEq, Eq, Structural)]
pub struct LoadProgress {
    pub done: u64,
    pub total: u64,
}

impl LoadProgress {
    /// The text of the loading bar, in the user's language.
    pub fn label(&self, lang: Lang) -> (s: String)
        ensures
            s@ == loading_text(lang, self.done as nat, self.total as nat),
    {
        loading_text_exec(lang, self.done, self.total)
    }

    /// How far the batch is, in thousandths: a count that ran past the
    /// total reads as complete, and an empty batch reads as complete.
    pub fn permille(&self) -> (r: u64)
        ensures
            r <= 1000,
            self.total == 0 ==> r == 1000,
            self.total > 0 ==> r == (if self.done < self.total { self.done as int } else {
                self.total as int
            }) * 1000 / (self.total as int),
    {
        if self.total == 0 {
            return 1000;
        }
        let done = if self.done < self.total { self.done } else { self.total };
        let wide: u128 = (done as u128) * 1000u128 / (self.total as u128);
        proof {
            assert((done as int) * 1000 / (self.total as int) <= 1000) by (nonlinear_arith)
                requires
                    done <= self.total,
                    self.total > 0,
            ;
        }
        wide as u64
    }
}

/// Turns the pool's lifetime counters into the progress of the current
/// batch: it remembers where the queue last ran empty and counts from there.
#[derive(Debug, Clone, Copy, PartialEq, Eq, Structural)]
pub struct LoadTracker {
    /// Jobs submitted when the queue last ran empty.
    pub base: u64,
}

impl Default for LoadTracker {
    fn default() -> (t: Self)
        ensures
            t.base == 0,
    {
        LoadTracker { base: 0 }
    }
}

/// `a - b`, or 0 when `b` is the larger.
pub open spec fn sat_sub(a: u64, b: u64) -> u64 {
    if a >= b { (a - b) as u64 } else { 0 }
}

impl LoadTracker {
    /// `None` when no job waits (and the next batch starts counting from
    /// here); otherwise the progress of the current batch.
    pub fn update(&mut self, stats: PoolStatsSnapshot) -> (p: Option<LoadProgress>)
        ensures
            (final(self).base, p) == update_spec(old(self).base, stats),
    {
        let done = stats.finished();
        let total = stats.submitted;
        if done >= total {
            self.base = total;
            return None;
        }
        Some(LoadProgress { done: done.saturating_sub(self.base), total: total.saturating_sub(self.base) })
    }
}

/// One update of the tracker: the new base and what the loading bar shows.
pub open spec fn update_spec(base: u64, stats: PoolStatsSnapshot) -> (u64, Option<LoadProgress>) {
    if finished_spec(stats) >= stats.submitted {
        (stats.submitted, None)
    } else {
        (
            base,
            Some(
                LoadProgress {
                    done: sat_sub(finished_spec(stats) as u64, base),
                    total: sat_sub(stats.submitted, base),
                },
            ),
        )
    }
}

/// The loading bar never claims more work done than there is in the batch,
/// and once the queue has run empty the next batch counts from zero: its
/// total and its done count only what was submitted since.
pub proof fn law_progress_stays_within_its_batch(
    base: u64,
    stats: PoolStatsSnapshot,
    next: PoolStatsSnapshot,
)
    ensures
        update_spec(base, stats).1 matches Some(p) ==> p.done <= p.total,
        update_spec(base, stats).1 is None ==> (update_spec(update_spec(base, stats).0, next).1
            matches Some(p) ==> p.total == sat_sub(next.submitted, stats.submitted) && p.done
            == sat_sub(finished_spec(next) as u64, stats.submitted)),
{
}

} // verus!
