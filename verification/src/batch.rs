use vstd::prelude::*;

use vstd::slice::slice_to_vec;

verus! {

/// The status carried by a progress event.
#[derive(Clone, Copy, PartialEq, Eq, Structural, Debug)]
pub enum EventStatus {
    /// One more file has been fully processed.
    Processing,
    /// The whole batch has been processed.
    Done,
}

/// One progress report of a batch. The fraction of work done is
/// `current_file_number / total_files`; the host derives it from these two
/// fields when it forwards the event.
pub struct ProgressEvent {
    pub status: EventStatus,
    pub current_file_path: Vec<u8>,
    pub total_files: usize,
    pub current_file_number: usize,
}

impl EventStatus {
    /// The status string carried by the event payload the interface sees.
    pub open spec fn label_spec(self) -> Seq<char> {
        match self {
            EventStatus::Processing => "processing"@,
            EventStatus::Done => "done"@,
        }
    }

    pub fn label(&self) -> (r: &'static str)
        ensures
            r@ == self.label_spec(),
    {
        match self {
            EventStatus::Processing => "processing",
            EventStatus::Done => "done",
        }
    }
}

/// The path reported by the terminal event of a batch.
pub open spec fn done_path() -> Seq<u8> {
    seq![68u8, 111u8, 110u8, 101u8]
}

/// The common skeleton of the three batch operations. It decides, between
/// files, whether the next file may start, and which event each outcome
/// produces; the host performs the per-file work and delivers the events.
///
/// Progress events of one batch carry strictly increasing file numbers; a
/// terminal event is produced at most once, and never after a cancellation
/// or after a per-file error.
pub struct Batch {
    total: usize,
    completed: usize,
    aborted: bool,
}

impl Batch {
    /// How many files the batch was started with.
    pub closed spec fn total_files(self) -> int {
        self.total as int
    }

    /// How many files have been fully processed so far.
    pub closed spec fn completed(self) -> int {
        self.completed as int
    }

    /// Whether a per-file error has stopped the batch.
    pub closed spec fn aborted(self) -> bool {
        self.aborted
    }

    pub closed spec fn wf(self) -> bool {
        self.completed <= self.total
    }

    /// The index of the file a batch in this state works on next: none once
    /// every file is done, an error was seen, or a cancellation observed.
    pub closed spec fn next_file_spec(self, cancelled: bool) -> Option<usize> {
        if cancelled || self.aborted || self.completed == self.total {
            None
        } else {
            Some(self.completed)
        }
    }

    /// Whether a batch in this state emits the terminal event: only when
    /// every file was processed, no error was seen, and no cancellation was
    /// observed.
    pub closed spec fn emits_done(self, cancelled: bool) -> bool {
        !cancelled && !self.aborted && self.completed == self.total
    }

    /// Starts a batch over `total` files.
    pub fn new(total: usize) -> (b: Batch)
        ensures
            b.wf(),
            b.total_files() == total,
            b.completed() == 0,
            !b.aborted(),
    {
        Batch { total, completed: 0, aborted: false }
    }

    /// Decides whether another file may start, given the cancellation flag
    /// as polled at this boundary, and which one.
    pub fn next_file(&self, cancelled: bool) -> (r: Option<usize>)
        requires
            self.wf(),
        ensures
            r == self.next_file_spec(cancelled),
    {
        if cancelled || self.aborted || self.completed == self.total {
            None
        } else {
            Some(self.completed)
        }
    }

    /// Records that the current file was fully processed and yields the
    /// progress event to deliver: status "processing", the file's path, and
    /// its one-based number in the batch.
    pub fn file_succeeded(&mut self, path: &Vec<u8>) -> (ev: ProgressEvent)
        requires
            old(self).wf(),
            !old(self).aborted(),
            old(self).completed() < old(self).total_files(),
        ensures
            final(self).wf(),
            final(self).total_files() == old(self).total_files(),
            final(self).completed() == old(self).completed() + 1,
            !final(self).aborted(),
            ev.status == EventStatus::Processing,
            ev.current_file_path@ == path@,
            ev.total_files == old(self).total_files(),
            ev.current_file_number == old(self).completed() + 1,
    {
        self.completed = self.completed + 1;
        ProgressEvent {
            status: EventStatus::Processing,
            current_file_path: slice_to_vec(path.as_slice()),
            total_files: self.total,
            current_file_number: self.completed,
        }
    }

    /// Records that the current file failed. The batch stops here: the host
    /// delivers one error event with the failure's message and no terminal
    /// event follows.
    pub fn file_failed(&mut self)
        requires
            old(self).wf(),
        ensures
            final(self).wf(),
            final(self).total_files() == old(self).total_files(),
            final(self).completed() == old(self).completed(),
            final(self).aborted(),
    {
        self.aborted = true;
    }

    /// Yields the terminal event, if this batch run ends with one: status
    /// "done", every file counted, and the fraction of work complete.
    pub fn finish(&self, cancelled: bool) -> (r: Option<ProgressEvent>)
        requires
            self.wf(),
        ensures
            r is Some <==> self.emits_done(cancelled),
            r matches Some(ev) ==> ev.status == EventStatus::Done && ev.current_file_path@
                == done_path() && ev.total_files == self.total_files()
                && ev.current_file_number == self.total_files(),
    {
        if !cancelled && !self.aborted && self.completed == self.total {
            let mut path: Vec<u8> = Vec::new();
            path.push(68);
            path.push(111);
            path.push(110);
            path.push(101);
            proof {
                assert(path@ =~= done_path());
            }
            Some(
                ProgressEvent {
                    status: EventStatus::Done,
                    current_file_path: path,
                    total_files: self.total,
                    current_file_number: self.total,
                },
            )
        } else {
            None
        }
    }
}

/// Once a cancellation is observed at a between-files boundary, a batch
/// neither starts another file nor emits a terminal event.
pub proof fn lemma_cancellation_halts_batch(b: Batch)
    requires
        b.wf(),
    ensures
        b.next_file_spec(true) is None,
        !b.emits_done(true),
{
}

/// A batch stopped by a per-file error neither starts another file nor
/// emits a terminal event, whatever the cancellation flag says.
pub proof fn lemma_error_halts_batch(b: Batch, cancelled: bool)
    requires
        b.wf(),
        b.aborted(),
    ensures
        b.next_file_spec(cancelled) is None,
        !b.emits_done(cancelled),
{
}

} // verus!
