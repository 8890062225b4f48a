//! The bridge between a host that announces finished file reads by callback
//! and an application that polls for them.
//!
//! A dropped file is known from the moment of the drop, while its bytes
//! arrive later, outside the frame cadence. The store below keeps one cell per
//! dropped file, filled at most once, and hands the files out most recent
//! first.

use vstd::prelude::*;
use vstd::string::*;

verus! {

/// What is known of the content of a dropped file.
#[derive(Debug, PartialEq, Eq)]
pub enum BufferState {
    /// The read is still in flight.
    Empty,
    /// The read succeeded with these bytes.
    Buffer(Vec<u8>),
    /// The read failed; the payload says why.
    Error(String),
}

/// Mathematical content of a [`BufferState`].
pub enum BufferStateView {
    Empty,
    Buffer(Seq<u8>),
    Error(Seq<char>),
}

impl View for BufferState {
    type V = BufferStateView;

    open spec fn view(&self) -> BufferStateView {
        match *self {
            BufferState::Empty => BufferStateView::Empty,
            BufferState::Buffer(data) => BufferStateView::Buffer(data@),
            BufferState::Error(message) => BufferStateView::Error(message@),
        }
    }
}

impl DeepView for BufferState {
    type V = BufferStateView;

    open spec fn deep_view(&self) -> BufferStateView {
        self@
    }
}

impl Clone for BufferState {
    fn clone(&self) -> (r: Self)
        ensures
            r@ == self@,
    {
        match self {
            BufferState::Empty => BufferState::Empty,
            BufferState::Buffer(data) => BufferState::Buffer(data.clone()),
            BufferState::Error(message) => BufferState::Error(message.clone()),
        }
    }
}

/// The message stored when a read fails for the given reason.
pub open spec fn failure_message(reason: Seq<char>) -> Seq<char> {
    "Fail to read file from web "@ + reason
}

/// The cell after the host delivered `data` for it: a read in flight that
/// yields at least one byte succeeds; an empty delivery leaves it in flight,
/// and a cell that was already filled keeps what it has.
pub open spec fn after_data(state: BufferStateView, data: Seq<u8>) -> BufferStateView {
    if state is Empty && data.len() > 0 {
        BufferStateView::Buffer(data)
    } else {
        state
    }
}

/// The cell after the host reported a failure for it: a read in flight fails
/// with [`failure_message`]; a cell that was already filled keeps what it
/// has.
pub open spec fn after_failure(state: BufferStateView, reason: Seq<char>) -> BufferStateView {
    if state is Empty {
        BufferStateView::Error(failure_message(reason))
    } else {
        state
    }
}

/// A dropped file. Its identity is its place in drop order, counted from 0.
#[derive(Clone, Copy, Debug, PartialEq, Eq, Structural)]
pub struct File {
    pub id: usize,
}

/// Every file dropped so far: the cells with their content, and the files the
/// application has not taken yet.
pub struct DroppedFiles {
    waiting: Vec<File>,
    buffers: Vec<BufferState>,
}

/// Mathematical content of a [`DroppedFiles`] store.
pub struct DroppedFilesView {
    /// Files not yet taken, in drop order.
    pub waiting: Seq<File>,
    /// Content of every file ever dropped, by file id.
    pub buffers: Seq<BufferStateView>,
}

impl DroppedFilesView {
    /// Every waiting file has a cell.
    pub open spec fn wf(self) -> bool {
        forall|i: int|
            0 <= i < self.waiting.len() ==> (#[trigger] self.waiting[i]).id < self.buffers.len()
    }

    /// The store after one more file was dropped.
    pub open spec fn added(self) -> DroppedFilesView {
        DroppedFilesView {
            waiting: self.waiting.push(File { id: self.buffers.len() as usize }),
            buffers: self.buffers.push(BufferStateView::Empty),
        }
    }

    /// The store after the application took the most recent waiting file.
    pub open spec fn taken(self) -> DroppedFilesView {
        if self.waiting.len() > 0 {
            DroppedFilesView { waiting: self.waiting.drop_last(), buffers: self.buffers }
        } else {
            self
        }
    }

    /// The store after the host delivered `data` for `file`.
    pub open spec fn with_data(self, file: File, data: Seq<u8>) -> DroppedFilesView {
        if file.id < self.buffers.len() {
            DroppedFilesView {
                waiting: self.waiting,
                buffers: self.buffers.update(
                    file.id as int,
                    after_data(self.buffers[file.id as int], data),
                ),
            }
        } else {
            self
        }
    }

    /// The store after the host reported that reading `file` failed.
    pub open spec fn with_failure(self, file: File, reason: Seq<char>) -> DroppedFilesView {
        if file.id < self.buffers.len() {
            DroppedFilesView {
                waiting: self.waiting,
                buffers: self.buffers.update(
                    file.id as int,
                    after_failure(self.buffers[file.id as int], reason),
                ),
            }
        } else {
            self
        }
    }

    /// What the store knows of `file`, if it is one of its files.
    pub open spec fn state(self, file: File) -> Option<BufferStateView> {
        if file.id < self.buffers.len() {
            Some(self.buffers[file.id as int])
        } else {
            None
        }
    }
}

impl View for DroppedFiles {
    type V = DroppedFilesView;

    closed spec fn view(&self) -> DroppedFilesView {
        DroppedFilesView { waiting: self.waiting@, buffers: self.buffers.deep_view() }
    }
}

impl DroppedFiles {
    #[verifier::type_invariant]
    spec fn inv(self) -> bool {
        self@.wf()
    }

    /// A store that has seen no file.
    pub fn new() -> (r: DroppedFiles)
        ensures
            r@.waiting.len() == 0,
            r@.buffers.len() == 0,
            r@.wf(),
    {
        DroppedFiles { waiting: Vec::new(), buffers: Vec::new() }
    }

    /// Moves both lists out and leaves the store empty, so that they can be
    /// changed one after the other and put back together.
    fn take_apart(&mut self) -> (parts: (Vec<File>, Vec<BufferState>))
        ensures
            parts.0 == old(self).waiting,
            parts.1 == old(self).buffers,
            old(self)@.wf(),
    {
        proof {
            use_type_invariant(&*self);
        }
        let mut waiting: Vec<File> = Vec::new();
        let mut buffers: Vec<BufferState> = Vec::new();
        core::mem::swap(&mut waiting, &mut self.waiting);
        core::mem::swap(&mut buffers, &mut self.buffers);
        (waiting, buffers)
    }

    /// Registers a file that was just dropped: it gets the next id, an empty
    /// cell, and the top place among the waiting files.
    pub fn add(&mut self) -> (file: File)
        ensures
            file.id == old(self)@.buffers.len(),
            final(self)@ == old(self)@.added(),
            final(self)@.wf(),
    {
        let (mut waiting, mut buffers) = self.take_apart();
        let file = File { id: buffers.len() };
        buffers.push(BufferState::Empty);
        waiting.push(file);
        proof {
            let before = old(self)@;
            assert(buffers.deep_view() =~= before.buffers.push(BufferStateView::Empty));
            assert forall|i: int| 0 <= i < waiting@.len() implies (#[trigger] waiting@[i]).id
                < buffers.deep_view().len() by {
                if i < before.waiting.len() {
                    assert(waiting@[i] == before.waiting[i]);
                }
            }
        }
        *self = DroppedFiles { waiting, buffers };
        file
    }

    /// Takes the most recently dropped file that is still waiting.
    pub fn take(&mut self) -> (file: Option<File>)
        ensures
            final(self)@ == old(self)@.taken(),
            file == (if old(self)@.waiting.len() > 0 {
                Some(old(self)@.waiting.last())
            } else {
                None
            }),
            file matches Some(f) ==> final(self)@.state(f) is Some,
            final(self)@.wf(),
    {
        let (mut waiting, buffers) = self.take_apart();
        let file = waiting.pop();
        proof {
            let before = old(self)@;
            assert forall|i: int| 0 <= i < waiting@.len() implies (#[trigger] waiting@[i]).id
                < buffers.deep_view().len() by {
                assert(waiting@[i] == before.waiting[i]);
            }
            if before.waiting.len() > 0 {
                assert(before.waiting.last() == before.waiting[before.waiting.len() - 1]);
            }
        }
        *self = DroppedFiles { waiting, buffers };
        file
    }

    /// Number of files dropped so far.
    pub fn count(&self) -> (n: usize)
        ensures
            n == self@.buffers.len(),
    {
        self.buffers.len()
    }

    /// Looks up the cell of `file`.
    pub fn state(&self, file: File) -> (state: Option<&BufferState>)
        ensures
            state.deep_view() == self@.state(file),
    {
        if file.id < self.buffers.len() {
            Some(&self.buffers[file.id])
        } else {
            None
        }
    }

    /// Records the bytes the host read for `file`.
    pub fn read_finished(&mut self, file: File, data: Vec<u8>)
        ensures
            final(self)@ == old(self)@.with_data(file, data@),
            final(self)@.wf(),
    {
        let (waiting, mut buffers) = self.take_apart();
        if file.id < buffers.len() {
            let in_flight = match &buffers[file.id] {
                BufferState::Empty => true,
                _ => false,
            };
            if in_flight && data.len() > 0 {
                buffers.set(file.id, BufferState::Buffer(data));
            }
            assert(buffers.deep_view() =~= old(self)@.with_data(file, data@).buffers);
        }
        *self = DroppedFiles { waiting, buffers };
    }

    /// Records that the host could not read `file`.
    pub fn read_failed(&mut self, file: File, reason: &str)
        ensures
            final(self)@ == old(self)@.with_failure(file, reason@),
            final(self)@.wf(),
    {
        let (waiting, mut buffers) = self.take_apart();
        if file.id < buffers.len() {
            let in_flight = match &buffers[file.id] {
                BufferState::Empty => true,
                _ => false,
            };
            if in_flight {
                let message = String::from_str("Fail to read file from web ").concat(reason);
                buffers.set(file.id, BufferState::Error(message));
            }
            assert(buffers.deep_view() =~= old(self)@.with_failure(file, reason@).buffers);
        }
        *self = DroppedFiles { waiting, buffers };
    }
}

} // verus!
