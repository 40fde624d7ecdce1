//! Counting the bytes that pass through a stream.
//!
//! A [`BytesRWTracker`] wraps a stream and counts what is read from it and
//! written to it. A [`BytesRWTrackerHandle`] reads the same counters, and
//! goes on reading them after the tracker has been handed to whoever
//! consumes the stream.
//!
//! Only the tracker counts. So it keeps the two numbers itself as well,
//! and what it tells of them is exact; the shared counters are there for
//! the handles.

use vstd::prelude::*;
use std::sync::Arc;
use std::sync::atomic::AtomicUsize;
use crate::transport::count::{counted, gained};
use crate::utils::shared::share;

verus! {

/// A stream with two counters: the bytes read from it and the bytes
/// written to it so far.
#[derive(Debug)]
pub struct BytesRWTracker<S> {
    read: Arc<AtomicUsize>,
    written: Arc<AtomicUsize>,
    read_so_far: usize,
    written_so_far: usize,
    stream: S,
}

/// A handle on the counters of a [`BytesRWTracker`].
#[derive(Debug)]
pub struct BytesRWTrackerHandle {
    read: Arc<AtomicUsize>,
    written: Arc<AtomicUsize>,
}

impl<S> BytesRWTracker<S> {
    /// The stream, as a value.
    pub closed spec fn stream_spec(&self) -> S {
        self.stream
    }

    /// The counter of the bytes read.
    pub closed spec fn read_counter(&self) -> Arc<AtomicUsize> {
        self.read
    }

    /// The counter of the bytes written.
    pub closed spec fn written_counter(&self) -> Arc<AtomicUsize> {
        self.written
    }

    /// The number of bytes read so far, as a value.
    pub closed spec fn bytes_read(&self) -> usize {
        self.read_so_far
    }

    /// The number of bytes written so far, as a value.
    pub closed spec fn bytes_written(&self) -> usize {
        self.written_so_far
    }

    /// A tracker around `stream`, with counters of its own that start at
    /// zero.
    pub fn new(stream: S) -> (tracker: Self)
        ensures
            tracker.stream_spec() == stream,
            tracker.bytes_read() == 0,
            tracker.bytes_written() == 0,
    {
        Self {
            read: Arc::new(AtomicUsize::new(0)),
            written: Arc::new(AtomicUsize::new(0)),
            read_so_far: 0,
            written_so_far: 0,
            stream,
        }
    }

    /// The number of bytes read so far: the sum of the reads counted
    /// since the tracker was made.
    pub fn read(&self) -> (bytes: usize)
        ensures
            bytes == self.bytes_read(),
    {
        self.read_so_far
    }

    /// The number of bytes written so far: the sum of the writes counted
    /// since the tracker was made.
    pub fn written(&self) -> (bytes: usize)
        ensures
            bytes == self.bytes_written(),
    {
        self.written_so_far
    }

    /// A handle on the counters of this tracker: on the same counters,
    /// not on a copy of what they hold now.
    pub fn handle(&self) -> (handle: BytesRWTrackerHandle)
        ensures
            handle.read_counter() == self.read_counter(),
            handle.written_counter() == self.written_counter(),
    {
        BytesRWTrackerHandle { read: share(&self.read), written: share(&self.written) }
    }

    /// The stream, without the tracker. The handles then count no
    /// further, and go on telling what was counted.
    pub fn into_inner(self) -> (stream: S)
        ensures
            stream == self.stream_spec(),
    {
        self.stream
    }

    /// The stream.
    pub fn get_ref(&self) -> (stream: &S)
        ensures
            *stream == self.stream_spec(),
    {
        &self.stream
    }

    /// The stream, to read from it or write to it. The counters stay the
    /// same counters, and what they have counted stays.
    pub fn get_mut(&mut self) -> (stream: &mut S)
        ensures
            *stream == old(self).stream_spec(),
            final(self).stream_spec() == *final(stream),
            final(self).read_counter() == old(self).read_counter(),
            final(self).written_counter() == old(self).written_counter(),
            final(self).bytes_read() == old(self).bytes_read(),
            final(self).bytes_written() == old(self).bytes_written(),
    {
        &mut self.stream
    }

    /// Counts a read that filled the buffer from `filled_before` bytes to
    /// `filled_after` bytes: the bytes gained are added to the bytes
    /// read, here and in the shared counter.
    pub fn note_read(&mut self, filled_before: usize, filled_after: usize)
        requires
            filled_before <= filled_after,
        ensures
            final(self).bytes_read() == counted(old(self).bytes_read(), gained(filled_before, filled_after)),
            final(self).bytes_written() == old(self).bytes_written(),
            final(self).stream_spec() == old(self).stream_spec(),
            final(self).read_counter() == old(self).read_counter(),
            final(self).written_counter() == old(self).written_counter(),
    {
        let bytes_read = filled_after - filled_before;
        self.read.fetch_add(bytes_read, std::sync::atomic::Ordering::Relaxed);
        self.read_so_far = self.read_so_far.wrapping_add(bytes_read);
    }

    /// Counts a read by how it ended: a read that succeeded is counted as
    /// [`BytesRWTracker::note_read`] counts it; a read that failed, or
    /// that is still pending, counts nothing.
    pub fn note_read_outcome(&mut self, succeeded: bool, filled_before: usize, filled_after: usize)
        requires
            succeeded ==> filled_before <= filled_after,
        ensures
            final(self).bytes_read() == if succeeded {
                counted(old(self).bytes_read(), gained(filled_before, filled_after))
            } else {
                old(self).bytes_read()
            },
            final(self).bytes_written() == old(self).bytes_written(),
            final(self).stream_spec() == old(self).stream_spec(),
            final(self).read_counter() == old(self).read_counter(),
            final(self).written_counter() == old(self).written_counter(),
    {
        if succeeded {
            self.note_read(filled_before, filled_after);
        }
    }

    /// Counts a write by how it ended: `outcome` holds the number of
    /// bytes that a successful write took, and nothing for a write that
    /// failed or is still pending, which counts nothing.
    pub fn note_write_outcome(&mut self, outcome: Option<usize>)
        ensures
            final(self).bytes_written() == match outcome {
                Some(bytes_written) => counted(old(self).bytes_written(), bytes_written),
                None => old(self).bytes_written(),
            },
            final(self).bytes_read() == old(self).bytes_read(),
            final(self).stream_spec() == old(self).stream_spec(),
            final(self).read_counter() == old(self).read_counter(),
            final(self).written_counter() == old(self).written_counter(),
    {
        match outcome {
            Some(bytes_written) => self.note_written(bytes_written),
            None => {},
        }
    }

    /// Counts a write of `bytes_written` bytes: they are added to the
    /// bytes written, here and in the shared counter.
    pub fn note_written(&mut self, bytes_written: usize)
        ensures
            final(self).bytes_written() == counted(old(self).bytes_written(), bytes_written),
            final(self).bytes_read() == old(self).bytes_read(),
            final(self).stream_spec() == old(self).stream_spec(),
            final(self).read_counter() == old(self).read_counter(),
            final(self).written_counter() == old(self).written_counter(),
    {
        self.written.fetch_add(bytes_written, std::sync::atomic::Ordering::Relaxed);
        self.written_so_far = self.written_so_far.wrapping_add(bytes_written);
    }
}

impl BytesRWTrackerHandle {
    /// The counter of the bytes read.
    pub closed spec fn read_counter(&self) -> Arc<AtomicUsize> {
        self.read
    }

    /// The counter of the bytes written.
    pub closed spec fn written_counter(&self) -> Arc<AtomicUsize> {
        self.written
    }

    /// The number of bytes read so far, as the shared counter holds it
    /// at the moment of the call. The tracker may count on meanwhile, so
    /// nothing is promised of the number.
    pub fn read(&self) -> usize {
        self.read.load(std::sync::atomic::Ordering::Relaxed)
    }

    /// The number of bytes written so far, as the shared counter holds
    /// it at the moment of the call. Nothing is promised of the number.
    pub fn written(&self) -> usize {
        self.written.load(std::sync::atomic::Ordering::Relaxed)
    }
}

} // verus!
