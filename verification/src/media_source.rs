//! The seekable source that a decoder reads a resource through. Each read
//! becomes a request to the download manager; the caller sends it and waits
//! for the replies.

use vstd::prelude::*;
use crate::request::{
    copy_opt_text, opt_text, DownloaderInput, DownloaderInputView, IncomingTask, IncomingTaskView,
    Reply,
};

verus! {

/// Where to seek to: a position from the start, or an offset from the end or
/// from the current position.
#[derive(Debug, Clone, Copy)]
pub enum SeekFrom {
    Start(u64),
    End(i64),
    Current(i64),
}

/// A position that cannot lie before the start.
pub open spec fn at_least_zero(pos: int) -> int {
    if pos > 0 {
        pos
    } else {
        0
    }
}

/// The position that a seek leads to. An offset from the end moves nothing
/// where the total length is unknown.
pub open spec fn seek_target(position: usize, total: Option<usize>, pos: SeekFrom) -> int {
    match pos {
        SeekFrom::Start(p) => p as int,
        SeekFrom::End(d) => match total {
            Some(t) => at_least_zero(t + d),
            None => position as int,
        },
        SeekFrom::Current(d) => at_least_zero(position + d),
    }
}

/// Why a seek was refused.
#[derive(Debug, Clone, Copy, PartialEq, Eq, Structural)]
pub enum SeekError {
    /// The target is past the largest position that the machine can hold.
    OutOfRange,
}

/// What a seek gives: the position it leads to, where that is a `usize`.
pub open spec fn seek_result(position: usize, total: Option<usize>, pos: SeekFrom) -> Result<
    u64,
    SeekError,
> {
    if seek_target(position, total, pos) <= usize::MAX {
        Ok(seek_target(position, total, pos) as u64)
    } else {
        Err(SeekError::OutOfRange)
    }
}

/// What a reply does to a read that waits.
#[derive(Debug, Clone, Copy, PartialEq, Eq, Structural)]
pub enum ReadStep {
    /// The reply answers another request: wait for the next.
    Wait,
    /// The read is done and gave this many bytes.
    Done(usize),
    /// The reply breaks the protocol: the read has failed.
    Failed,
}

/// What a reply of `len` bytes to the request `answered` does to the read
/// that waits for `asked` at `position`, into a buffer of `room` bytes.
pub open spec fn read_step(
    position: usize,
    asked: IncomingTaskView,
    answered: IncomingTaskView,
    len: nat,
    room: nat,
) -> ReadStep {
    if answered != asked {
        ReadStep::Wait
    } else if len <= asked.buff && len <= room && position + len <= usize::MAX {
        ReadStep::Done(len as usize)
    } else {
        ReadStep::Failed
    }
}

/// One resource as a byte source with a position.
pub struct StreamResponse {
    pub url: String,
    pub current_position: usize,
    pub total_length: Option<usize>,
    pub video_id: String,
    pub file_name: Option<String>,
}

impl StreamResponse {
    /// A source at position 0.
    pub fn new(
        url: String,
        video_id: String,
        file_name: Option<String>,
        total_length: Option<usize>,
    ) -> (source: Self)
        ensures
            source.url == url,
            source.video_id == video_id,
            source.file_name == file_name,
            source.total_length == total_length,
            source.current_position == 0,
    {
        StreamResponse { url, current_position: 0, total_length, video_id, file_name }
    }

    /// The request for a read into a buffer of `capacity` bytes: it asks for
    /// that many bytes from the current position.
    pub fn request(&self, capacity: usize) -> (task: IncomingTask)
        ensures
            task.url@ == self.url@,
            task.pos == self.current_position,
            task.buff == capacity,
            task.video_id@ == self.video_id@,
            opt_text(task.file_path) == opt_text(self.file_name),
    {
        IncomingTask {
            url: self.url.clone(),
            pos: self.current_position,
            buff: capacity,
            video_id: self.video_id.clone(),
            file_path: copy_opt_text(&self.file_name),
        }
    }

    /// Takes in a reply while the read for `task` into `buf` waits. A reply
    /// to another request is passed over, and the caller waits on. The reply
    /// to `task` ends the read: its bytes go to the front of `buf`, the
    /// position moves on by their number, and that number is handed out; 0
    /// says that the stream has ended. A reply with more bytes than were
    /// asked for or than `buf` holds, or with so many that the position would
    /// no longer be a `usize`, fails the read and changes nothing.
    pub fn read(&mut self, task: &IncomingTask, reply: &Reply, buf: &mut [u8]) -> (step: ReadStep)
        ensures
            step == read_step(
                old(self).current_position,
                task@,
                reply.task@,
                reply.data@.len(),
                old(buf)@.len(),
            ),
            final(self).current_position == match step {
                ReadStep::Done(n) => (old(self).current_position + n) as usize,
                _ => old(self).current_position,
            },
            final(buf)@ == match step {
                ReadStep::Done(n) => reply.data@ + old(buf)@.skip(n as int),
                _ => old(buf)@,
            },
            final(self).url == old(self).url,
            final(self).video_id == old(self).video_id,
            final(self).file_name == old(self).file_name,
            final(self).total_length == old(self).total_length,
    {
        if reply.task == *task {
            let n = reply.data.len();
            if n <= task.buff && n <= buf.len() && n <= usize::MAX - self.current_position {
                let mut i: usize = 0;
                while i < n
                    invariant
                        i <= n,
                        n == reply.data@.len(),
                        n <= buf@.len(),
                        buf@.len() == old(buf)@.len(),
                        forall|j: int| 0 <= j < i ==> buf@[j] == reply.data@[j],
                        forall|j: int| i <= j < buf@.len() ==> buf@[j] == old(buf)@[j],
                    decreases n - i,
                {
                    buf[i] = reply.data[i];
                    i += 1;
                }
                self.current_position = self.current_position + n;
                ReadStep::Done(n)
            } else {
                ReadStep::Failed
            }
        } else {
            ReadStep::Wait
        }
    }

    /// Moves the position and gives the new one. A target that is no `usize`
    /// is refused, and the position stays.
    pub fn seek(&mut self, pos: SeekFrom) -> (place: Result<u64, SeekError>)
        ensures
            place == seek_result(old(self).current_position, old(self).total_length, pos),
            final(self).current_position == match place {
                Ok(p) => p as usize,
                Err(_) => old(self).current_position,
            },
            place matches Ok(p) ==> p <= usize::MAX,
            final(self).url == old(self).url,
            final(self).video_id == old(self).video_id,
            final(self).file_name == old(self).file_name,
            final(self).total_length == old(self).total_length,
    {
        let target: i128 = match pos {
            SeekFrom::Start(p) => p as i128,
            SeekFrom::End(d) => match self.total_length {
                Some(total) => {
                    let sum: i128 = total as i128 + d as i128;
                    if sum > 0 {
                        sum
                    } else {
                        0
                    }
                },
                None => self.current_position as i128,
            },
            SeekFrom::Current(d) => {
                let sum: i128 = self.current_position as i128 + d as i128;
                if sum > 0 {
                    sum
                } else {
                    0
                }
            },
        };
        if target <= usize::MAX as i128 {
            self.current_position = target as usize;
            Ok(target as u64)
        } else {
            Err(SeekError::OutOfRange)
        }
    }

    /// A source of this kind can always seek.
    pub fn is_seekable(&self) -> (seekable: bool)
        ensures
            seekable,
    {
        true
    }

    /// The total length in bytes, where it is known.
    pub fn byte_len(&self) -> (len: Option<u64>)
        ensures
            match self.total_length {
                Some(n) => len == Some(n as u64),
                None => len is None,
            },
    {
        match self.total_length {
            Some(n) => Some(n as u64),
            None => None,
        }
    }

    /// The message that tells the download manager to forget this resource.
    /// It is due when the source is disposed of.
    pub fn remove_request(&self) -> (input: DownloaderInput)
        ensures
            input@ == DownloaderInputView::RemoveDownload(self.video_id@),
    {
        DownloaderInput::RemoveDownload(self.video_id.clone())
    }
}

} // verus!
