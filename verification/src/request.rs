//! The messages that go into and come out of the download manager.

use vstd::prelude::*;
use vstd::std_specs::cmp::PartialEqSpecImpl;

verus! {

/// A request for the bytes of one resource from `pos` on, at most `buff` of
/// them. Two requests are the same request when all their fields agree.
#[derive(Debug)]
pub struct IncomingTask {
    pub url: String,
    pub pos: usize,
    pub buff: usize,
    pub video_id: String,
    pub file_path: Option<String>,
}

/// What a request holds, as plain values.
pub struct IncomingTaskView {
    pub url: Seq<char>,
    pub pos: usize,
    pub buff: usize,
    pub video_id: Seq<char>,
    pub file_path: Option<Seq<char>>,
}

/// The characters of an optional string.
pub open spec fn opt_text(s: Option<String>) -> Option<Seq<char>> {
    match s {
        Some(t) => Some(t@),
        None => None,
    }
}

impl View for IncomingTask {
    type V = IncomingTaskView;

    open spec fn view(&self) -> IncomingTaskView {
        IncomingTaskView {
            url: self.url@,
            pos: self.pos,
            buff: self.buff,
            video_id: self.video_id@,
            file_path: opt_text(self.file_path),
        }
    }
}

/// Whether two optional strings hold the same text.
pub fn same_opt_text(a: &Option<String>, b: &Option<String>) -> (same: bool)
    ensures
        same == (opt_text(*a) == opt_text(*b)),
{
    match a {
        Some(x) => match b {
            Some(y) => *x == *y,
            None => false,
        },
        None => b.is_none(),
    }
}

/// A copy of an optional string.
pub fn copy_opt_text(a: &Option<String>) -> (copy: Option<String>)
    ensures
        opt_text(copy) == opt_text(*a),
{
    match a {
        Some(x) => Some(x.clone()),
        None => None,
    }
}

impl PartialEq for IncomingTask {
    fn eq(&self, other: &Self) -> (same: bool) {
        self.url == other.url && self.pos == other.pos && self.buff == other.buff && self.video_id
            == other.video_id && same_opt_text(&self.file_path, &other.file_path)
    }
}

impl PartialEqSpecImpl for IncomingTask {
    open spec fn obeys_eq_spec() -> bool {
        true
    }

    open spec fn eq_spec(&self, other: &Self) -> bool {
        self@ == other@
    }
}

impl Clone for IncomingTask {
    fn clone(&self) -> (copy: Self)
        ensures
            copy@ == self@,
    {
        IncomingTask {
            url: self.url.clone(),
            pos: self.pos,
            buff: self.buff,
            video_id: self.video_id.clone(),
            file_path: copy_opt_text(&self.file_path),
        }
    }
}

/// What a producer may ask of the download manager.
pub enum DownloaderInput {
    /// Read bytes of a resource.
    DownloadTask(IncomingTask),
    /// Forget the resource with this id.
    RemoveDownload(String),
}

/// What an input holds, as plain values.
pub enum DownloaderInputView {
    DownloadTask(IncomingTaskView),
    RemoveDownload(Seq<char>),
}

impl View for DownloaderInput {
    type V = DownloaderInputView;

    open spec fn view(&self) -> DownloaderInputView {
        match self {
            DownloaderInput::DownloadTask(task) => DownloaderInputView::DownloadTask(task@),
            DownloaderInput::RemoveDownload(id) => DownloaderInputView::RemoveDownload(id@),
        }
    }
}

impl DownloaderInputView {
    /// The id of the resource that the input is about.
    pub open spec fn id(self) -> Seq<char> {
        match self {
            DownloaderInputView::DownloadTask(task) => task.video_id,
            DownloaderInputView::RemoveDownload(id) => id,
        }
    }
}

impl DownloaderInput {
    /// The id of the resource that the input is about.
    pub fn id(&self) -> (id: String)
        ensures
            id@ == self@.id(),
    {
        match self {
            DownloaderInput::DownloadTask(task) => task.video_id.clone(),
            DownloaderInput::RemoveDownload(id) => id.clone(),
        }
    }

    /// The read request, if the input is one.
    pub fn as_download_task(&self) -> (task: Option<&IncomingTask>)
        ensures
            match task {
                Some(t) => *self == DownloaderInput::DownloadTask(*t),
                None => self is RemoveDownload,
            },
    {
        if let DownloaderInput::DownloadTask(v) = self {
            Some(v)
        } else {
            None
        }
    }

    /// The id to remove, if the input is a removal.
    pub fn as_remove_download(&self) -> (id: Option<&String>)
        ensures
            match id {
                Some(v) => *self == DownloaderInput::RemoveDownload(*v),
                None => self is DownloadTask,
            },
    {
        if let DownloaderInput::RemoveDownload(v) = self {
            Some(v)
        } else {
            None
        }
    }
}

impl PartialEq for DownloaderInput {
    fn eq(&self, other: &Self) -> (same: bool) {
        match self {
            DownloaderInput::DownloadTask(a) => match other {
                DownloaderInput::DownloadTask(b) => *a == *b,
                DownloaderInput::RemoveDownload(_) => false,
            },
            DownloaderInput::RemoveDownload(a) => match other {
                DownloaderInput::DownloadTask(_) => false,
                DownloaderInput::RemoveDownload(b) => *a == *b,
            },
        }
    }
}

impl PartialEqSpecImpl for DownloaderInput {
    open spec fn obeys_eq_spec() -> bool {
        true
    }

    open spec fn eq_spec(&self, other: &Self) -> bool {
        self@ == other@
    }
}

impl Clone for DownloaderInput {
    fn clone(&self) -> (copy: Self)
        ensures
            copy@ == self@,
    {
        match self {
            DownloaderInput::DownloadTask(task) => DownloaderInput::DownloadTask(task.clone()),
            DownloaderInput::RemoveDownload(id) => DownloaderInput::RemoveDownload(id.clone()),
        }
    }
}

/// The answer to a read request. Empty `data` says that the resource has no
/// byte at the request's offset: the stream has ended there.
pub struct Reply {
    pub task: IncomingTask,
    pub data: Vec<u8>,
}

} // verus!
