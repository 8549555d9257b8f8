//! What can go wrong during a sync attempt.

use vstd::prelude::*;

verus! {

/// A failure inside a sync attempt, with a message for people.
///
/// Collection and transfer failures end the attempt with a `Failed` record
/// and are retried at the next scheduled run. A store-write failure means the
/// attempt could not even be recorded.
#[derive(Debug)]
pub enum SyncError {
    /// Reading the local data failed.
    Collection(String),
    /// The remote endpoint did not accept the snapshot.
    Transfer(String),
    /// Appending a status record failed.
    StoreWrite(String),
}

/// A [`SyncError`] with its message as characters.
pub enum SyncErrorView {
    /// Reading the local data failed.
    Collection(Seq<char>),
    /// The remote endpoint did not accept the snapshot.
    Transfer(Seq<char>),
    /// Appending a status record failed.
    StoreWrite(Seq<char>),
}

impl View for SyncError {
    type V = SyncErrorView;

    open spec fn view(&self) -> SyncErrorView {
        match self {
            SyncError::Collection(m) => SyncErrorView::Collection(m@),
            SyncError::Transfer(m) => SyncErrorView::Transfer(m@),
            SyncError::StoreWrite(m) => SyncErrorView::StoreWrite(m@),
        }
    }
}

impl SyncErrorView {
    /// The message the error carries.
    pub open spec fn text(self) -> Seq<char> {
        match self {
            SyncErrorView::Collection(m) => m,
            SyncErrorView::Transfer(m) => m,
            SyncErrorView::StoreWrite(m) => m,
        }
    }
}

impl SyncError {
    /// The message the error carries.
    pub open spec fn text(&self) -> Seq<char> {
        match self {
            SyncError::Collection(m) => m@,
            SyncError::Transfer(m) => m@,
            SyncError::StoreWrite(m) => m@,
        }
    }

    /// The message the error carries.
    pub fn message(&self) -> (m: String)
        ensures
            m@ == self.text(),
    {
        match self {
            SyncError::Collection(m) => m.clone(),
            SyncError::Transfer(m) => m.clone(),
            SyncError::StoreWrite(m) => m.clone(),
        }
    }

    /// Whether the attempt may simply be tried again at the next scheduled
    /// run: true of collection and transfer failures alike.
    pub fn is_retryable(&self) -> (r: bool)
        ensures
            r == !(self is StoreWrite),
    {
        match self {
            SyncError::StoreWrite(_) => false,
            _ => true,
        }
    }
}

impl Clone for SyncError {
    fn clone(&self) -> (e: Self)
        ensures
            e == *self,
    {
        match self {
            SyncError::Collection(m) => SyncError::Collection(m.clone()),
            SyncError::Transfer(m) => SyncError::Transfer(m.clone()),
            SyncError::StoreWrite(m) => SyncError::StoreWrite(m.clone()),
        }
    }
}

} // verus!
