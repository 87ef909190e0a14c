//! The session as a mathematical state machine: its states, the events that a
//! driver reports, the actions that it is asked for, and the transition
//! between them. The executable session is specified against this model.

use crate::config::ConfigView;
use crate::error::Error;
use crate::path::joined;
use crate::url::{filename_url, list_info_url, search_url};
use vstd::prelude::*;

verus! {

/// A list of the service: its id and the number of its entries, which have
/// the indices from 0 up to `length`, `length` excluded.
#[derive(Clone, Copy, Debug, PartialEq, Eq, Structural)]
pub struct FileListData {
    pub id: u32,
    pub length: usize,
}

/// What a session is waiting for.
#[derive(Clone, Copy, Debug, PartialEq, Eq, Structural)]
pub enum Phase {
    /// The status of the reply to the list request.
    ListStatus,
    /// The list that the body of that reply describes.
    ListBody,
    /// The status of the reply to a file-name request.
    NameStatus,
    /// The text in the body of that reply.
    NameBody,
    /// The outcome of creating a link.
    Linking,
    /// Nothing: all links were created.
    Finished,
    /// Nothing: the session has failed with this error.
    Failed(Error),
}

/// What the driver reports to a session.
#[verifier::ext_equal]
pub enum EventView {
    /// A reply arrived, with this status.
    Status(u16),
    /// The request, or reading its reply, could not be completed.
    NetworkFailure,
    /// The body of the reply describes this list.
    ListData(FileListData),
    /// The body of the reply describes no list.
    MalformedBody,
    /// The body of the reply, as text.
    Text(Seq<char>),
    /// The link was created.
    Linked,
    /// The link could not be created.
    LinkFailure,
}

/// What a session asks of the driver.
#[verifier::ext_equal]
pub enum ActionView {
    /// Send a GET request to this URL and report the status of the reply.
    Get(Seq<char>),
    /// Read the body of the reply at hand as the description of a list.
    DecodeList,
    /// Read the body of the reply at hand as text.
    ReadText,
    /// Create a symbolic link at `target` that points to `source`.
    Link { source: Seq<char>, target: Seq<char> },
    /// Stop: the work is done.
    Finish,
    /// Stop: the session has failed.
    Abort(Error),
}

/// The state of a session.
#[verifier::ext_equal]
pub struct SessionView {
    pub config: ConfigView,
    pub phase: Phase,
    /// The list that was resolved; of no meaning before that.
    pub list: FileListData,
    /// The file names fetched so far, in the order of their indices.
    pub names: Seq<Seq<char>>,
    /// The number of links created so far.
    pub linked: nat,
}

impl SessionView {
    /// What holds of every state that a session can reach: names are fetched
    /// before any link is made, never more of them than the list has entries,
    /// and links are made only once all names are there.
    pub open spec fn well_formed(self) -> bool {
        match self.phase {
            Phase::ListStatus | Phase::ListBody => self.names.len() == 0 && self.linked == 0,
            Phase::NameStatus | Phase::NameBody => self.names.len() < self.list.length
                && self.linked == 0,
            Phase::Linking => self.names.len() == self.list.length && self.linked
                < self.names.len(),
            Phase::Finished => self.names.len() == self.list.length && self.linked
                == self.names.len(),
            Phase::Failed(_) => true,
        }
    }
}

/// The URL of the request that resolves the list of `config`: by search term
/// where there is one, else by list id, else none.
pub open spec fn list_request(config: ConfigView) -> Option<Seq<char>> {
    match (config.search_term, config.list_id) {
        (Some(term), _) => Some(search_url(config.port, term)),
        (None, Some(list_id)) => Some(list_info_url(config.port, list_id)),
        (None, None) => None,
    }
}

/// Whether `event` is an answer to what a session in `phase` has asked for.
pub open spec fn answers(phase: Phase, event: EventView) -> bool {
    match phase {
        Phase::ListStatus | Phase::NameStatus => event is Status || event is NetworkFailure,
        Phase::ListBody => event is ListData || event is MalformedBody || event is NetworkFailure,
        Phase::NameBody => event is Text || event is NetworkFailure,
        Phase::Linking => event is Linked || event is LinkFailure,
        Phase::Finished | Phase::Failed(_) => false,
    }
}

/// The error with which `event` ends a session that waits in `phase`, if it
/// ends it: an event that was not asked for, a failure that the driver
/// reports, or a status other than 200.
pub open spec fn failure(phase: Phase, event: EventView) -> Option<Error> {
    if !answers(phase, event) {
        Some(Error::UnexpectedEvent)
    } else {
        match event {
            EventView::Status(status) => if status == 200 {
                None
            } else {
                Some(Error::InvalidStatus(status))
            },
            EventView::NetworkFailure => Some(Error::Network),
            EventView::MalformedBody => Some(Error::Deserialization),
            EventView::LinkFailure => Some(Error::Filesystem),
            _ => None,
        }
    }
}

/// The session `s` failing with `error`.
pub open spec fn failed(s: SessionView, error: Error) -> (SessionView, ActionView) {
    (SessionView { phase: Phase::Failed(error), ..s }, ActionView::Abort(error))
}

/// The link for the name at `index`: both ends are that name, joined onto the
/// source directory and onto the target directory.
pub open spec fn link_at(s: SessionView, index: int) -> ActionView {
    ActionView::Link {
        source: joined(s.config.source_dir, s.names[index]),
        target: joined(s.config.target_dir, s.names[index]),
    }
}

/// What comes after `s.linked` links: the link for the next name, or the end.
pub open spec fn link_next(s: SessionView) -> (SessionView, ActionView) {
    if s.linked < s.names.len() {
        (SessionView { phase: Phase::Linking, ..s }, link_at(s, s.linked as int))
    } else {
        (SessionView { phase: Phase::Finished, ..s }, ActionView::Finish)
    }
}

/// What comes after the names in `s.names`: the request for the name at the
/// next index, or, with all names there, the first link.
pub open spec fn fetch_next(s: SessionView) -> (SessionView, ActionView) {
    if s.names.len() < s.list.length {
        (
            SessionView { phase: Phase::NameStatus, ..s },
            ActionView::Get(filename_url(s.config.port, s.list.id, s.names.len())),
        )
    } else {
        link_next(SessionView { linked: 0, ..s })
    }
}

/// The state in which a session for `config` starts, and its first action:
/// the list request, or failure where the configuration selects no list.
pub open spec fn start(config: ConfigView) -> (SessionView, ActionView) {
    let s = SessionView {
        config,
        phase: Phase::ListStatus,
        list: FileListData { id: 0, length: 0 },
        names: Seq::empty(),
        linked: 0,
    };
    match list_request(config) {
        Some(url) => (s, ActionView::Get(url)),
        None => failed(s, Error::MissingSelector),
    }
}

/// The state that follows `s` when the driver reports `event`, and the next
/// action.
///
/// A session that has ended stays as it is and repeats its last word. One
/// that waits fails where [`failure`] names an error. Otherwise a status of
/// 200 asks for the body, a list starts the fetch, a text is the next name,
/// and a link made leads to the next one.
pub open spec fn step(s: SessionView, event: EventView) -> (SessionView, ActionView) {
    match s.phase {
        Phase::Finished => (s, ActionView::Finish),
        Phase::Failed(error) => (s, ActionView::Abort(error)),
        _ => match failure(s.phase, event) {
            Some(error) => failed(s, error),
            None => match event {
                EventView::Status(_) => if s.phase is ListStatus {
                    (SessionView { phase: Phase::ListBody, ..s }, ActionView::DecodeList)
                } else {
                    (SessionView { phase: Phase::NameBody, ..s }, ActionView::ReadText)
                },
                EventView::ListData(list) => fetch_next(SessionView { list, ..s }),
                EventView::Text(name) => fetch_next(SessionView { names: s.names.push(name), ..s }),
                EventView::Linked => link_next(SessionView { linked: s.linked + 1, ..s }),
                _ => failed(s, Error::UnexpectedEvent),
            },
        },
    }
}

} // verus!
