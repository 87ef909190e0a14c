//! The executable session: it holds the state and turns each event that the
//! driver reports into the next action.

use crate::config::Config;
use crate::error::Error;
use crate::model::{self, ActionView, EventView, FileListData, Phase, SessionView};
use crate::path::join;
use crate::url::{filename_request_url, list_info_request_url, search_request_url};
use vstd::prelude::*;

verus! {

/// What the driver reports to a session.
#[derive(Clone, Debug, PartialEq, Eq)]
pub enum Event {
    /// A reply arrived, with this status.
    Status(u16),
    /// The request, or reading its reply, could not be completed.
    NetworkFailure,
    /// The body of the reply describes this list.
    ListData(FileListData),
    /// The body of the reply describes no list.
    MalformedBody,
    /// The body of the reply, as text.
    Text(String),
    /// The link was created.
    Linked,
    /// The link could not be created.
    LinkFailure,
}

impl View for Event {
    type V = EventView;

    open spec fn view(&self) -> EventView {
        match self {
            Event::Status(status) => EventView::Status(*status),
            Event::NetworkFailure => EventView::NetworkFailure,
            Event::ListData(list) => EventView::ListData(*list),
            Event::MalformedBody => EventView::MalformedBody,
            Event::Text(text) => EventView::Text(text@),
            Event::Linked => EventView::Linked,
            Event::LinkFailure => EventView::LinkFailure,
        }
    }
}

/// What a session asks of the driver.
#[derive(Clone, Debug, PartialEq, Eq)]
pub enum Action {
    /// Send a GET request to this URL and report the status of the reply.
    Get(String),
    /// Read the body of the reply at hand as the description of a list.
    DecodeList,
    /// Read the body of the reply at hand as text.
    ReadText,
    /// Create a symbolic link at `target` that points to `source`.
    Link { source: String, target: String },
    /// Stop: the work is done.
    Finish,
    /// Stop: the session has failed.
    Abort(Error),
}

impl View for Action {
    type V = ActionView;

    open spec fn view(&self) -> ActionView {
        match self {
            Action::Get(url) => ActionView::Get(url@),
            Action::DecodeList => ActionView::DecodeList,
            Action::ReadText => ActionView::ReadText,
            Action::Link { source, target } => ActionView::Link { source: source@, target: target@ },
            Action::Finish => ActionView::Finish,
            Action::Abort(error) => ActionView::Abort(*error),
        }
    }
}

/// One run of the client: resolve a list, fetch its file names, link them.
pub struct Session {
    config: Config,
    phase: Phase,
    list: FileListData,
    names: Vec<String>,
    linked: usize,
}

impl View for Session {
    type V = SessionView;

    closed spec fn view(&self) -> SessionView {
        SessionView {
            config: self.config@,
            phase: self.phase,
            list: self.list,
            names: self.names.deep_view(),
            linked: self.linked as nat,
        }
    }
}

impl Session {
    #[verifier::type_invariant]
    spec fn well_formed(self) -> bool {
        self@.well_formed()
    }

    /// Starts a session for `config` and gives its first action: the request
    /// that resolves the list, or `Abort` where no list is selected.
    pub fn start(config: Config) -> (next: (Session, Action))
        ensures
            next.0@ == model::start(config@).0,
            next.1@ == model::start(config@).1,
    {
        let request: Option<String> = match &config.search_term {
            Some(term) => Some(search_request_url(term.as_str(), config.port)),
            None => match config.list_id {
                Some(list_id) => Some(list_info_request_url(list_id, config.port)),
                None => None,
            },
        };
        let list = FileListData { id: 0, length: 0 };
        let names: Vec<String> = Vec::new();
        match request {
            Some(url) => {
                let session = Session { config, phase: Phase::ListStatus, list, names, linked: 0 };
                (session, Action::Get(url))
            },
            None => {
                let error = Error::MissingSelector;
                let session = Session { config, phase: Phase::Failed(error), list, names, linked: 0 };
                (session, Action::Abort(error))
            },
        }
    }

    /// Takes what the driver reports and gives the next action.
    pub fn step(self, event: Event) -> (next: (Session, Action))
        ensures
            next.0@ == model::step(self@, event@).0,
            next.1@ == model::step(self@, event@).1,
    {
        proof {
            use_type_invariant(&self);
        }
        match self.phase {
            Phase::Finished => (self, Action::Finish),
            Phase::Failed(error) => (self, Action::Abort(error)),
            Phase::ListStatus => match event {
                Event::Status(status) => if status == 200 {
                    let next = Session { phase: Phase::ListBody, ..self };
                    (next, Action::DecodeList)
                } else {
                    self.fail(Error::InvalidStatus(status))
                },
                Event::NetworkFailure => self.fail(Error::Network),
                _ => self.fail(Error::UnexpectedEvent),
            },
            Phase::ListBody => match event {
                Event::ListData(list) => {
                    Session::fetch_next(Ghost(self.phase), self.config, list, self.names)
                },
                Event::MalformedBody => self.fail(Error::Deserialization),
                Event::NetworkFailure => self.fail(Error::Network),
                _ => self.fail(Error::UnexpectedEvent),
            },
            Phase::NameStatus => match event {
                Event::Status(status) => if status == 200 {
                    let next = Session { phase: Phase::NameBody, ..self };
                    (next, Action::ReadText)
                } else {
                    self.fail(Error::InvalidStatus(status))
                },
                Event::NetworkFailure => self.fail(Error::Network),
                _ => self.fail(Error::UnexpectedEvent),
            },
            Phase::NameBody => match event {
                Event::Text(name) => {
                    let mut names = self.names;
                    names.push(name);
                    Session::fetch_next(Ghost(self.phase), self.config, self.list, names)
                },
                Event::NetworkFailure => self.fail(Error::Network),
                _ => self.fail(Error::UnexpectedEvent),
            },
            Phase::Linking => match event {
                Event::Linked => {
                    let linked: usize = self.linked + 1;
                    Session::link_next(Ghost(self.phase), self.config, self.list, self.names, linked)
                },
                Event::LinkFailure => self.fail(Error::Filesystem),
                _ => self.fail(Error::UnexpectedEvent),
            },
        }
    }

    /// What the session is waiting for.
    pub fn phase(&self) -> (phase: Phase)
        ensures
            phase == self@.phase,
    {
        self.phase
    }

    /// The file names of the list, once all of them are fetched: in the
    /// linking phase and when the session has finished. Before that, and
    /// after a failure, no names are handed out.
    pub fn filenames(&self) -> (names: Option<&Vec<String>>)
        ensures
            self@.phase is Linking || self@.phase is Finished ==> names is Some
                && names->0.deep_view() == self@.names,
            !(self@.phase is Linking || self@.phase is Finished) ==> names is None,
    {
        match self.phase {
            Phase::Linking | Phase::Finished => Some(&self.names),
            _ => None,
        }
    }

    fn fail(self, error: Error) -> (next: (Session, Action))
        ensures
            next.0@ == model::failed(self@, error).0,
            next.1@ == model::failed(self@, error).1,
    {
        let next = Session { phase: Phase::Failed(error), ..self };
        (next, Action::Abort(error))
    }

    fn fetch_next(
        Ghost(phase): Ghost<Phase>,
        config: Config,
        list: FileListData,
        names: Vec<String>,
    ) -> (next: (Session, Action))
        requires
            names.len() <= list.length,
        ensures
            ({
                let s = SessionView {
                    config: config@,
                    phase,
                    list,
                    names: names.deep_view(),
                    linked: 0,
                };
                next.0@ == model::fetch_next(s).0 && next.1@ == model::fetch_next(s).1
            }),
    {
        if names.len() < list.length {
            let url = filename_request_url(list.id, names.len(), config.port);
            let next = Session { config, phase: Phase::NameStatus, list, names, linked: 0 };
            (next, Action::Get(url))
        } else {
            Session::link_next(Ghost(phase), config, list, names, 0)
        }
    }

    fn link_next(
        Ghost(phase): Ghost<Phase>,
        config: Config,
        list: FileListData,
        names: Vec<String>,
        linked: usize,
    ) -> (next: (Session, Action))
        requires
            names.len() == list.length,
            linked <= names.len(),
        ensures
            ({
                let s = SessionView {
                    config: config@,
                    phase,
                    list,
                    names: names.deep_view(),
                    linked: linked as nat,
                };
                next.0@ == model::link_next(s).0 && next.1@ == model::link_next(s).1
            }),
    {
        if linked < names.len() {
            let source = join(config.source_dir.as_str(), names[linked].as_str());
            let target = join(config.target_dir.as_str(), names[linked].as_str());
            let next = Session { config, phase: Phase::Linking, list, names, linked };
            (next, Action::Link { source, target })
        } else {
            let next = Session { config, phase: Phase::Finished, list, names, linked };
            (next, Action::Finish)
        }
    }
}

} // verus!
