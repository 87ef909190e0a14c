use flash_cli::config::Config;
use flash_cli::error::Error;
use flash_cli::model::{FileListData, Phase};
use flash_cli::session::{Action, Event, Session};

/// A service that a test sets up, and what it saw of the client.
struct Service {
    port: u32,
    search_term: String,
    list: FileListData,
    list_status: u16,
    list_body_is_valid: bool,
    names: Vec<String>,
    /// The index whose file-name request is answered with `bad_status`.
    bad_index: Option<usize>,
    bad_status: u16,
    /// The number of the link, counted from 0, that cannot be created.
    failing_link: Option<usize>,
    requests: Vec<String>,
    links: Vec<(String, String)>,
}

fn service(list: FileListData, names: &[&str]) -> Service {
    Service {
        port: 8080,
        search_term: "foo".to_string(),
        list,
        list_status: 200,
        list_body_is_valid: true,
        names: names.iter().map(|name| name.to_string()).collect(),
        bad_index: None,
        bad_status: 500,
        failing_link: None,
        requests: Vec::new(),
        links: Vec::new(),
    }
}

fn search_config() -> Config {
    Config {
        search_term: Some("foo".to_string()),
        list_id: None,
        port: 8080,
        source_dir: "source_dir".to_string(),
        target_dir: "target_dir".to_string(),
    }
}

fn list_config(list_id: u32) -> Config {
    Config { search_term: None, list_id: Some(list_id), ..search_config() }
}

fn filename_request(port: u32, list_id: u32, index: usize) -> String {
    format!("http://localhost:{}/list?action=get_filename&list_id={}&index={}", port, list_id, index)
}

/// Runs a session for `config` against `service` until it ends. Gives every
/// action in order, and the session as it ended.
fn drive(config: Config, service: &mut Service) -> (Vec<Action>, Session) {
    let search = format!("http://localhost:{}/search?query={}", service.port, service.search_term);
    let list_info = format!(
        "http://localhost:{}/list?action=list_info&list_id={}",
        service.port, service.list.id
    );
    let mut actions: Vec<Action> = Vec::new();
    let mut asked: Option<usize> = None;
    let (mut session, mut action) = Session::start(config);
    loop {
        actions.push(action.clone());
        let event = match action {
            Action::Get(url) => {
                service.requests.push(url.clone());
                if url == search || url == list_info {
                    Event::Status(service.list_status)
                } else {
                    let index = (0..service.names.len())
                        .find(|index| url == filename_request(service.port, service.list.id, *index));
                    match index {
                        None => Event::Status(404),
                        Some(index) => {
                            asked = Some(index);
                            if service.bad_index == Some(index) {
                                Event::Status(service.bad_status)
                            } else {
                                Event::Status(200)
                            }
                        }
                    }
                }
            }
            Action::DecodeList => {
                if service.list_body_is_valid {
                    Event::ListData(service.list)
                } else {
                    Event::MalformedBody
                }
            }
            Action::ReadText => Event::Text(service.names[asked.unwrap()].clone()),
            Action::Link { source, target } => {
                if service.failing_link == Some(service.links.len()) {
                    Event::LinkFailure
                } else {
                    service.links.push((source, target));
                    Event::Linked
                }
            }
            Action::Finish | Action::Abort(_) => return (actions, session),
        };
        let next = session.step(event);
        session = next.0;
        action = next.1;
    }
}

fn get(url: &str) -> Action {
    Action::Get(url.to_string())
}

fn link(source: &str, target: &str) -> Action {
    Action::Link { source: source.to_string(), target: target.to_string() }
}

fn pair(source: &str, target: &str) -> (String, String) {
    (source.to_string(), target.to_string())
}

#[test]
fn search_for_two_files_makes_two_links() {
    let mut service = service(FileListData { id: 5, length: 2 }, &["a.txt", "b.txt"]);
    let (actions, session) = drive(search_config(), &mut service);
    assert_eq!(
        actions,
        vec![
            get("http://localhost:8080/search?query=foo"),
            Action::DecodeList,
            get("http://localhost:8080/list?action=get_filename&list_id=5&index=0"),
            Action::ReadText,
            get("http://localhost:8080/list?action=get_filename&list_id=5&index=1"),
            Action::ReadText,
            link("source_dir/a.txt", "target_dir/a.txt"),
            link("source_dir/b.txt", "target_dir/b.txt"),
            Action::Finish,
        ]
    );
    assert_eq!(
        service.links,
        vec![
            pair("source_dir/a.txt", "target_dir/a.txt"),
            pair("source_dir/b.txt", "target_dir/b.txt"),
        ]
    );
    assert_eq!(session.phase(), Phase::Finished);
}

#[test]
fn list_id_gives_the_same_requests_as_search() {
    let mut by_search = service(FileListData { id: 5, length: 2 }, &["a.txt", "b.txt"]);
    let mut by_list = service(FileListData { id: 5, length: 2 }, &["a.txt", "b.txt"]);
    let (search_actions, _) = drive(search_config(), &mut by_search);
    let (list_actions, _) = drive(list_config(5), &mut by_list);
    assert_eq!(search_actions[0], get("http://localhost:8080/search?query=foo"));
    assert_eq!(list_actions[0], get("http://localhost:8080/list?action=list_info&list_id=5"));
    assert_eq!(search_actions[1..], list_actions[1..]);
    assert_eq!(by_search.requests[1..], by_list.requests[1..]);
    assert_eq!(
        by_list.requests[1..],
        [
            "http://localhost:8080/list?action=get_filename&list_id=5&index=0".to_string(),
            "http://localhost:8080/list?action=get_filename&list_id=5&index=1".to_string(),
        ]
    );
    assert_eq!(by_search.links, by_list.links);
    assert_eq!(by_list.links.len(), 2);
}

#[test]
fn not_found_for_list_info_fails_before_any_filename_request() {
    let mut service = service(FileListData { id: 5, length: 2 }, &["a.txt", "b.txt"]);
    service.list_status = 404;
    let (actions, session) = drive(list_config(5), &mut service);
    assert_eq!(
        actions,
        vec![
            get("http://localhost:8080/list?action=list_info&list_id=5"),
            Action::Abort(Error::InvalidStatus(404)),
        ]
    );
    assert_eq!(service.requests.len(), 1);
    assert!(service.links.is_empty());
    assert_eq!(session.phase(), Phase::Failed(Error::InvalidStatus(404)));
    assert_eq!(session.filenames(), None);
}

#[test]
fn empty_list_needs_no_request_and_no_link() {
    let mut service = service(FileListData { id: 9, length: 0 }, &[]);
    let (actions, session) = drive(search_config(), &mut service);
    assert_eq!(
        actions,
        vec![get("http://localhost:8080/search?query=foo"), Action::DecodeList, Action::Finish]
    );
    assert_eq!(service.requests.len(), 1);
    assert!(service.links.is_empty());
    assert_eq!(session.filenames(), Some(&Vec::new()));
    assert_eq!(session.phase(), Phase::Finished);
}

#[test]
fn each_index_is_requested_once_in_ascending_order() {
    let names: Vec<String> = (0..12).map(|index| format!("file-{}.png", index)).collect();
    let borrowed: Vec<&str> = names.iter().map(|name| name.as_str()).collect();
    let mut service = service(FileListData { id: 31, length: 12 }, &borrowed);
    let (actions, session) = drive(list_config(31), &mut service);
    let expected: Vec<String> = (0..12).map(|index| filename_request(8080, 31, index)).collect();
    assert_eq!(service.requests[1..], expected[..]);
    assert_eq!(service.requests.len(), 13);
    assert_eq!(session.filenames(), Some(&names));
    assert_eq!(actions.len(), 1 + 1 + 2 * 12 + 12 + 1);
    assert_eq!(service.links.len(), 12);
    assert_eq!(service.links[10], pair("source_dir/file-10.png", "target_dir/file-10.png"));
}

#[test]
fn names_are_kept_in_the_order_of_their_indices() {
    let mut service = service(FileListData { id: 1, length: 3 }, &["z", "a", "m"]);
    let (_, session) = drive(search_config(), &mut service);
    assert_eq!(
        session.filenames(),
        Some(&vec!["z".to_string(), "a".to_string(), "m".to_string()])
    );
    assert_eq!(
        service.links,
        vec![
            pair("source_dir/z", "target_dir/z"),
            pair("source_dir/a", "target_dir/a"),
            pair("source_dir/m", "target_dir/m"),
        ]
    );
}

#[test]
fn a_bad_status_for_search_fails_with_that_status() {
    for status in [0, 199, 201, 204, 301, 400, 404, 500, 503, 999] {
        let mut service = service(FileListData { id: 5, length: 2 }, &["a.txt", "b.txt"]);
        service.list_status = status;
        let (actions, _) = drive(search_config(), &mut service);
        assert_eq!(
            actions,
            vec![
                get("http://localhost:8080/search?query=foo"),
                Action::Abort(Error::InvalidStatus(status)),
            ]
        );
    }
}

#[test]
fn a_bad_status_for_a_filename_stops_the_fetch() {
    let mut service = service(FileListData { id: 5, length: 3 }, &["a.txt", "b.txt", "c.txt"]);
    service.bad_index = Some(1);
    service.bad_status = 503;
    let (actions, session) = drive(search_config(), &mut service);
    assert_eq!(
        actions,
        vec![
            get("http://localhost:8080/search?query=foo"),
            Action::DecodeList,
            get("http://localhost:8080/list?action=get_filename&list_id=5&index=0"),
            Action::ReadText,
            get("http://localhost:8080/list?action=get_filename&list_id=5&index=1"),
            Action::Abort(Error::InvalidStatus(503)),
        ]
    );
    assert!(service.links.is_empty());
    assert_eq!(session.filenames(), None);
}

#[test]
fn a_failed_session_asks_for_nothing_more() {
    let (session, _) = Session::start(list_config(5));
    let (mut session, action) = session.step(Event::Status(404));
    assert_eq!(action, Action::Abort(Error::InvalidStatus(404)));
    let later = [
        Event::Status(200),
        Event::ListData(FileListData { id: 5, length: 2 }),
        Event::Text("a.txt".to_string()),
        Event::Linked,
        Event::NetworkFailure,
        Event::MalformedBody,
        Event::LinkFailure,
    ];
    for event in later {
        let next = session.step(event);
        session = next.0;
        assert_eq!(next.1, Action::Abort(Error::InvalidStatus(404)));
        assert_eq!(session.phase(), Phase::Failed(Error::InvalidStatus(404)));
    }
}

#[test]
fn a_finished_session_asks_for_nothing_more() {
    let mut service = service(FileListData { id: 5, length: 1 }, &["a.txt"]);
    let (_, mut session) = drive(search_config(), &mut service);
    let later = [
        Event::Status(200),
        Event::ListData(FileListData { id: 5, length: 2 }),
        Event::Text("b.txt".to_string()),
        Event::Linked,
        Event::LinkFailure,
    ];
    for event in later {
        let next = session.step(event);
        session = next.0;
        assert_eq!(next.1, Action::Finish);
        assert_eq!(session.phase(), Phase::Finished);
        assert_eq!(session.filenames(), Some(&vec!["a.txt".to_string()]));
    }
}

#[test]
fn a_malformed_list_fails_the_session() {
    let mut service = service(FileListData { id: 5, length: 2 }, &["a.txt", "b.txt"]);
    service.list_body_is_valid = false;
    let (actions, _) = drive(search_config(), &mut service);
    assert_eq!(
        actions,
        vec![
            get("http://localhost:8080/search?query=foo"),
            Action::DecodeList,
            Action::Abort(Error::Deserialization),
        ]
    );
    assert_eq!(service.requests.len(), 1);
}

#[test]
fn a_network_failure_fails_the_session_wherever_it_comes() {
    let (session, _) = Session::start(search_config());
    let (_, action) = session.step(Event::NetworkFailure);
    assert_eq!(action, Action::Abort(Error::Network));

    let (session, _) = Session::start(search_config());
    let (session, _) = session.step(Event::Status(200));
    let (_, action) = session.step(Event::NetworkFailure);
    assert_eq!(action, Action::Abort(Error::Network));

    let (session, _) = Session::start(search_config());
    let (session, _) = session.step(Event::Status(200));
    let (session, _) = session.step(Event::ListData(FileListData { id: 5, length: 2 }));
    let (_, action) = session.step(Event::NetworkFailure);
    assert_eq!(action, Action::Abort(Error::Network));

    let (session, _) = Session::start(search_config());
    let (session, _) = session.step(Event::Status(200));
    let (session, _) = session.step(Event::ListData(FileListData { id: 5, length: 2 }));
    let (session, action) = session.step(Event::Status(200));
    assert_eq!(action, Action::ReadText);
    let (session, action) = session.step(Event::NetworkFailure);
    assert_eq!(action, Action::Abort(Error::Network));
    assert_eq!(session.phase(), Phase::Failed(Error::Network));
}

#[test]
fn a_link_that_fails_stops_the_links_that_remain() {
    let mut service = service(FileListData { id: 5, length: 3 }, &["a.txt", "b.txt", "c.txt"]);
    service.failing_link = Some(1);
    let (actions, session) = drive(search_config(), &mut service);
    assert_eq!(
        actions[8..],
        [
            link("source_dir/a.txt", "target_dir/a.txt"),
            link("source_dir/b.txt", "target_dir/b.txt"),
            Action::Abort(Error::Filesystem),
        ]
    );
    assert_eq!(service.links, vec![pair("source_dir/a.txt", "target_dir/a.txt")]);
    assert_eq!(session.phase(), Phase::Failed(Error::Filesystem));
}

#[test]
fn no_selector_fails_before_any_request() {
    let config = Config { search_term: None, list_id: None, ..search_config() };
    let (session, action) = Session::start(config);
    assert_eq!(action, Action::Abort(Error::MissingSelector));
    assert_eq!(session.phase(), Phase::Failed(Error::MissingSelector));
    let (_, action) = session.step(Event::Status(200));
    assert_eq!(action, Action::Abort(Error::MissingSelector));
}

#[test]
fn search_wins_over_list_id() {
    let config = Config { list_id: Some(7), ..search_config() };
    let (_, action) = Session::start(config);
    assert_eq!(action, get("http://localhost:8080/search?query=foo"));
}

#[test]
fn the_resolved_list_decides_the_requests_not_the_list_id_asked_for() {
    let (session, action) = Session::start(list_config(5));
    assert_eq!(action, get("http://localhost:8080/list?action=list_info&list_id=5"));
    let (session, _) = session.step(Event::Status(200));
    let (_, action) = session.step(Event::ListData(FileListData { id: 77, length: 1 }));
    assert_eq!(action, get("http://localhost:8080/list?action=get_filename&list_id=77&index=0"));
}

#[test]
fn an_event_out_of_turn_fails_the_session() {
    let (session, _) = Session::start(search_config());
    let (_, action) = session.step(Event::Linked);
    assert_eq!(action, Action::Abort(Error::UnexpectedEvent));

    let (session, _) = Session::start(search_config());
    let (_, action) = session.step(Event::ListData(FileListData { id: 5, length: 2 }));
    assert_eq!(action, Action::Abort(Error::UnexpectedEvent));

    let (session, _) = Session::start(search_config());
    let (session, _) = session.step(Event::Status(200));
    let (_, action) = session.step(Event::Status(200));
    assert_eq!(action, Action::Abort(Error::UnexpectedEvent));

    let (session, _) = Session::start(search_config());
    let (session, _) = session.step(Event::Status(200));
    let (session, _) = session.step(Event::ListData(FileListData { id: 5, length: 1 }));
    let (_, action) = session.step(Event::Text("early.txt".to_string()));
    assert_eq!(action, Action::Abort(Error::UnexpectedEvent));

    let (session, _) = Session::start(search_config());
    let (session, _) = session.step(Event::Status(200));
    let (session, _) = session.step(Event::ListData(FileListData { id: 5, length: 1 }));
    let (session, _) = session.step(Event::Status(200));
    let (session, action) = session.step(Event::Text("a.txt".to_string()));
    assert_eq!(action, link("source_dir/a.txt", "target_dir/a.txt"));
    let (_, action) = session.step(Event::Status(200));
    assert_eq!(action, Action::Abort(Error::UnexpectedEvent));
}

#[test]
fn names_are_used_as_the_service_gave_them() {
    let mut service = service(
        FileListData { id: 2, length: 4 },
        &["sub/dir/a.txt", "../up.txt", "/abs/olute", " spaced\n"],
    );
    let (_, session) = drive(search_config(), &mut service);
    assert_eq!(
        service.links,
        vec![
            pair("source_dir/sub/dir/a.txt", "target_dir/sub/dir/a.txt"),
            pair("source_dir/../up.txt", "target_dir/../up.txt"),
            pair("/abs/olute", "/abs/olute"),
            pair("source_dir/ spaced\n", "target_dir/ spaced\n"),
        ]
    );
    assert_eq!(session.filenames().unwrap()[3], " spaced\n");
}

#[test]
fn default_directories_give_bare_sources() {
    let config = Config {
        source_dir: String::new(),
        target_dir: "/tmp/flash-cli".to_string(),
        ..search_config()
    };
    let mut service = service(FileListData { id: 5, length: 1 }, &["a.txt"]);
    let (_, _) = drive(config, &mut service);
    assert_eq!(service.links, vec![pair("a.txt", "/tmp/flash-cli/a.txt")]);
}

#[test]
fn filenames_are_withheld_until_all_are_fetched() {
    let (session, _) = Session::start(search_config());
    assert_eq!(session.filenames(), None);
    assert_eq!(session.phase(), Phase::ListStatus);
    let (session, _) = session.step(Event::Status(200));
    assert_eq!(session.filenames(), None);
    assert_eq!(session.phase(), Phase::ListBody);
    let (session, _) = session.step(Event::ListData(FileListData { id: 5, length: 2 }));
    assert_eq!(session.filenames(), None);
    assert_eq!(session.phase(), Phase::NameStatus);
    let (session, _) = session.step(Event::Status(200));
    assert_eq!(session.phase(), Phase::NameBody);
    let (session, _) = session.step(Event::Text("a.txt".to_string()));
    assert_eq!(session.filenames(), None);
    let (session, _) = session.step(Event::Status(200));
    let (session, _) = session.step(Event::Text("b.txt".to_string()));
    assert_eq!(session.phase(), Phase::Linking);
    assert_eq!(session.filenames(), Some(&vec!["a.txt".to_string(), "b.txt".to_string()]));
}
