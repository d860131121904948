use shell_bridge::envelope::{selection_result, CustomResult, Payload};
use shell_bridge::selection::{Action, Reply, SelectionError, SelectionQuery, WindowHandle};

/// A scripted shell: the windows' handles, and what the matched window holds.
struct FakeShell {
    init_fails: bool,
    create_fails: bool,
    window_count: Option<i32>,
    handles: Vec<isize>,
    fetch_fails_at: Option<i32>,
    cast_fails_at: Option<i32>,
    document_fails: bool,
    folder_view_fails: bool,
    selection_fails: bool,
    selection_count: Option<i32>,
    paths: Vec<&'static str>,
    path_fails_at: Option<i32>,
}

fn shell() -> FakeShell {
    FakeShell {
        init_fails: false,
        create_fails: false,
        window_count: Some(3),
        handles: vec![11, 22, 33],
        fetch_fails_at: None,
        cast_fails_at: None,
        document_fails: false,
        folder_view_fails: false,
        selection_fails: false,
        selection_count: Some(2),
        paths: vec!["C:\\a.txt", "C:\\b"],
        path_fails_at: None,
    }
}

fn failed(text: &str) -> Reply {
    Reply::Failed(text.to_string())
}

fn done_or(fails: bool, text: &str) -> Reply {
    if fails {
        failed(text)
    } else {
        Reply::Done
    }
}

/// Runs a query against the fake shell; returns the outcome, the number of
/// releases and the number of initialisations.
fn drive(fake: &FakeShell, foreground: isize) -> (Result<Vec<String>, SelectionError>, usize, usize) {
    let mut q = SelectionQuery::new(WindowHandle { raw: foreground });
    let mut action = q.pending();
    let mut releases = 0;
    let mut inits = 0;
    let mut steps = 0;
    while action != Action::Finish {
        steps += 1;
        assert!(steps < 1000, "the query does not end");
        let reply = match action {
            Action::InitRuntime => {
                inits += 1;
                done_or(fake.init_fails, "already initialised")
            }
            Action::CreateWindowCollection => done_or(fake.create_fails, "class not registered"),
            Action::CountWindows => match fake.window_count {
                Some(n) => Reply::Count(n),
                None => failed("count failed"),
            },
            Action::FetchWindow(i) => done_or(fake.fetch_fails_at == Some(i), "no item"),
            Action::CastToBrowser(i) => done_or(fake.cast_fails_at == Some(i), "no interface"),
            Action::ReadWindowHandle(i) => Reply::Handle(WindowHandle { raw: fake.handles[i as usize] }),
            Action::OpenDocument => done_or(fake.document_fails, "no document"),
            Action::CastToFolderView => done_or(fake.folder_view_fails, "not a folder view"),
            Action::OpenSelection => done_or(fake.selection_fails, "no selection"),
            Action::CountSelection => match fake.selection_count {
                Some(n) => Reply::Count(n),
                None => failed("count failed"),
            },
            Action::FetchSelectedItem(_) => Reply::Done,
            Action::ResolveItemPath(i) => {
                if fake.path_fails_at == Some(i) {
                    failed("no path")
                } else {
                    Reply::Path(fake.paths[i as usize].to_string())
                }
            }
            Action::ReleaseRuntime => {
                releases += 1;
                Reply::Done
            }
            Action::Finish => unreachable!(),
        };
        action = q.step(reply);
    }
    (q.outcome(), releases, inits)
}

#[test]
fn selection_of_matching_window_is_returned_in_order() {
    let (r, releases, _) = drive(&shell(), 22);
    assert_eq!(r, Ok(vec!["C:\\a.txt".to_string(), "C:\\b".to_string()]));
    assert_eq!(releases, 1);
}

#[test]
fn selection_empty_when_nothing_selected() {
    let mut fake = shell();
    fake.selection_count = Some(0);
    let (r, releases, _) = drive(&fake, 33);
    assert_eq!(r, Ok(Vec::new()));
    assert_eq!(releases, 1);
    match selection_result(r) {
        Ok(CustomResult::Success { message: None, data: Some(Payload::Paths(p)) }) => assert!(p.is_empty()),
        _ => panic!("an empty selection is a success"),
    }
}

#[test]
fn selection_fails_when_window_is_not_a_file_view() {
    let mut fake = shell();
    fake.folder_view_fails = true;
    let (r, releases, _) = drive(&fake, 11);
    assert_eq!(r, Err(SelectionError::FolderView("not a folder view".to_string())));
    assert_eq!(releases, 1);
    match selection_result(r) {
        Err(CustomResult::Error { message: Some(m), data: None }) => {
            assert_eq!(m, "the document is not a folder view: not a folder view")
        }
        _ => panic!("must be an error answer"),
    }
    let mut fake = shell();
    fake.document_fails = true;
    let (r, releases, _) = drive(&fake, 11);
    assert_eq!(r, Err(SelectionError::Document("no document".to_string())));
    assert_eq!(releases, 1);
}

#[test]
fn selection_fails_when_no_window_matches() {
    let (r, releases, _) = drive(&shell(), 99);
    assert_eq!(r, Err(SelectionError::NoMatchingWindow));
    assert_eq!(releases, 1);
}

#[test]
fn selection_window_count_failure_counts_as_empty() {
    let mut fake = shell();
    fake.window_count = None;
    let (r, releases, _) = drive(&fake, 11);
    assert_eq!(r, Err(SelectionError::NoMatchingWindow));
    assert_eq!(releases, 1);
}

#[test]
fn selection_cast_failure_aborts_the_scan() {
    let mut fake = shell();
    fake.cast_fails_at = Some(0);
    let (r, _, _) = drive(&fake, 33);
    assert_eq!(r, Err(SelectionError::WindowCast { index: 0, detail: "no interface".to_string() }));
}

#[test]
fn selection_first_matching_window_wins() {
    let mut fake = shell();
    fake.handles = vec![5, 7, 7];
    fake.cast_fails_at = Some(2);
    let (r, _, _) = drive(&fake, 7);
    assert!(r.is_ok());
}

#[test]
fn selection_no_foreground_window_opens_nothing() {
    let (r, releases, inits) = drive(&shell(), 0);
    assert_eq!(r, Err(SelectionError::NoForegroundWindow));
    assert_eq!(releases, 0);
    assert_eq!(inits, 0);
}

#[test]
fn selection_init_failure_releases_nothing() {
    let mut fake = shell();
    fake.init_fails = true;
    let (r, releases, inits) = drive(&fake, 11);
    assert_eq!(r, Err(SelectionError::RuntimeInit("already initialised".to_string())));
    assert_eq!(releases, 0);
    assert_eq!(inits, 1);
}

#[test]
fn selection_releases_once_whichever_stage_fails() {
    let mut cases: Vec<FakeShell> = Vec::new();
    let mut f = shell();
    f.create_fails = true;
    cases.push(f);
    let mut f = shell();
    f.fetch_fails_at = Some(1);
    cases.push(f);
    let mut f = shell();
    f.document_fails = true;
    cases.push(f);
    let mut f = shell();
    f.selection_fails = true;
    cases.push(f);
    let mut f = shell();
    f.path_fails_at = Some(1);
    cases.push(f);
    let mut f = shell();
    f.selection_count = None;
    cases.push(f);
    for fake in cases.iter() {
        let (r, releases, inits) = drive(fake, 33);
        assert!(r.is_err());
        assert_eq!(inits, 1);
        assert_eq!(releases, 1);
    }
}

#[test]
fn selection_messages_name_the_index() {
    let mut fake = shell();
    fake.fetch_fails_at = Some(2);
    let (r, _, _) = drive(&fake, 33);
    let e = r.unwrap_err();
    assert_eq!(e, SelectionError::WindowFetch { index: 2, detail: "no item".to_string() });
    assert_eq!(e.message(), "index 2: failed to fetch window item: no item");
    let mut fake = shell();
    fake.path_fails_at = Some(1);
    let (r, _, _) = drive(&fake, 11);
    assert_eq!(r.unwrap_err().message(), "index 1: failed to resolve the item path: no path");
    let e = SelectionError::WindowHandleQuery { index: 12, reason: None };
    assert_eq!(e.message(), "index 12: failed to read the window handle");
    let e = SelectionError::ItemFetch { index: -3, detail: "x".to_string() };
    assert_eq!(e.message(), "index -3: failed to fetch the selected item: x");
}

#[test]
fn selection_unexpected_reply_fails_the_stage() {
    let mut q = SelectionQuery::new(WindowHandle { raw: 4 });
    assert_eq!(q.step(Reply::Done), Action::CreateWindowCollection);
    assert_eq!(q.step(Reply::Done), Action::CountWindows);
    assert_eq!(q.step(Reply::Count(1)), Action::FetchWindow(0));
    assert_eq!(q.step(Reply::Done), Action::CastToBrowser(0));
    assert_eq!(q.step(Reply::Done), Action::ReadWindowHandle(0));
    assert_eq!(q.step(Reply::Path("p".to_string())), Action::ReleaseRuntime);
    assert_eq!(q.step(Reply::Done), Action::Finish);
    assert_eq!(q.step(Reply::Done), Action::Finish);
    assert_eq!(q.outcome(), Err(SelectionError::WindowHandleQuery { index: 0, reason: None }));
}
