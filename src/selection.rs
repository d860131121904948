//! The query for the files selected in the active shell window.
//!
//! The query talks to the operating system's object-automation runtime,
//! which only the host can reach. It is written here as a machine: the host
//! performs the [`Action`] the machine asks for and hands back the [`Reply`]
//! it got, until the machine asks to [`Action::Finish`]. The machine decides
//! every step: which window to look at, when the scan stops, which failure
//! ends the query, and that the runtime is released once it was opened.
use vstd::prelude::*;

use crate::text::{join_text, signed_decimal, signed_text};

verus! {

/// The native handle of a top-level window. Handles are only compared.
#[derive(PartialEq, Eq, Structural, Clone, Copy, Debug)]
pub struct WindowHandle {
    pub raw: isize,
}

/// What the host is asked to do next.
#[derive(PartialEq, Eq, Structural, Clone, Copy, Debug)]
pub enum Action {
    /// Initialise the automation runtime on this thread (single-threaded apartment).
    InitRuntime,
    /// Create the collection of shell windows, out of process.
    CreateWindowCollection,
    /// Count the windows of the collection.
    CountWindows,
    /// Fetch the window at this index of the collection.
    FetchWindow(i32),
    /// View the fetched window through its browser interface.
    CastToBrowser(i32),
    /// Read the native handle of that browser.
    ReadWindowHandle(i32),
    /// Open the document of the matched browser.
    OpenDocument,
    /// View the document through its folder-view interface.
    CastToFolderView,
    /// Open the selection of the folder view.
    OpenSelection,
    /// Count the selected items.
    CountSelection,
    /// Fetch the selected item at this index.
    FetchSelectedItem(i32),
    /// Resolve the full path of the fetched item.
    ResolveItemPath(i32),
    /// Release the automation runtime.
    ReleaseRuntime,
    /// Nothing is left to do: read the outcome with `outcome`.
    Finish,
}

/// What the host got from performing an action.
#[derive(PartialEq, Eq, Clone, Debug)]
pub enum Reply {
    /// The action succeeded and yields nothing to read.
    Done,
    /// A count was read.
    Count(i32),
    /// A window handle was read.
    Handle(WindowHandle),
    /// A path was resolved.
    Path(String),
    /// The action failed, with the runtime's description.
    Failed(String),
}

/// Why a query failed. Where a stage expects a value and the reply holds
/// none, the reason is `None`.
#[derive(PartialEq, Eq, Clone, Debug)]
pub enum SelectionError {
    NoForegroundWindow,
    RuntimeInit(String),
    WindowCollection(String),
    WindowFetch { index: i32, detail: String },
    WindowCast { index: i32, detail: String },
    WindowHandleQuery { index: i32, reason: Option<String> },
    NoMatchingWindow,
    Document(String),
    FolderView(String),
    Selection(String),
    SelectionCount(Option<String>),
    ItemFetch { index: i32, detail: String },
    ItemPath { index: i32, reason: Option<String> },
}

/// The state of one query, as the contracts see it.
pub ghost struct QueryModel {
    pub target: WindowHandle,
    pub pending: Action,
    pub windows: i32,
    pub items: i32,
    pub paths: Seq<String>,
    pub error: Option<SelectionError>,
}

/// One query for the selection of the shell window that has the focus.
pub struct SelectionQuery {
    target: WindowHandle,
    pending: Action,
    windows: i32,
    items: i32,
    paths: Vec<String>,
    error: Option<SelectionError>,
}

impl View for SelectionQuery {
    type V = QueryModel;

    closed spec fn view(&self) -> QueryModel {
        QueryModel {
            target: self.target,
            pending: self.pending,
            windows: self.windows,
            items: self.items,
            paths: self.paths@,
            error: self.error,
        }
    }
}

/// The state in which a query starts for the given foreground window: a null
/// handle ends it at once, with nothing opened.
pub open spec fn start_model(foreground: WindowHandle) -> QueryModel {
    if foreground.raw == 0 {
        QueryModel {
            target: foreground,
            pending: Action::Finish,
            windows: 0,
            items: 0,
            paths: seq![],
            error: Some(SelectionError::NoForegroundWindow),
        }
    } else {
        QueryModel {
            target: foreground,
            pending: Action::InitRuntime,
            windows: 0,
            items: 0,
            paths: seq![],
            error: None,
        }
    }
}

/// Ends the query with `e`: the runtime, which is open, is released first.
pub open spec fn fail_with(m: QueryModel, e: SelectionError) -> QueryModel {
    QueryModel { pending: Action::ReleaseRuntime, error: Some(e), ..m }
}

/// Moves on to `a`.
pub open spec fn go(m: QueryModel, a: Action) -> QueryModel {
    QueryModel { pending: a, ..m }
}

/// The window scan after the window at `i` did not match.
pub open spec fn after_window(m: QueryModel, i: i32) -> QueryModel {
    if i + 1 < m.windows {
        go(m, Action::FetchWindow((i + 1) as i32))
    } else {
        fail_with(m, SelectionError::NoMatchingWindow)
    }
}

/// The extraction after the item at `i` gave its path.
pub open spec fn after_item(m: QueryModel, i: i32) -> QueryModel {
    if i + 1 < m.items {
        go(m, Action::FetchSelectedItem((i + 1) as i32))
    } else {
        go(m, Action::ReleaseRuntime)
    }
}

/// The next state of a query in state `m` that gets `r` for its pending action.
pub open spec fn next(m: QueryModel, r: Reply) -> QueryModel {
    match m.pending {
        Action::InitRuntime => match r {
            Reply::Failed(e) => QueryModel {
                pending: Action::Finish,
                error: Some(SelectionError::RuntimeInit(e)),
                ..m
            },
            _ => go(m, Action::CreateWindowCollection),
        },
        Action::CreateWindowCollection => match r {
            Reply::Failed(e) => fail_with(m, SelectionError::WindowCollection(e)),
            _ => go(m, Action::CountWindows),
        },
        Action::CountWindows => {
            let n: i32 = match r {
                Reply::Count(n) => n,
                _ => 0,
            };
            let m2 = QueryModel { windows: n, ..m };
            if n > 0 {
                go(m2, Action::FetchWindow(0))
            } else {
                fail_with(m2, SelectionError::NoMatchingWindow)
            }
        },
        Action::FetchWindow(i) => match r {
            Reply::Failed(e) => fail_with(m, SelectionError::WindowFetch { index: i, detail: e }),
            _ => go(m, Action::CastToBrowser(i)),
        },
        Action::CastToBrowser(i) => match r {
            Reply::Failed(e) => fail_with(m, SelectionError::WindowCast { index: i, detail: e }),
            _ => go(m, Action::ReadWindowHandle(i)),
        },
        Action::ReadWindowHandle(i) => match r {
            Reply::Handle(h) => if h == m.target {
                go(m, Action::OpenDocument)
            } else {
                after_window(m, i)
            },
            Reply::Failed(e) => fail_with(
                m,
                SelectionError::WindowHandleQuery { index: i, reason: Some(e) },
            ),
            _ => fail_with(m, SelectionError::WindowHandleQuery { index: i, reason: None }),
        },
        Action::OpenDocument => match r {
            Reply::Failed(e) => fail_with(m, SelectionError::Document(e)),
            _ => go(m, Action::CastToFolderView),
        },
        Action::CastToFolderView => match r {
            Reply::Failed(e) => fail_with(m, SelectionError::FolderView(e)),
            _ => go(m, Action::OpenSelection),
        },
        Action::OpenSelection => match r {
            Reply::Failed(e) => fail_with(m, SelectionError::Selection(e)),
            _ => go(m, Action::CountSelection),
        },
        Action::CountSelection => match r {
            Reply::Count(n) => {
                let m2 = QueryModel { items: n, ..m };
                if n > 0 {
                    go(m2, Action::FetchSelectedItem(0))
                } else {
                    go(m2, Action::ReleaseRuntime)
                }
            },
            Reply::Failed(e) => fail_with(m, SelectionError::SelectionCount(Some(e))),
            _ => fail_with(m, SelectionError::SelectionCount(None)),
        },
        Action::FetchSelectedItem(i) => match r {
            Reply::Failed(e) => fail_with(m, SelectionError::ItemFetch { index: i, detail: e }),
            _ => go(m, Action::ResolveItemPath(i)),
        },
        Action::ResolveItemPath(i) => match r {
            Reply::Path(p) => after_item(QueryModel { paths: m.paths.push(p), ..m }, i),
            Reply::Failed(e) => fail_with(
                m,
                SelectionError::ItemPath { index: i, reason: Some(e) },
            ),
            _ => fail_with(m, SelectionError::ItemPath { index: i, reason: None }),
        },
        Action::ReleaseRuntime => go(m, Action::Finish),
        Action::Finish => m,
    }
}

/// The state after the replies `rs`, in order, starting from `m`.
pub open spec fn run(m: QueryModel, rs: Seq<Reply>) -> QueryModel
    decreases rs.len(),
{
    if rs.len() == 0 {
        m
    } else {
        run(next(m, rs[0]), rs.drop_first())
    }
}

/// How many times the runtime is asked to be released along the replies `rs`.
pub open spec fn releases(m: QueryModel, rs: Seq<Reply>) -> nat
    decreases rs.len(),
{
    if rs.len() == 0 {
        0
    } else {
        let m2 = next(m, rs[0]);
        (if m2.pending is ReleaseRuntime {
            1nat
        } else {
            0nat
        }) + releases(m2, rs.drop_first())
    }
}

/// The errors that end a query before the runtime is open.
pub open spec fn before_runtime(e: Option<SelectionError>) -> bool {
    match e {
        Some(SelectionError::NoForegroundWindow) => true,
        Some(SelectionError::RuntimeInit(_)) => true,
        _ => false,
    }
}

/// Whether the release was already asked for in state `m`.
pub open spec fn released(m: QueryModel) -> bool {
    ||| m.pending is ReleaseRuntime
    ||| (m.pending is Finish && !before_runtime(m.error))
}

/// What every reachable state keeps: a query still at work did not fail
/// before opening the runtime.
pub open spec fn consistent(m: QueryModel) -> bool {
    !(m.pending is Finish) ==> !before_runtime(m.error)
}

proof fn lemma_step_releases(m: QueryModel, r: Reply)
    requires
        consistent(m),
    ensures
        consistent(next(m, r)),
        (if released(m) {
            1nat
        } else {
            0nat
        }) + (if next(m, r).pending is ReleaseRuntime && !(m.pending is ReleaseRuntime) {
            1nat
        } else {
            0nat
        }) == (if released(next(m, r)) {
            1nat
        } else {
            0nat
        }),
        next(m, r).pending is ReleaseRuntime ==> !(m.pending is ReleaseRuntime),
{
}

proof fn lemma_run_releases(m: QueryModel, rs: Seq<Reply>)
    requires
        consistent(m),
    ensures
        (if released(m) {
            1nat
        } else {
            0nat
        }) + releases(m, rs) == (if released(run(m, rs)) {
            1nat
        } else {
            0nat
        }),
    decreases rs.len(),
{
    if rs.len() > 0 {
        lemma_step_releases(m, rs[0]);
        lemma_run_releases(next(m, rs[0]), rs.drop_first());
    }
}

/// Whatever the runtime replies, a query asks for the release of the runtime
/// at most once; once it has finished, it has asked exactly once if it opened
/// the runtime and never if it failed before.
pub proof fn lemma_release_once(foreground: WindowHandle, rs: Seq<Reply>)
    ensures
        releases(start_model(foreground), rs) <= 1,
        run(start_model(foreground), rs).pending is Finish ==> releases(
            start_model(foreground),
            rs,
        ) == (if before_runtime(run(start_model(foreground), rs).error) {
            0nat
        } else {
            1nat
        }),
{
    lemma_run_releases(start_model(foreground), rs);
}


impl SelectionQuery {
    /// Starts a query for the window that has the focus.
    pub fn new(foreground: WindowHandle) -> (q: SelectionQuery)
        ensures
            q@ == start_model(foreground),
    {
        if foreground.raw == 0 {
            SelectionQuery {
                target: foreground,
                pending: Action::Finish,
                windows: 0,
                items: 0,
                paths: Vec::new(),
                error: Some(SelectionError::NoForegroundWindow),
            }
        } else {
            SelectionQuery {
                target: foreground,
                pending: Action::InitRuntime,
                windows: 0,
                items: 0,
                paths: Vec::new(),
                error: None,
            }
        }
    }

    /// The action that the host is to perform now.
    pub fn pending(&self) -> (a: Action)
        ensures
            a == self@.pending,
    {
        self.pending
    }

    fn fail(&mut self, e: SelectionError)
        ensures
            final(self)@ == fail_with(old(self)@, e),
    {
        self.error = Some(e);
        self.pending = Action::ReleaseRuntime;
    }

    /// Takes the reply to the pending action and returns the next action.
    pub fn step(&mut self, reply: Reply) -> (a: Action)
        ensures
            final(self)@ == next(old(self)@, reply),
            a == final(self)@.pending,
    {
        match self.pending {
            Action::InitRuntime => match reply {
                Reply::Failed(e) => {
                    self.error = Some(SelectionError::RuntimeInit(e));
                    self.pending = Action::Finish;
                },
                _ => {
                    self.pending = Action::CreateWindowCollection;
                },
            },
            Action::CreateWindowCollection => match reply {
                Reply::Failed(e) => self.fail(SelectionError::WindowCollection(e)),
                _ => {
                    self.pending = Action::CountWindows;
                },
            },
            Action::CountWindows => {
                let n: i32 = match reply {
                    Reply::Count(n) => n,
                    _ => 0,
                };
                self.windows = n;
                if n > 0 {
                    self.pending = Action::FetchWindow(0);
                } else {
                    self.fail(SelectionError::NoMatchingWindow);
                }
            },
            Action::FetchWindow(i) => match reply {
                Reply::Failed(e) => self.fail(SelectionError::WindowFetch { index: i, detail: e }),
                _ => {
                    self.pending = Action::CastToBrowser(i);
                },
            },
            Action::CastToBrowser(i) => match reply {
                Reply::Failed(e) => self.fail(SelectionError::WindowCast { index: i, detail: e }),
                _ => {
                    self.pending = Action::ReadWindowHandle(i);
                },
            },
            Action::ReadWindowHandle(i) => match reply {
                Reply::Handle(h) => {
                    if h == self.target {
                        self.pending = Action::OpenDocument;
                    } else if (i as i64) + 1 < self.windows as i64 {
                        self.pending = Action::FetchWindow(i + 1);
                    } else {
                        self.fail(SelectionError::NoMatchingWindow);
                    }
                },
                Reply::Failed(e) => self.fail(
                    SelectionError::WindowHandleQuery { index: i, reason: Some(e) },
                ),
                _ => self.fail(SelectionError::WindowHandleQuery { index: i, reason: None }),
            },
            Action::OpenDocument => match reply {
                Reply::Failed(e) => self.fail(SelectionError::Document(e)),
                _ => {
                    self.pending = Action::CastToFolderView;
                },
            },
            Action::CastToFolderView => match reply {
                Reply::Failed(e) => self.fail(SelectionError::FolderView(e)),
                _ => {
                    self.pending = Action::OpenSelection;
                },
            },
            Action::OpenSelection => match reply {
                Reply::Failed(e) => self.fail(SelectionError::Selection(e)),
                _ => {
                    self.pending = Action::CountSelection;
                },
            },
            Action::CountSelection => match reply {
                Reply::Count(n) => {
                    self.items = n;
                    if n > 0 {
                        self.pending = Action::FetchSelectedItem(0);
                    } else {
                        self.pending = Action::ReleaseRuntime;
                    }
                },
                Reply::Failed(e) => self.fail(SelectionError::SelectionCount(Some(e))),
                _ => self.fail(SelectionError::SelectionCount(None)),
            },
            Action::FetchSelectedItem(i) => match reply {
                Reply::Failed(e) => self.fail(SelectionError::ItemFetch { index: i, detail: e }),
                _ => {
                    self.pending = Action::ResolveItemPath(i);
                },
            },
            Action::ResolveItemPath(i) => match reply {
                Reply::Path(p) => {
                    self.paths.push(p);
                    if (i as i64) + 1 < self.items as i64 {
                        self.pending = Action::FetchSelectedItem(i + 1);
                    } else {
                        self.pending = Action::ReleaseRuntime;
                    }
                },
                Reply::Failed(e) => self.fail(
                    SelectionError::ItemPath { index: i, reason: Some(e) },
                ),
                _ => self.fail(SelectionError::ItemPath { index: i, reason: None }),
            },
            Action::ReleaseRuntime => {
                self.pending = Action::Finish;
            },
            Action::Finish => {},
        }
        self.pending
    }

    /// The paths collected, in the order the selection gave them, or the
    /// failure that ended the query.
    pub fn outcome(self) -> (r: Result<Vec<String>, SelectionError>)
        ensures
            self@.error is Some ==> r == Err::<Vec<String>, SelectionError>(self@.error->0),
            self@.error is None ==> (r is Ok && r->Ok_0@ == self@.paths),
    {
        match self.error {
            Some(e) => Err(e),
            None => Ok(self.paths),
        }
    }
}

/// `": detail"`, or nothing where there is no detail.
pub open spec fn detail_suffix(d: Option<String>) -> Seq<char> {
    match d {
        Some(t) => ": "@ + t@,
        None => seq![],
    }
}

/// `"index i: what: detail"`.
pub open spec fn at_index(i: i32, what: Seq<char>, detail: Seq<char>) -> Seq<char> {
    "index "@ + signed_decimal(i as int) + ": "@ + what + detail
}

/// The message that reports `e`.
pub open spec fn selection_message(e: SelectionError) -> Seq<char> {
    match e {
        SelectionError::NoForegroundWindow => "cannot get the foreground window handle"@,
        SelectionError::RuntimeInit(d) => "failed to initialise the automation runtime"@ + ": "@ + d@,
        SelectionError::WindowCollection(d) => "failed to create the shell window collection"@ + ": "@ + d@,
        SelectionError::WindowFetch { index, detail } => at_index(
            index,
            "failed to fetch window item"@,
            ": "@ + detail@,
        ),
        SelectionError::WindowCast { index, detail } => at_index(
            index,
            "window is not a browser view"@,
            ": "@ + detail@,
        ),
        SelectionError::WindowHandleQuery { index, reason: detail } => at_index(
            index,
            "failed to read the window handle"@,
            detail_suffix(detail),
        ),
        SelectionError::NoMatchingWindow => "no shell window corresponds to the foreground window"@,
        SelectionError::Document(d) => "failed to get the document object"@ + ": "@ + d@,
        SelectionError::FolderView(d) => "the document is not a folder view"@ + ": "@ + d@,
        SelectionError::Selection(d) => "failed to get the selected items"@ + ": "@ + d@,
        SelectionError::SelectionCount(d) => "failed to count the selected items"@ + detail_suffix(
            d,
        ),
        SelectionError::ItemFetch { index, detail } => at_index(
            index,
            "failed to fetch the selected item"@,
            ": "@ + detail@,
        ),
        SelectionError::ItemPath { index, reason: detail } => at_index(
            index,
            "failed to resolve the item path"@,
            detail_suffix(detail),
        ),
    }
}

fn with_detail(what: &str, detail: &String) -> (r: String)
    ensures
        r@ == what@ + ": "@ + detail@,
{
    let head = join_text(what, ": ");
    join_text(head.as_str(), detail.as_str())
}

fn with_optional_detail(what: &str, detail: &Option<String>) -> (r: String)
    ensures
        r@ == what@ + detail_suffix(*detail),
{
    match detail {
        Some(d) => {
            let r = with_detail(what, d);
            assert(r@ == what@ + detail_suffix(*detail));
            r
        },
        None => {
            let r = join_text(what, "");
            proof {
                reveal_strlit("");
                assert(what@ + ""@ =~= what@ + detail_suffix(*detail));
            }
            assert(r@ == what@ + detail_suffix(*detail));
            r
        },
    }
}

fn indexed(i: i32, what: &str, detail: String) -> (r: String)
    ensures
        r@ == at_index(i, what@, detail@),
{
    let num = signed_text(i);
    let a = join_text("index ", num.as_str());
    let b = join_text(a.as_str(), ": ");
    let c = join_text(b.as_str(), what);
    let r = join_text(c.as_str(), detail.as_str());
    assert(r@ == at_index(i, what@, detail@));
    r
}

impl SelectionError {
    /// A human-readable message naming the failing stage and, where there is
    /// one, the index that failed.
    pub fn message(&self) -> (r: String)
        ensures
            r@ == selection_message(*self),
    {
        match self {
            SelectionError::NoForegroundWindow => String::from_str("cannot get the foreground window handle"),
            SelectionError::RuntimeInit(d) => with_detail(
                "failed to initialise the automation runtime",
                d,
            ),
            SelectionError::WindowCollection(d) => with_detail(
                "failed to create the shell window collection",
                d,
            ),
            SelectionError::WindowFetch { index, detail } => {
                let tail = join_text(": ", detail.as_str());
                indexed(*index, "failed to fetch window item", tail)
            },
            SelectionError::WindowCast { index, detail } => {
                let tail = join_text(": ", detail.as_str());
                indexed(*index, "window is not a browser view", tail)
            },
            SelectionError::WindowHandleQuery { index, reason: detail } => {
                let tail = with_optional_detail("", detail);
                proof {
                    reveal_strlit("");
                    assert(""@ + detail_suffix(*detail) =~= detail_suffix(*detail));
                }
                indexed(*index, "failed to read the window handle", tail)
            },
            SelectionError::NoMatchingWindow => String::from_str("no shell window corresponds to the foreground window"),
            SelectionError::Document(d) => with_detail("failed to get the document object", d),
            SelectionError::FolderView(d) => with_detail("the document is not a folder view", d),
            SelectionError::Selection(d) => with_detail("failed to get the selected items", d),
            SelectionError::SelectionCount(d) => with_optional_detail(
                "failed to count the selected items",
                d,
            ),
            SelectionError::ItemFetch { index, detail } => {
                let tail = join_text(": ", detail.as_str());
                indexed(*index, "failed to fetch the selected item", tail)
            },
            SelectionError::ItemPath { index, reason: detail } => {
                let tail = with_optional_detail("", detail);
                proof {
                    reveal_strlit("");
                    assert(""@ + detail_suffix(*detail) =~= detail_suffix(*detail));
                }
                indexed(*index, "failed to resolve the item path", tail)
            },
        }
    }
}

} // verus!
