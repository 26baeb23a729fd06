use crate::decode::{
    crop_fits, decode_and_crop, decoded_crop, lemma_decoded_crop_is_total, png_first_frame,
};
use crate::error::CaptureError;
use crate::uri::{file_path_of_uri, uri_file_path};
use vstd::prelude::*;

verus! {

/// Bus name of the shell's screenshot service.
pub const SHELL_DESTINATION: &'static str = "org.gnome.Shell.Screenshot";

/// Object path of the shell's screenshot service.
pub const SHELL_PATH: &'static str = "/org/gnome/Shell/Screenshot";

/// Interface of the shell's screenshot service.
pub const SHELL_INTERFACE: &'static str = "org.gnome.Shell.Screenshot";

/// Method of the shell's screenshot service that captures a rectangle.
pub const SHELL_METHOD: &'static str = "ScreenshotArea";

/// Bus name of the desktop portal.
pub const PORTAL_DESTINATION: &'static str = "org.freedesktop.portal.Desktop";

/// Object path of the desktop portal.
pub const PORTAL_PATH: &'static str = "/org/freedesktop/portal/desktop";

/// Interface of the portal's screenshot service.
pub const PORTAL_INTERFACE: &'static str = "org.freedesktop.portal.Screenshot";

/// Method of the portal that asks for a screenshot.
pub const PORTAL_METHOD: &'static str = "Screenshot";

/// Interface of the signal by which the portal answers a request.
pub const RESPONSE_INTERFACE: &'static str = "org.freedesktop.portal.Request";

/// Name of the signal by which the portal answers a request.
pub const RESPONSE_SIGNAL: &'static str = "Response";

/// Key of the screenshot's URI among the results of a response.
pub const RESULT_URI_KEY: &'static str = "uri";

/// The token by which this library's portal requests are told apart.
pub const HANDLE_TOKEN: &'static str = "1234";

/// Time, in milliseconds, that either service is given to answer a call.
pub const CALL_TIMEOUT_MS: u32 = 10000;

/// Time, in milliseconds, that one round of bus processing may take.
pub const POLL_TIMEOUT_MS: u32 = 1000;

/// Rounds of bus processing after which a silent portal is given up.
pub const MAX_POLLS: u32 = 60;

/// The status by which the portal reports success.
pub const STATUS_SUCCESS: u32 = 0;

/// The text of an optional string.
pub open spec fn text(s: Option<String>) -> Option<Seq<char>> {
    match s {
        Some(t) => Some(t@),
        None => None,
    }
}

/// The payload of the portal's `Response` signal: the status, and the URI of
/// the screenshot where the results name one.
#[derive(Debug)]
pub struct OrgFreedesktopPortalRequestResponse {
    pub status: u32,
    pub uri: Option<String>,
}

/// What the signal handler has recorded so far. It starts empty and takes
/// the first response only.
#[derive(Debug)]
pub struct PortalRequestState {
    status: Option<u32>,
    result_uri: Option<String>,
}

/// What a `PortalRequestState` holds.
pub struct PortalRequestStateView {
    pub status: Option<u32>,
    pub result_uri: Option<Seq<char>>,
}

impl View for PortalRequestState {
    type V = PortalRequestStateView;

    closed spec fn view(&self) -> PortalRequestStateView {
        PortalRequestStateView { status: self.status, result_uri: text(self.result_uri) }
    }
}

impl PortalRequestState {
    /// The state before any response.
    pub fn new() -> (state: PortalRequestState)
        ensures
            state@ == (PortalRequestStateView { status: None, result_uri: None }),
    {
        PortalRequestState { status: None, result_uri: None }
    }

    /// Takes a response, unless one was taken before.
    pub fn record(&mut self, response: OrgFreedesktopPortalRequestResponse)
        ensures
            final(self)@ == if old(self)@.status is Some {
                old(self)@
            } else {
                PortalRequestStateView {
                    status: Some(response.status),
                    result_uri: text(response.uri),
                }
            },
    {
        if self.status.is_none() {
            self.status = Some(response.status);
            self.result_uri = response.uri;
        }
    }

    /// The status of the response, once there is one.
    pub fn status(&self) -> (status: Option<u32>)
        ensures
            status == self@.status,
    {
        self.status
    }

    /// A copy of what has been recorded.
    pub fn snapshot(&self) -> (copy: PortalRequestState)
        ensures
            copy@ == self@,
    {
        let result_uri = match &self.result_uri {
            Some(uri) => Some(uri.clone()),
            None => None,
        };
        PortalRequestState { status: self.status, result_uri }
    }
}

/// Where a capture stands: each stage but the last waits for the outcome of
/// one action.
#[derive(Clone, Copy, Debug, PartialEq, Eq, Structural)]
pub enum Stage {
    /// The session bus is being opened.
    Connecting,
    /// A file is being named for the shell's service to write.
    Naming,
    /// The shell's service has been called.
    CallingShell,
    /// The file that the shell's service wrote is being read.
    ReadingShellFile,
    /// That file has been read and is being removed.
    RemovingShellFile,
    /// The shell's service has failed; what it may have written is being
    /// removed.
    DiscardingShellFile,
    /// The match for the portal's response is being added.
    Subscribing,
    /// The portal has been asked for a screenshot.
    Requesting,
    /// The bus is being processed until the portal responds.
    Waiting,
    /// The file that the portal named is being read.
    Reading,
    /// That file is being removed.
    Removing,
    /// The capture has its result.
    Finished,
}

/// The outcome of an action, as the caller saw it.
#[derive(Debug)]
pub enum Event {
    /// The session bus was opened, or could not be.
    BusOpened(bool),
    /// A fresh file name under the temporary directory, if one could be made.
    TempFileNamed(Option<String>),
    /// The shell's service answered the call, or did not.
    ShellReplied(bool),
    /// The match for the response signal was added, or was refused.
    Subscribed(bool),
    /// The portal accepted the request, or refused it.
    PortalReplied(bool),
    /// One round of bus processing ended, well or not; `state` is what the
    /// signal handler had recorded by then.
    BusProcessed { ok: bool, state: PortalRequestState },
    /// The content of the file, if it could be read.
    FileRead(Option<Vec<u8>>),
    /// The file was removed, or could not be.
    FileRemoved(bool),
}

/// What the caller is to do next.
#[derive(Debug)]
pub enum Action {
    /// Open the session bus.
    OpenSessionBus,
    /// Make a file name that no other capture uses.
    NameTempFile,
    /// Call the shell's `ScreenshotArea`.
    CallShell { x: i32, y: i32, width: i32, height: i32, flash: bool, filename: String },
    /// Add a match for the portal's response signal.
    Subscribe,
    /// Call the portal's `Screenshot`, with the handle token.
    CallPortal { modal: bool, interactive: bool },
    /// Process bus traffic for at most the given time.
    ProcessBus { timeout_ms: u32 },
    /// Read the file whole.
    ReadFile(String),
    /// Remove the file.
    RemoveFile(String),
    /// Nothing more: the capture has its result.
    Finish,
}

/// An `Action`, with each file name as the text it holds.
pub enum ActionView {
    OpenSessionBus,
    NameTempFile,
    CallShell { x: i32, y: i32, width: i32, height: i32, flash: bool, filename: Seq<char> },
    Subscribe,
    CallPortal { modal: bool, interactive: bool },
    ProcessBus { timeout_ms: u32 },
    ReadFile(Seq<char>),
    RemoveFile(Seq<char>),
    Finish,
}

impl View for Action {
    type V = ActionView;

    open spec fn view(&self) -> ActionView {
        match *self {
            Action::OpenSessionBus => ActionView::OpenSessionBus,
            Action::NameTempFile => ActionView::NameTempFile,
            Action::CallShell { x, y, width, height, flash, filename } => ActionView::CallShell {
                x,
                y,
                width,
                height,
                flash,
                filename: filename@,
            },
            Action::Subscribe => ActionView::Subscribe,
            Action::CallPortal { modal, interactive } => ActionView::CallPortal {
                modal,
                interactive,
            },
            Action::ProcessBus { timeout_ms } => ActionView::ProcessBus { timeout_ms },
            Action::ReadFile(path) => ActionView::ReadFile(path@),
            Action::RemoveFile(path) => ActionView::RemoveFile(path@),
            Action::Finish => ActionView::Finish,
        }
    }
}

/// The bytes of an outcome.
pub open spec fn outcome_view(outcome: Option<Result<Vec<u8>, CaptureError>>) -> Option<
    Result<Seq<u8>, CaptureError>,
> {
    match outcome {
        Some(Ok(bytes)) => Some(Ok(bytes@)),
        Some(Err(e)) => Some(Err(e)),
        None => None,
    }
}

/// A capture of the rectangle of `width` by `height` device pixels at
/// `(x, y)` on a Wayland session. The shell's own service is tried first;
/// if it fails in any way, the portal is asked.
#[derive(Debug)]
pub struct WaylandScreenshot {
    x: i32,
    y: i32,
    width: i32,
    height: i32,
    stage: Stage,
    polls: u32,
    file: String,
    outcome: Option<Result<Vec<u8>, CaptureError>>,
    discarded: Option<CaptureError>,
}

/// A `WaylandScreenshot` as its contracts see it.
pub struct ScreenshotView {
    /// The rectangle to capture, in device pixels.
    pub x: i32,
    pub y: i32,
    pub width: i32,
    pub height: i32,
    /// The stage that the capture is in.
    pub stage: Stage,
    /// Rounds of bus processing that have ended without a response.
    pub polls: u32,
    /// The file that the capture is working on.
    pub file: Seq<char>,
    /// The result, once it is decided.
    pub outcome: Option<Result<Seq<u8>, CaptureError>>,
    /// Why the shell's service was given up, if it was.
    pub discarded: Option<CaptureError>,
}

impl View for WaylandScreenshot {
    type V = ScreenshotView;

    closed spec fn view(&self) -> ScreenshotView {
        ScreenshotView {
            x: self.x,
            y: self.y,
            width: self.width,
            height: self.height,
            stage: self.stage,
            polls: self.polls,
            file: self.file@,
            outcome: outcome_view(self.outcome),
            discarded: self.discarded,
        }
    }
}

/// A length that is never negative.
pub open spec fn extent(length: i32) -> int {
    if length < 0 {
        0
    } else {
        length as int
    }
}

impl ScreenshotView {
    /// The capture as it starts.
    pub open spec fn initial(x: i32, y: i32, width: i32, height: i32) -> ScreenshotView {
        ScreenshotView {
            x,
            y,
            width,
            height,
            stage: Stage::Connecting,
            polls: 0,
            file: Seq::empty(),
            outcome: None,
            discarded: None,
        }
    }

    /// The capture, moved on to `stage`.
    pub open spec fn at(self, stage: Stage) -> ScreenshotView {
        ScreenshotView { stage, ..self }
    }

    /// The capture, ended with `outcome`.
    pub open spec fn finished(self, outcome: Result<Seq<u8>, CaptureError>) -> ScreenshotView {
        ScreenshotView { stage: Stage::Finished, outcome: Some(outcome), ..self }
    }

    /// The shell's service is given up for `cause`; its file is cleared
    /// away before the portal is asked.
    pub open spec fn given_up(self, cause: CaptureError) -> ScreenshotView {
        ScreenshotView {
            stage: Stage::DiscardingShellFile,
            outcome: None,
            discarded: Some(cause),
            ..self
        }
    }

    /// The shell's service is given up for `cause`, and the portal is next.
    pub open spec fn fallen_back(self, cause: CaptureError) -> ScreenshotView {
        ScreenshotView {
            stage: Stage::Subscribing,
            outcome: None,
            discarded: Some(cause),
            ..self
        }
    }

    /// The portal has answered with `status` and, perhaps, a URI.
    pub open spec fn resolved(self, status: u32, uri: Option<Seq<char>>) -> ScreenshotView {
        let path = match uri {
            Some(u) => uri_file_path(u),
            None => None,
        };
        match path {
            Some(p) => if status == STATUS_SUCCESS {
                ScreenshotView { stage: Stage::Reading, file: p, ..self }
            } else {
                ScreenshotView {
                    stage: Stage::Removing,
                    file: p,
                    outcome: Some(Err(CaptureError::UserCancelled)),
                    ..self
                }
            },
            None => if status == STATUS_SUCCESS {
                self.finished(Err(CaptureError::IoError))
            } else {
                self.finished(Err(CaptureError::UserCancelled))
            },
        }
    }

    /// One round of bus processing has ended.
    pub open spec fn polled(self, ok: bool, state: PortalRequestStateView) -> ScreenshotView {
        match state.status {
            Some(status) => self.resolved(status, state.result_uri),
            None => if !ok {
                self.finished(Err(CaptureError::BusConnectionFailed))
            } else if self.polls + 1 >= MAX_POLLS {
                self.finished(Err(CaptureError::Timeout))
            } else {
                ScreenshotView { polls: (self.polls + 1) as u32, ..self }
            },
        }
    }

    /// The capture after `event`. An event that does not answer the pending
    /// action counts as that action's failure.
    pub open spec fn after(self, event: Event) -> ScreenshotView {
        match self.stage {
            Stage::Connecting => match event {
                Event::BusOpened(true) => self.at(Stage::Naming),
                _ => self.finished(Err(CaptureError::BusConnectionFailed)),
            },
            Stage::Naming => match event {
                Event::TempFileNamed(Some(name)) => ScreenshotView {
                    stage: Stage::CallingShell,
                    file: name@,
                    ..self
                },
                _ => self.fallen_back(CaptureError::IoError),
            },
            Stage::CallingShell => match event {
                Event::ShellReplied(true) => self.at(Stage::ReadingShellFile),
                _ => self.given_up(CaptureError::RemoteServiceUnavailable),
            },
            Stage::ReadingShellFile => match event {
                Event::FileRead(Some(bytes)) => ScreenshotView {
                    stage: Stage::RemovingShellFile,
                    outcome: Some(Ok(bytes@)),
                    ..self
                },
                _ => self.given_up(CaptureError::IoError),
            },
            Stage::RemovingShellFile => match event {
                Event::FileRemoved(true) => self.at(Stage::Finished),
                _ => self.fallen_back(CaptureError::IoError),
            },
            Stage::DiscardingShellFile => self.at(Stage::Subscribing),
            Stage::Subscribing => match event {
                Event::Subscribed(true) => self.at(Stage::Requesting),
                _ => self.finished(Err(CaptureError::BusConnectionFailed)),
            },
            Stage::Requesting => match event {
                Event::PortalReplied(true) => ScreenshotView {
                    stage: Stage::Waiting,
                    polls: 0,
                    ..self
                },
                _ => self.finished(Err(CaptureError::RequestRejected)),
            },
            Stage::Waiting => match event {
                Event::BusProcessed { ok, state } => self.polled(ok, state@),
                _ => self.finished(Err(CaptureError::BusConnectionFailed)),
            },
            Stage::Reading => match event {
                Event::FileRead(Some(bytes)) => ScreenshotView {
                    stage: Stage::Removing,
                    outcome: Some(
                        decoded_crop(
                            bytes@,
                            self.x as int,
                            self.y as int,
                            extent(self.width),
                            extent(self.height),
                        ),
                    ),
                    ..self
                },
                _ => ScreenshotView {
                    stage: Stage::Removing,
                    outcome: Some(Err(CaptureError::IoError)),
                    ..self
                },
            },
            Stage::Removing => self.at(Stage::Finished),
            Stage::Finished => self,
        }
    }

    /// The action that the capture waits for.
    pub open spec fn action(self) -> ActionView {
        match self.stage {
            Stage::Connecting => ActionView::OpenSessionBus,
            Stage::Naming => ActionView::NameTempFile,
            Stage::CallingShell => ActionView::CallShell {
                x: self.x,
                y: self.y,
                width: self.width,
                height: self.height,
                flash: false,
                filename: self.file,
            },
            Stage::ReadingShellFile => ActionView::ReadFile(self.file),
            Stage::RemovingShellFile => ActionView::RemoveFile(self.file),
            Stage::DiscardingShellFile => ActionView::RemoveFile(self.file),
            Stage::Subscribing => ActionView::Subscribe,
            Stage::Requesting => ActionView::CallPortal { modal: true, interactive: false },
            Stage::Waiting => ActionView::ProcessBus { timeout_ms: POLL_TIMEOUT_MS },
            Stage::Reading => ActionView::ReadFile(self.file),
            Stage::Removing => ActionView::RemoveFile(self.file),
            Stage::Finished => ActionView::Finish,
        }
    }
}

fn unsigned(length: i32) -> (n: u32)
    ensures
        n == extent(length),
{
    if length < 0 {
        0
    } else {
        length as u32
    }
}

/// Starts the capture of the rectangle of `width` by `height` device pixels
/// at `(x, y)`.
pub fn wayland_screenshot(x: i32, y: i32, width: i32, height: i32) -> (capture: WaylandScreenshot)
    ensures
        capture@ == ScreenshotView::initial(x, y, width, height),
{
    WaylandScreenshot {
        x,
        y,
        width,
        height,
        stage: Stage::Connecting,
        polls: 0,
        file: String::new(),
        outcome: None,
        discarded: None,
    }
}

impl WaylandScreenshot {
    /// The action to perform next.
    pub fn action(&self) -> (action: Action)
        ensures
            action@ == self@.action(),
    {
        match self.stage {
            Stage::Connecting => Action::OpenSessionBus,
            Stage::Naming => Action::NameTempFile,
            Stage::CallingShell => Action::CallShell {
                x: self.x,
                y: self.y,
                width: self.width,
                height: self.height,
                flash: false,
                filename: self.file.clone(),
            },
            Stage::ReadingShellFile => Action::ReadFile(self.file.clone()),
            Stage::RemovingShellFile => Action::RemoveFile(self.file.clone()),
            Stage::DiscardingShellFile => Action::RemoveFile(self.file.clone()),
            Stage::Subscribing => Action::Subscribe,
            Stage::Requesting => Action::CallPortal { modal: true, interactive: false },
            Stage::Waiting => Action::ProcessBus { timeout_ms: POLL_TIMEOUT_MS },
            Stage::Reading => Action::ReadFile(self.file.clone()),
            Stage::Removing => Action::RemoveFile(self.file.clone()),
            Stage::Finished => Action::Finish,
        }
    }

    /// Whether the capture has its result.
    pub fn is_finished(&self) -> (done: bool)
        ensures
            done == (self@.stage == Stage::Finished),
    {
        self.stage == Stage::Finished
    }

    /// The stage that the capture is in.
    pub fn stage(&self) -> (stage: Stage)
        ensures
            stage == self@.stage,
    {
        self.stage
    }

    /// Why the shell's service was given up, if it was.
    pub fn discarded_error(&self) -> (cause: Option<CaptureError>)
        ensures
            cause == self@.discarded,
    {
        self.discarded
    }

    /// The result of a capture that has finished.
    pub fn into_result(self) -> (result: Option<Result<Vec<u8>, CaptureError>>)
        ensures
            outcome_view(result) == if self@.stage == Stage::Finished {
                self@.outcome
            } else {
                None
            },
    {
        if self.stage == Stage::Finished {
            self.outcome
        } else {
            None
        }
    }

    fn finish(&mut self, outcome: Result<Vec<u8>, CaptureError>)
        ensures
            final(self)@ == old(self)@.finished(
                match outcome {
                    Ok(bytes) => Ok(bytes@),
                    Err(e) => Err(e),
                },
            ),
    {
        self.stage = Stage::Finished;
        self.outcome = Some(outcome);
    }

    fn give_up(&mut self, cause: CaptureError)
        ensures
            final(self)@ == old(self)@.given_up(cause),
    {
        self.stage = Stage::DiscardingShellFile;
        self.outcome = None;
        self.discarded = Some(cause);
    }

    fn fall_back(&mut self, cause: CaptureError)
        ensures
            final(self)@ == old(self)@.fallen_back(cause),
    {
        self.stage = Stage::Subscribing;
        self.outcome = None;
        self.discarded = Some(cause);
    }

    fn resolve(&mut self, status: u32, uri: Option<String>)
        ensures
            final(self)@ == old(self)@.resolved(status, text(uri)),
    {
        let path = match uri {
            Some(u) => file_path_of_uri(u.as_str()),
            None => None,
        };
        match path {
            Some(p) => {
                self.file = p;
                if status == STATUS_SUCCESS {
                    self.stage = Stage::Reading;
                } else {
                    self.stage = Stage::Removing;
                    self.outcome = Some(Err(CaptureError::UserCancelled));
                }
            },
            None => {
                if status == STATUS_SUCCESS {
                    self.finish(Err(CaptureError::IoError));
                } else {
                    self.finish(Err(CaptureError::UserCancelled));
                }
            },
        }
    }

    fn poll(&mut self, ok: bool, state: PortalRequestState)
        ensures
            final(self)@ == old(self)@.polled(ok, state@),
    {
        match state.status {
            Some(status) => self.resolve(status, state.result_uri),
            None => {
                if !ok {
                    self.finish(Err(CaptureError::BusConnectionFailed));
                } else if self.polls >= MAX_POLLS - 1 {
                    self.finish(Err(CaptureError::Timeout));
                } else {
                    self.polls = self.polls + 1;
                }
            },
        }
    }

    /// Takes the outcome of the action that `action` named.
    pub fn handle(&mut self, event: Event)
        ensures
            final(self)@ == old(self)@.after(event),
    {
        match self.stage {
            Stage::Connecting => match event {
                Event::BusOpened(true) => {
                    self.stage = Stage::Naming;
                },
                _ => self.finish(Err(CaptureError::BusConnectionFailed)),
            },
            Stage::Naming => match event {
                Event::TempFileNamed(Some(name)) => {
                    self.stage = Stage::CallingShell;
                    self.file = name;
                },
                _ => self.fall_back(CaptureError::IoError),
            },
            Stage::CallingShell => match event {
                Event::ShellReplied(true) => {
                    self.stage = Stage::ReadingShellFile;
                },
                _ => self.give_up(CaptureError::RemoteServiceUnavailable),
            },
            Stage::ReadingShellFile => match event {
                Event::FileRead(Some(bytes)) => {
                    self.stage = Stage::RemovingShellFile;
                    self.outcome = Some(Ok(bytes));
                },
                _ => self.give_up(CaptureError::IoError),
            },
            Stage::RemovingShellFile => match event {
                Event::FileRemoved(true) => {
                    self.stage = Stage::Finished;
                },
                _ => self.fall_back(CaptureError::IoError),
            },
            Stage::DiscardingShellFile => {
                self.stage = Stage::Subscribing;
            },
            Stage::Subscribing => match event {
                Event::Subscribed(true) => {
                    self.stage = Stage::Requesting;
                },
                _ => self.finish(Err(CaptureError::BusConnectionFailed)),
            },
            Stage::Requesting => match event {
                Event::PortalReplied(true) => {
                    self.stage = Stage::Waiting;
                    self.polls = 0;
                },
                _ => self.finish(Err(CaptureError::RequestRejected)),
            },
            Stage::Waiting => match event {
                Event::BusProcessed { ok, state } => self.poll(ok, state),
                _ => self.finish(Err(CaptureError::BusConnectionFailed)),
            },
            Stage::Reading => match event {
                Event::FileRead(Some(bytes)) => {
                    let pixels = decode_and_crop(
                        bytes.as_slice(),
                        self.x,
                        self.y,
                        unsigned(self.width),
                        unsigned(self.height),
                    );
                    self.stage = Stage::Removing;
                    self.outcome = Some(pixels);
                },
                _ => {
                    self.stage = Stage::Removing;
                    self.outcome = Some(Err(CaptureError::IoError));
                },
            },
            Stage::Removing => {
                self.stage = Stage::Finished;
            },
            Stage::Finished => {},
        }
    }
}

impl ScreenshotView {
    /// The capture after each of `events` in turn.
    pub open spec fn after_all(self, events: Seq<Event>) -> ScreenshotView
        decreases events.len(),
    {
        if events.len() == 0 {
            self
        } else {
            self.after_all(events.drop_last()).after(events.last())
        }
    }

    /// The most events that the capture can still take before it finishes.
    pub open spec fn remaining(self) -> nat {
        match self.stage {
            Stage::Connecting => 69,
            Stage::Naming => 68,
            Stage::CallingShell => 67,
            Stage::ReadingShellFile => 66,
            Stage::RemovingShellFile => 65,
            Stage::DiscardingShellFile => 65,
            Stage::Subscribing => 64,
            Stage::Requesting => 63,
            Stage::Waiting => if self.polls < MAX_POLLS {
                (MAX_POLLS - self.polls + 2) as nat
            } else {
                3
            },
            Stage::Reading => 2,
            Stage::Removing => 1,
            Stage::Finished => 0,
        }
    }

    /// The shell's service is being tried.
    pub open spec fn tries_shell(self) -> bool {
        self.stage == Stage::Naming || self.stage == Stage::CallingShell || self.stage
            == Stage::ReadingShellFile || self.stage == Stage::RemovingShellFile
    }

    /// The shell's service, or what it has left behind, is being dealt with.
    pub open spec fn is_at_shell(self) -> bool {
        self.tries_shell() || self.stage == Stage::DiscardingShellFile
    }
}

/// The event brings the pending action of `stage` to a good end.
pub open spec fn succeeds(stage: Stage, event: Event) -> bool {
    match stage {
        Stage::Connecting => event matches Event::BusOpened(true),
        Stage::Naming => event matches Event::TempFileNamed(Some(_)),
        Stage::CallingShell => event matches Event::ShellReplied(true),
        Stage::ReadingShellFile => event matches Event::FileRead(Some(_)),
        Stage::RemovingShellFile => event matches Event::FileRemoved(true),
        Stage::DiscardingShellFile => event matches Event::FileRemoved(true),
        Stage::Subscribing => event matches Event::Subscribed(true),
        Stage::Requesting => event matches Event::PortalReplied(true),
        Stage::Waiting => event matches Event::BusProcessed { ok: true, .. },
        Stage::Reading => event matches Event::FileRead(Some(_)),
        Stage::Removing => event matches Event::FileRemoved(true),
        Stage::Finished => true,
    }
}

/// A round of bus processing that ended well and found no response.
pub open spec fn is_silent(event: Event) -> bool {
    event matches Event::BusProcessed { ok: true, state } && state@.status is None
}

/// The rectangle of a capture is the one it started with, whatever happens.
pub proof fn lemma_rectangle_is_kept(s: ScreenshotView, events: Seq<Event>)
    ensures
        s.after_all(events).x == s.x,
        s.after_all(events).y == s.y,
        s.after_all(events).width == s.width,
        s.after_all(events).height == s.height,
    decreases events.len(),
{
    if events.len() > 0 {
        lemma_rectangle_is_kept(s, events.drop_last());
    }
}

/// Every event brings a capture that has not finished closer to its end.
pub proof fn lemma_event_advances(s: ScreenshotView, event: Event)
    requires
        s.stage != Stage::Finished,
    ensures
        s.after(event).remaining() < s.remaining(),
{
}

/// A capture that has finished stays as it is.
pub proof fn lemma_finished_is_final(s: ScreenshotView, events: Seq<Event>)
    requires
        s.stage == Stage::Finished,
    ensures
        s.after_all(events) == s,
    decreases events.len(),
{
    if events.len() > 0 {
        lemma_finished_is_final(s, events.drop_last());
    }
}

/// Along any run of events, what remains shrinks for as long as the capture
/// has not finished: no stage is seen twice.
pub proof fn lemma_run_advances(s: ScreenshotView, events: Seq<Event>, i: int, j: int)
    requires
        0 <= i < j <= events.len(),
        s.after_all(events.take(i)).stage != Stage::Finished,
    ensures
        s.after_all(events.take(j)).remaining() < s.after_all(events.take(i)).remaining(),
    decreases j - i,
{
    let before = s.after_all(events.take(j - 1));
    assert(events.take(j).drop_last() =~= events.take(j - 1));
    assert(events.take(j).last() == events[j - 1]);
    assert(s.after_all(events.take(j)) == before.after(events[j - 1]));
    if i < j - 1 {
        lemma_run_advances(s, events, i, j - 1);
    }
    if before.stage != Stage::Finished {
        lemma_event_advances(before, events[j - 1]);
    }
}

/// No capture outlasts 69 events, whatever they are.
pub proof fn lemma_capture_finishes(s: ScreenshotView, events: Seq<Event>)
    requires
        events.len() >= s.remaining(),
    ensures
        s.after_all(events).stage == Stage::Finished,
        s.remaining() <= 69,
{
    if s.stage == Stage::Finished {
        lemma_finished_is_final(s, events);
    } else if s.after_all(events).stage != Stage::Finished {
        lemma_steps_are_counted(s, events);
    }
}

/// What remains after a run that has not finished is less by the length of
/// the run, at least.
proof fn lemma_steps_are_counted(s: ScreenshotView, events: Seq<Event>)
    requires
        s.after_all(events).stage != Stage::Finished,
    ensures
        s.after_all(events).remaining() + events.len() <= s.remaining(),
    decreases events.len(),
{
    if events.len() > 0 {
        let before = s.after_all(events.drop_last());
        if before.stage == Stage::Finished {
            assert(before.after(events.last()) == before);
        } else {
            lemma_steps_are_counted(s, events.drop_last());
            lemma_event_advances(before, events.last());
        }
    }
}

/// The wait for the portal is bounded. While the bus brings no response,
/// the capture processes it again, and the round that brings the count to
/// `MAX_POLLS` ends the capture with `Timeout`: a portal that never answers
/// costs 60 rounds, and no more.
pub proof fn lemma_silent_portal_times_out(s: ScreenshotView, events: Seq<Event>)
    requires
        s.stage == Stage::Waiting,
        s.polls < MAX_POLLS,
        events.len() <= MAX_POLLS - s.polls,
        forall|i: int| 0 <= i < events.len() ==> is_silent(#[trigger] events[i]),
    ensures
        events.len() < MAX_POLLS - s.polls ==> s.after_all(events) == (ScreenshotView {
            polls: (s.polls + events.len()) as u32,
            ..s
        }) && s.after_all(events).action() == (ActionView::ProcessBus {
            timeout_ms: POLL_TIMEOUT_MS,
        }),
        events.len() == MAX_POLLS - s.polls ==> s.after_all(events) == (ScreenshotView {
            polls: (MAX_POLLS - 1) as u32,
            ..s
        }).finished(Err(CaptureError::Timeout)),
    decreases events.len(),
{
    if events.len() > 0 {
        lemma_silent_portal_times_out(s, events.drop_last());
    }
}

/// Whatever goes wrong with the shell's service, the portal is asked next:
/// at once, or as soon as the file that the service may have left is cleared
/// away. The error of the shell's service is set aside, and no result stands.
pub proof fn lemma_shell_failure_falls_back(s: ScreenshotView, event: Event, cleared: Event)
    requires
        s.tries_shell(),
        !succeeds(s.stage, event),
    ensures
        ({
            let failed = s.after(event);
            let next = if failed.stage == Stage::DiscardingShellFile {
                failed.after(cleared)
            } else {
                failed
            };
            &&& failed.stage == Stage::DiscardingShellFile ==> failed.action()
                == ActionView::RemoveFile(s.file)
            &&& next.stage == Stage::Subscribing
            &&& next.action() == ActionView::Subscribe
            &&& next.discarded is Some
            &&& next.outcome is None
        }),
{
}

/// The portal is asked once at most: along any run of events, the capture
/// subscribes to the portal's response at one point or at none.
pub proof fn lemma_portal_is_asked_once(s: ScreenshotView, events: Seq<Event>, i: int, j: int)
    requires
        0 <= i < j <= events.len(),
        s.after_all(events.take(i)).stage == Stage::Subscribing,
    ensures
        s.after_all(events.take(j)).stage != Stage::Subscribing,
        !s.after_all(events.take(j)).is_at_shell(),
{
    lemma_run_advances(s, events, i, j);
}

/// The error of the portal is the error of the capture: once the portal is
/// asked, a failure of any of its actions ends the capture, and the shell's
/// service is not tried again.
pub proof fn lemma_portal_failure_is_final(s: ScreenshotView, event: Event)
    requires
        s.stage == Stage::Subscribing || s.stage == Stage::Requesting || s.stage == Stage::Waiting,
        !succeeds(s.stage, event),
        s.stage == Stage::Waiting ==> !(event matches Event::BusProcessed { state, .. }
            && state@.status is Some),
    ensures
        s.after(event).stage == Stage::Finished,
        s.after(event).outcome == Some(
            Err::<Seq<u8>, CaptureError>(
                match s.stage {
                    Stage::Requesting => CaptureError::RequestRejected,
                    _ => CaptureError::BusConnectionFailed,
                },
            ),
        ),
{
}

/// A file that the portal names is removed before the capture ends. When a
/// response names a file, the capture reads it if the status is success and
/// removes it in every case, whatever the reading gave; a refusal ends in
/// `UserCancelled`.
pub proof fn lemma_named_file_is_removed(
    s: ScreenshotView,
    ok: bool,
    state: PortalRequestState,
    read: Event,
    removed: Event,
)
    requires
        s.stage == Stage::Waiting,
        state@.status is Some,
        state@.result_uri is Some,
        uri_file_path(state@.result_uri.unwrap()) is Some,
    ensures
        ({
            let path = uri_file_path(state@.result_uri.unwrap()).unwrap();
            let answered = s.after(Event::BusProcessed { ok, state });
            let removing = if state@.status == Some(STATUS_SUCCESS) {
                answered.after(read)
            } else {
                answered
            };
            &&& state@.status == Some(STATUS_SUCCESS) ==> answered.action() == ActionView::ReadFile(
                path,
            )
            &&& state@.status != Some(STATUS_SUCCESS) ==> removing.outcome == Some(
                Err::<Seq<u8>, CaptureError>(CaptureError::UserCancelled),
            )
            &&& removing.stage == Stage::Removing
            &&& removing.action() == ActionView::RemoveFile(path)
            &&& removing.after(removed).stage == Stage::Finished
            &&& removing.after(removed).outcome == removing.outcome
        }),
{
}

/// The portal's file may be of any size. A file that decodes gives the whole
/// rectangle of the capture, `width * height * 4` bytes, however small the
/// image in it, as long as the rectangle fits in memory; the result stands
/// whether or not the file could be removed afterwards.
pub proof fn lemma_file_of_any_size_is_cropped(s: ScreenshotView, bytes: Vec<u8>, removed: Event)
    requires
        s.stage == Stage::Reading,
        png_first_frame(bytes@) is Some,
        crop_fits(extent(s.width), extent(s.height)),
    ensures
        ({
            let read = s.after(Event::FileRead(Some(bytes)));
            let end = read.after(removed);
            &&& read.action() == ActionView::RemoveFile(s.file)
            &&& end.stage == Stage::Finished
            &&& end.outcome == Some(
                decoded_crop(
                    bytes@,
                    s.x as int,
                    s.y as int,
                    extent(s.width),
                    extent(s.height),
                ),
            )
            &&& end.outcome matches Some(Ok(pixels)) && pixels.len() == extent(s.width) * extent(
                s.height,
            ) * 4
        }),
{
    lemma_decoded_crop_is_total(
        bytes@,
        s.x as int,
        s.y as int,
        extent(s.width),
        extent(s.height),
    );
}

/// The shell's file is removed on every way out. Once the file has a name,
/// the capture leaves the shell's service, for a result or for the portal,
/// only by the removal of that file; and it has a result only when the
/// removal has succeeded.
pub proof fn lemma_shell_file_is_removed(s: ScreenshotView, event: Event)
    requires
        s.is_at_shell(),
        s.stage != Stage::Naming,
    ensures
        s.after(event).file == s.file,
        !s.after(event).is_at_shell() ==> s.action() == ActionView::RemoveFile(s.file),
        s.after(event).stage == Stage::Finished ==> s.stage == Stage::RemovingShellFile,
        s.after(event).stage == Stage::Finished ==> (event matches Event::FileRemoved(true)),
        s.after(event).stage == Stage::Finished ==> s.after(event).outcome == s.outcome,
{
}

} // verus!
