//! What has to be done to the file system for a request, one action at a time.
//!
//! The caller reads and writes; what is read, written and reported is decided
//! here.

use crate::brightness::{adjust, adjusted, Direction};
use crate::decimal::{
    decimal_text, lemma_written_level_reads_back, parse_brightness, parsed_level,
    render_brightness, ParseFailure,
};
use crate::device::{brightness_path, brightness_path_of, DEVICE_DIRECTORY};
use crate::error::{ErrorKind, ErrorKindView};
use crate::request::{Request, RequestView};
use vstd::math::{max, min};
use vstd::prelude::*;

verus! {

/// What is done with the content of a brightness file once it has been read.
#[derive(Clone, Copy, Debug, PartialEq, Eq, Structural)]
pub enum AfterRead {
    /// The level is reported.
    Report,
    /// The level is moved by `delta` in `direction` and written back.
    Adjust { delta: u8, direction: Direction },
}

/// What the caller has to do next.
#[derive(Debug, PartialEq, Eq)]
pub enum Action {
    /// List the entries of `directory`, and hand what that gave to
    /// [`device_names`](crate::device::device_names).
    ListDirectory { directory: String },
    /// Read the file at `path`, and hand what that gave to [`after_read`],
    /// with `path` and `then`.
    ReadFile { path: String, then: AfterRead },
    /// Replace the content of the file at `path` by `content`, and hand what
    /// that gave to [`after_write`], with `path`.
    WriteFile { path: String, content: String },
    /// Report `level` as the brightness.
    Report { level: u8 },
}

/// An [`Action`] with its texts as sequences of characters.
pub enum ActionView {
    ListDirectory { directory: Seq<char> },
    ReadFile { path: Seq<char>, then: AfterRead },
    WriteFile { path: Seq<char>, content: Seq<char> },
    Report { level: u8 },
}

impl View for Action {
    type V = ActionView;

    open spec fn view(&self) -> ActionView {
        match *self {
            Action::ListDirectory { directory } => ActionView::ListDirectory {
                directory: directory@,
            },
            Action::ReadFile { path, then } => ActionView::ReadFile { path: path@, then },
            Action::WriteFile { path, content } => ActionView::WriteFile {
                path: path@,
                content: content@,
            },
            Action::Report { level } => ActionView::Report { level },
        }
    }
}

impl Clone for Action {
    fn clone(&self) -> (copy: Action)
        ensures
            copy == *self,
    {
        match self {
            Action::ListDirectory { directory } => Action::ListDirectory {
                directory: directory.clone(),
            },
            Action::ReadFile { path, then } => Action::ReadFile { path: path.clone(), then: *then },
            Action::WriteFile { path, content } => Action::WriteFile {
                path: path.clone(),
                content: content.clone(),
            },
            Action::Report { level } => Action::Report { level: *level },
        }
    }
}

/// What reading a file gave, with its texts as sequences of characters.
pub open spec fn read_view(read: Result<String, String>) -> Result<Seq<char>, Seq<char>> {
    match read {
        Ok(content) => Ok(content@),
        Err(message) => Err(message@),
    }
}

/// What writing a file gave, with its text as a sequence of characters.
pub open spec fn written_view(written: Result<(), String>) -> Result<(), Seq<char>> {
    match written {
        Ok(()) => Ok(()),
        Err(message) => Err(message@),
    }
}

/// The first action that `request` calls for.
///
/// Setting a level writes it at once, without a look at the file. Reporting and
/// adjusting start by reading the file.
pub open spec fn planned(request: RequestView) -> ActionView {
    match request {
        RequestView::ListDevices => ActionView::ListDirectory { directory: DEVICE_DIRECTORY@ },
        RequestView::Get { device } => ActionView::ReadFile {
            path: brightness_path_of(device),
            then: AfterRead::Report,
        },
        RequestView::SetAbsolute { device, value } => ActionView::WriteFile {
            path: brightness_path_of(device),
            content: decimal_text(value as nat),
        },
        RequestView::Adjust { device, delta, direction } => ActionView::ReadFile {
            path: brightness_path_of(device),
            then: AfterRead::Adjust { delta, direction },
        },
    }
}

/// The action that follows once reading the file at `path` has given `read`:
/// the content of the file, or the system's message where it could not be
/// read.
///
/// A file that could not be read fails as an I/O error, and content that is
/// no brightness level as a parse error. A level is reported as it is, or
/// adjusted and written back to the same file.
pub open spec fn followed(
    path: Seq<char>,
    then: AfterRead,
    read: Result<Seq<char>, Seq<char>>,
) -> Result<ActionView, ErrorKindView> {
    match read {
        Err(message) => Err(ErrorKindView::IoError { path, message }),
        Ok(content) => match parsed_level(content) {
            Err(reason) => Err(ErrorKindView::ParseError { path, reason }),
            Ok(current) => Ok(
                match then {
                    AfterRead::Report => ActionView::Report { level: current },
                    AfterRead::Adjust { delta, direction } => ActionView::WriteFile {
                        path,
                        content: decimal_text(adjusted(current, delta, direction) as nat),
                    },
                },
            ),
        },
    }
}

/// What writing the file at `path` comes to, where writing has given
/// `written`: nothing, or the system's message where the file could not be
/// written, which fails as an I/O error.
pub open spec fn concluded(path: Seq<char>, written: Result<(), Seq<char>>) -> Result<
    (),
    ErrorKindView,
> {
    match written {
        Ok(()) => Ok(()),
        Err(message) => Err(ErrorKindView::IoError { path, message }),
    }
}

/// Gives the first action that `request` calls for.
pub fn plan(request: &Request) -> (action: Action)
    ensures
        action@ == planned(request@),
{
    match request {
        Request::ListDevices => Action::ListDirectory { directory: DEVICE_DIRECTORY.to_owned() },
        Request::Get { device } => Action::ReadFile {
            path: brightness_path(device.as_str()),
            then: AfterRead::Report,
        },
        Request::SetAbsolute { device, value } => Action::WriteFile {
            path: brightness_path(device.as_str()),
            content: render_brightness(*value),
        },
        Request::Adjust { device, delta, direction } => Action::ReadFile {
            path: brightness_path(device.as_str()),
            then: AfterRead::Adjust { delta: *delta, direction: *direction },
        },
    }
}

/// Gives the action that follows once reading the file at `path` has given
/// `read`: the content of the file, or the system's message where it could
/// not be read.
pub fn after_read(path: &str, then: AfterRead, read: &Result<String, String>) -> (result: Result<
    Action,
    ErrorKind,
>)
    ensures
        match result {
            Ok(action) => followed(path@, then, read_view(*read)) == Ok::<
                ActionView,
                ErrorKindView,
            >(action@),
            Err(error) => followed(path@, then, read_view(*read)) == Err::<
                ActionView,
                ErrorKindView,
            >(error@),
        },
{
    let content = match read {
        Ok(content) => content,
        Err(message) => {
            return Err(ErrorKind::IoError { path: path.to_owned(), message: message.clone() });
        },
    };
    match parse_brightness(content.as_str()) {
        Err(reason) => Err(ErrorKind::ParseError { path: path.to_owned(), reason }),
        Ok(current) => match then {
            AfterRead::Report => Ok(Action::Report { level: current }),
            AfterRead::Adjust { delta, direction } => Ok(
                Action::WriteFile {
                    path: path.to_owned(),
                    content: render_brightness(adjust(current, delta, direction)),
                },
            ),
        },
    }
}

/// Says what writing the file at `path` has come to, where writing has given
/// `written`: nothing, or the system's message where the file could not be
/// written.
pub fn after_write(path: &str, written: &Result<(), String>) -> (result: Result<(), ErrorKind>)
    ensures
        match result {
            Ok(()) => concluded(path@, written_view(*written)) == Ok::<(), ErrorKindView>(()),
            Err(error) => concluded(path@, written_view(*written)) == Err::<(), ErrorKindView>(
                error@,
            ),
        },
{
    match written {
        Ok(()) => Ok(()),
        Err(message) => Err(ErrorKind::IoError { path: path.to_owned(), message: message.clone() }),
    }
}

/// What the brightness file holds once `request` has been carried out on a
/// file that held `before`, where every read and write went well.
pub open spec fn content_after(request: RequestView, before: Seq<char>) -> Seq<char> {
    match planned(request) {
        ActionView::WriteFile { content, .. } => content,
        ActionView::ReadFile { path, then } => match followed(path, then, Ok(before)) {
            Ok(ActionView::WriteFile { content, .. }) => content,
            _ => before,
        },
        _ => before,
    }
}

/// The level that is reported when `request` is carried out on a file that
/// holds `content`, if one is.
pub open spec fn level_reported(request: RequestView, content: Seq<char>) -> Option<u8> {
    match planned(request) {
        ActionView::ReadFile { path, then } => match followed(path, then, Ok(content)) {
            Ok(ActionView::Report { level }) => Some(level),
            _ => None,
        },
        _ => None,
    }
}

/// Setting a level writes that level, whatever the file held before, and the
/// level is what is reported afterwards. A second level that is set replaces
/// the first.
pub proof fn lemma_set_then_get(device: Seq<char>, first: u8, second: u8, before: Seq<char>)
    ensures
        ({
            let held = content_after(RequestView::SetAbsolute { device, value: first }, before);
            let replaced = content_after(RequestView::SetAbsolute { device, value: second }, held);
            &&& held == decimal_text(first as nat)
            &&& level_reported(RequestView::Get { device }, held) == Some(first)
            &&& level_reported(RequestView::Get { device }, replaced) == Some(second)
        }),
{
    lemma_written_level_reads_back(first);
    lemma_written_level_reads_back(second);
}

/// Setting a level twice leaves what setting it once leaves.
pub proof fn lemma_set_is_idempotent(device: Seq<char>, value: u8, before: Seq<char>)
    ensures
        ({
            let set = RequestView::SetAbsolute { device, value };
            content_after(set, content_after(set, before)) == content_after(set, before)
        }),
{
}

/// Raising the brightness of a file that holds `current` by `delta` leaves
/// their sum, or 255 where the sum is more.
pub proof fn lemma_increment_saturates(
    device: Seq<char>,
    delta: u8,
    before: Seq<char>,
    current: u8,
)
    requires
        parsed_level(before) == Ok::<u8, ParseFailure>(current),
    ensures
        ({
            let raise = RequestView::Adjust { device, delta, direction: Direction::Up };
            let level = min(255, current + delta);
            &&& level <= 255
            &&& content_after(raise, before) == decimal_text(level as nat)
            &&& level_reported(RequestView::Get { device }, content_after(raise, before)) == Some(
                level as u8,
            )
        }),
{
    lemma_written_level_reads_back(min(255, current + delta) as u8);
}

/// Lowering the brightness of a file that holds `current` by `delta` leaves
/// their difference, or 0 where `delta` is more than `current`.
pub proof fn lemma_decrement_saturates(
    device: Seq<char>,
    delta: u8,
    before: Seq<char>,
    current: u8,
)
    requires
        parsed_level(before) == Ok::<u8, ParseFailure>(current),
    ensures
        ({
            let lower = RequestView::Adjust { device, delta, direction: Direction::Down };
            let level = max(0, current - delta);
            &&& level >= 0
            &&& content_after(lower, before) == decimal_text(level as nat)
            &&& level_reported(RequestView::Get { device }, content_after(lower, before)) == Some(
                level as u8,
            )
        }),
{
    lemma_written_level_reads_back(max(0, current - delta) as u8);
}

} // verus!
