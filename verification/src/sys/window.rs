//! What is known of a window.

use crate::common;
use crate::common::decode_utf16;
use vstd::prelude::*;

verus! {

/// A window as it was at one moment.
#[derive(Debug)]
pub struct WindowInfo {
    pub hwnd: isize,
    pub title: String,
    /// Name of the program, such as `notepad.exe`.
    pub process_name: String,
    /// Where the program is stored.
    pub process_path: String,
    pub pid: u32,
}

impl Clone for WindowInfo {
    fn clone(&self) -> (info: Self)
        ensures
            info == *self,
    {
        WindowInfo {
            hwnd: self.hwnd,
            title: self.title.clone(),
            process_name: self.process_name.clone(),
            process_path: self.process_path.clone(),
            pid: self.pid,
        }
    }
}

/// Why nothing could be learned of a window.
#[derive(Debug, Clone, Copy, PartialEq, Eq, Structural)]
pub enum WindowError {
    /// Its title is no text.
    Title,
    /// Its program could not be looked at, or the name of it is no text.
    ProcessName,
    /// Its program has no path, or the path is no text.
    ProcessPath,
}

/// Whether something read of a program is a text. Nothing is read of program 0.
pub open spec fn is_readable(pid: u32, units: Option<&[u16]>) -> bool {
    pid == 0 || (units is Some && common::is_utf16(units->0@))
}

/// Whether a text is what was read of a program; for program 0 it is empty.
pub open spec fn is_read_as(pid: u32, units: Option<&[u16]>, text: Seq<char>) -> bool {
    if pid == 0 {
        text.len() == 0
    } else {
        units is Some && common::utf16(text) == units->0@
    }
}

fn read_text(pid: u32, units: Option<&[u16]>) -> (text: Option<String>)
    ensures
        text is Some <==> is_readable(pid, units),
        text is Some ==> is_read_as(pid, units, text->0@),
{
    if pid == 0 {
        return Some(String::new());
    }
    match units {
        Some(units) => decode_utf16(units),
        None => None,
    }
}

/// What is known of a window, from what the system said: the units of its title,
/// and those of the name and the path of its program, where they could be read.
pub fn window_info(
    hwnd: isize,
    title: &[u16],
    pid: u32,
    name: Option<&[u16]>,
    path: Option<&[u16]>,
) -> (info: Result<WindowInfo, WindowError>)
    ensures
        match info {
            Ok(w) => {
                &&& w.hwnd == hwnd
                &&& w.pid == pid
                &&& common::utf16(w.title@) == title@
                &&& is_read_as(pid, name, w.process_name@)
                &&& is_read_as(pid, path, w.process_path@)
            },
            Err(WindowError::Title) => !common::is_utf16(title@),
            Err(WindowError::ProcessName) => common::is_utf16(title@) && !is_readable(pid, name),
            Err(WindowError::ProcessPath) => common::is_utf16(title@) && is_readable(pid, name)
                && !is_readable(pid, path),
        },
{
    let title: String = match decode_utf16(title) {
        Some(t) => t,
        None => {
            return Err(WindowError::Title);
        },
    };
    let process_name: String = match read_text(pid, name) {
        Some(t) => t,
        None => {
            return Err(WindowError::ProcessName);
        },
    };
    let process_path: String = match read_text(pid, path) {
        Some(t) => t,
        None => {
            return Err(WindowError::ProcessPath);
        },
    };
    Ok(WindowInfo { hwnd, title, process_name, process_path, pid })
}

/// The title of a window is read as it was written.
pub proof fn title_is_read_as_written(written: Seq<char>, info: WindowInfo)
    requires
        common::utf16(info.title@) == common::utf16(written),
    ensures
        info.title@ == written,
{
    common::utf16_names_one_text(info.title@, written);
}

/// What is known of a window is what the system said of it: its handle, its title,
/// the number of its program, and the program's name and path, each from its own
/// source. Of program 0 neither name nor path is known.
pub proof fn windows_are_known_as_they_are(
    hwnd: isize,
    title: &[u16],
    pid: u32,
    name: &[u16],
    path: &[u16],
    written: Seq<char>,
    program: Seq<char>,
    place: Seq<char>,
    info: Result<WindowInfo, WindowError>,
)
    requires
        call_ensures(window_info, (hwnd, title, pid, Some(name), Some(path)), info),
        common::utf16(written) == title@,
        common::utf16(program) == name@,
        common::utf16(place) == path@,
    ensures
        info is Ok,
        ({
            let w = info->Ok_0;
            &&& w.hwnd == hwnd
            &&& w.pid == pid
            &&& w.title@ == written
            &&& pid != 0 ==> w.process_name@ == program && w.process_path@ == place
            &&& pid == 0 ==> w.process_name@.len() == 0 && w.process_path@.len() == 0
        }),
{
    assert(common::is_utf16(title@));
    assert(common::is_utf16(name@));
    assert(common::is_utf16(path@));
    if let Ok(w) = info {
        common::utf16_names_one_text(w.title@, written);
        if pid != 0 {
            common::utf16_names_one_text(w.process_name@, program);
            common::utf16_names_one_text(w.process_path@, place);
        }
    }
}

/// A window whose program cannot be looked at is not known.
pub proof fn unknown_programs_are_errors(
    hwnd: isize,
    title: &[u16],
    pid: u32,
    path: Option<&[u16]>,
    info: Result<WindowInfo, WindowError>,
)
    requires
        call_ensures(window_info, (hwnd, title, pid, None, path), info),
        pid != 0,
    ensures
        info is Err,
        common::is_utf16(title@) ==> info == Err::<WindowInfo, WindowError>(
            WindowError::ProcessName,
        ),
{
}

} // verus!
