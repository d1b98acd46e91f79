//! Backlight devices: where they are found, and how they are listed.

use crate::error::ErrorKind;
use vstd::prelude::*;

verus! {

/// The directory that holds one subdirectory for each backlight device.
pub const DEVICE_DIRECTORY: &'static str = "/sys/class/backlight/";

/// What follows a device's name in the path of its brightness file.
pub const BRIGHTNESS_FILE: &'static str = "/brightness";

/// The path of the brightness file of the device named `device`.
pub open spec fn brightness_path_of(device: Seq<char>) -> Seq<char> {
    DEVICE_DIRECTORY@ + device + BRIGHTNESS_FILE@
}

/// Gives the path of the brightness file of the device named `device`.
pub fn brightness_path(device: &str) -> (path: String)
    ensures
        path@ == brightness_path_of(device@),
{
    let mut path = DEVICE_DIRECTORY.to_owned();
    path.append(device);
    path.append(BRIGHTNESS_FILE);
    path
}

/// Whether `names` are the names that `entries` give, one for one and in
/// their order.
pub open spec fn names_all(entries: Seq<Result<String, String>>, names: Seq<String>) -> bool {
    &&& names.len() == entries.len()
    &&& forall|i: int|
        0 <= i < entries.len() ==> (#[trigger] entries[i] matches Ok(name) && names[i]@ == name@)
}

/// Whether `message` is what the system said of the first of `entries` that
/// could not be read.
pub open spec fn first_failure(entries: Seq<Result<String, String>>, message: Seq<char>) -> bool {
    exists|k: int|
        {
            &&& 0 <= k < entries.len()
            &&& forall|j: int| 0 <= j < k ==> #[trigger] entries[j] is Ok
            &&& #[trigger] entries[k] matches Err(said) && said@ == message
        }
}

/// Collects the names of the devices from what listing `directory` gave:
/// the system's message where the directory could not be opened, or else its
/// entries, each of which was either read, and gives a name, or not, and gives
/// the system's message.
///
/// The names come in the order of the entries. A directory that could not be
/// opened fails as an I/O error, and so does the first entry that could not
/// be read.
pub fn device_names(
    directory: &str,
    listing: &Result<Vec<Result<String, String>>, String>,
) -> (result: Result<Vec<String>, ErrorKind>)
    ensures
        match (*listing, result) {
            (Ok(entries), Ok(names)) => names_all(entries@, names@),
            (Ok(entries), Err(ErrorKind::IoError { path, message })) => path@ == directory@
                && first_failure(entries@, message@),
            (Err(said), Err(ErrorKind::IoError { path, message })) => path@ == directory@
                && message@ == said@,
            _ => false,
        },
{
    let entries = match listing {
        Ok(entries) => entries,
        Err(said) => {
            return Err(ErrorKind::IoError { path: directory.to_owned(), message: said.clone() });
        },
    };
    let mut names: Vec<String> = Vec::new();
    let mut i: usize = 0;
    while i < entries.len()
        invariant
            *listing == Ok::<Vec<Result<String, String>>, String>(*entries),
            i <= entries.len(),
            names.len() == i,
            forall|j: int|
                0 <= j < i ==> (#[trigger] entries[j] matches Ok(name) && names[j]@ == name@),
        decreases entries.len() - i,
    {
        match &entries[i] {
            Ok(name) => {
                names.push(name.clone());
            },
            Err(said) => {
                return Err(
                    ErrorKind::IoError { path: directory.to_owned(), message: said.clone() },
                );
            },
        }
        i += 1;
    }
    Ok(names)
}

} // verus!
