//! The progress notices the engine hands to the presentation layer, as
//! plain strings; printing, colorizing and suppressing them is the
//! caller's concern.

use vstd::prelude::*;
use vstd::string::StringExecFns;

verus! {

/// The notice emitted when a directory is entered.
pub fn dir_notice(path: &str) -> (msg: String)
    ensures
        msg@ == "Searching in dir: "@ + path@,
{
    let mut msg = String::new();
    msg.append("Searching in dir: ");
    msg.append(path);
    proof {
        assert(msg@ =~= "Searching in dir: "@ + path@);
    }
    msg
}

/// The notice emitted when a file is scanned.
pub fn file_notice(path: &str) -> (msg: String)
    ensures
        msg@ == "Searching in file: "@ + path@,
{
    let mut msg = String::new();
    msg.append("Searching in file: ");
    msg.append(path);
    proof {
        assert(msg@ =~= "Searching in file: "@ + path@);
    }
    msg
}

/// The notice emitted when a file is skipped for its extension.
pub fn skip_notice(name: &str, ext: &str) -> (msg: String)
    ensures
        msg@ == "Skipped file - bad extension: '"@ + name@ + ": "@ + ext@ + "'"@,
{
    let mut msg = String::new();
    msg.append("Skipped file - bad extension: '");
    msg.append(name);
    msg.append(": ");
    msg.append(ext);
    msg.append("'");
    proof {
        assert(msg@ =~= "Skipped file - bad extension: '"@ + name@ + ": "@ + ext@ + "'"@);
    }
    msg
}

/// The notice emitted when a file could not be read as text.
pub fn read_error_notice(path: &str, error: &str) -> (msg: String)
    ensures
        msg@ == "Got an error reading the file: "@ + path@ + "\nError: "@ + error@,
{
    let mut msg = String::new();
    msg.append("Got an error reading the file: ");
    msg.append(path);
    msg.append("\nError: ");
    msg.append(error);
    proof {
        assert(msg@ =~= "Got an error reading the file: "@ + path@ + "\nError: "@ + error@);
    }
    msg
}

} // verus!
