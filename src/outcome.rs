//! The outcomes of file access, notification dispatch and the file picker,
//! as they are handed to the UI: a failure becomes a human-readable message
//! that names the operation, a success passes through unchanged.
use vstd::prelude::*;

verus! {

/// The identifier under which the shell's notifications are shown.
pub const NOTIFICATION_APP_ID: &'static str = "dev.pulse.ccm";

/// `prefix` followed by `detail`.
fn with_prefix(prefix: &str, detail: String) -> (r: String)
    ensures
        r@ == prefix@ + detail@,
{
    let mut r = String::from_str(prefix);
    r.append(detail.as_str());
    r
}

/// The result of reading a file, from what the file system gave: the
/// contents unchanged, or `Read error: ` followed by the cause. The message of
/// a failure is never empty.
pub fn read_file_outcome(r: Result<String, String>) -> (o: Result<String, String>)
    ensures
        match r {
            Ok(contents) => o == Ok::<String, String>(contents),
            Err(cause) => match o {
                Err(m) => m@ == "Read error: "@ + cause@,
                Ok(_) => false,
            },
        },
        o matches Err(m) ==> m@.len() > 0,
{
    proof {
        reveal_strlit("Read error: ");
    }
    match r {
        Ok(contents) => Ok(contents),
        Err(cause) => Err(with_prefix("Read error: ", cause)),
    }
}

/// The result of writing a file: `Write error: ` followed by the cause on a
/// failure, which is never empty.
pub fn write_file_outcome(r: Result<(), String>) -> (o: Result<(), String>)
    ensures
        match r {
            Ok(_) => o is Ok,
            Err(cause) => match o {
                Err(m) => m@ == "Write error: "@ + cause@,
                Ok(_) => false,
            },
        },
        o matches Err(m) ==> m@.len() > 0,
{
    proof {
        reveal_strlit("Write error: ");
    }
    match r {
        Ok(()) => Ok(()),
        Err(cause) => Err(with_prefix("Write error: ", cause)),
    }
}

/// The result of showing a notification: `Notification error: ` followed by
/// the cause on a failure, which is never empty.
pub fn notification_outcome(r: Result<(), String>) -> (o: Result<(), String>)
    ensures
        match r {
            Ok(_) => o is Ok,
            Err(cause) => match o {
                Err(m) => m@ == "Notification error: "@ + cause@,
                Ok(_) => false,
            },
        },
        o matches Err(m) ==> m@.len() > 0,
{
    proof {
        reveal_strlit("Notification error: ");
    }
    match r {
        Ok(()) => Ok(()),
        Err(cause) => Err(with_prefix("Notification error: ", cause)),
    }
}

/// The path picked in a file dialog. `received` is what the dialog reported:
/// `None` where no answer came back, `Some(None)` where the user cancelled,
/// `Some(Some(path))` where a file was chosen. Only a chosen file gives a path.
pub fn picked_file(received: Option<Option<String>>) -> (r: Option<String>)
    ensures
        match received {
            Some(Some(path)) => r == Some(path),
            _ => r is None,
        },
{
    match received {
        Some(answer) => answer,
        None => None,
    }
}

} // verus!
