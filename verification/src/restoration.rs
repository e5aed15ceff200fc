//! Where a device's brightness is persisted so a later run can
//! restore it: one plain-number file per device under `/tmp/bright/`.
//! The file I/O itself happens outside the library; this module owns
//! the path rule and the error taxonomy of writing.

use vstd::prelude::*;

verus! {

broadcast use vstd::seq::group_seq_axioms;

/// The file the brightness of `device_name` is persisted in.
pub fn device_restore_path(device_name: &str) -> (r: String)
    ensures
        r@ == "/tmp/bright/"@ + device_name@,
{
    let mut path = String::from_str("/tmp/bright/");
    path.append(device_name);
    path
}

/// Why persisting a brightness value failed; each variant carries the
/// underlying I/O error's message.
#[derive(Debug)]
pub enum WriteError {
    DirCreate(String),
    FileCreate(String),
    FileWrite(String),
}

} // verus!
