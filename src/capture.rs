//! Names of captured frame images.
use vstd::prelude::*;
use vstd::string::StringExecFns;

verus! {

/// Relies on chrono::offset::Local::now and its `Display`: the local date
/// and time at the call, as text: the date, a space and the offset, so never
/// empty. It depends on the clock, so nothing more is stated of it.
#[verifier::external_body]
fn local_timestamp() -> (r: String)
    ensures
        r@.len() > 0,
{
    chrono::offset::Local::now().to_string()
}

/// File name of a frame captured at `timestamp` by the program `exe_name`:
/// the two joined, then the `.png` extension.
pub fn capture_file_name(exe_name: &str, timestamp: &str) -> (r: String)
    ensures
        r@ == exe_name@ + timestamp@ + ".png"@,
{
    let mut r = String::from_str(exe_name);
    r.append(timestamp);
    r.append(".png");
    r
}

/// File name of a frame captured now by the program `exe_name`.
pub fn capture_file_name_now(exe_name: &str) -> (r: String)
    ensures
        exists|timestamp: Seq<char>|
            timestamp.len() > 0 && r@ == exe_name@ + timestamp + ".png"@,
{
    let timestamp = local_timestamp();
    capture_file_name(exe_name, timestamp.as_str())
}

} // verus!
