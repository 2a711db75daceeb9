//! The stand-in workload and the greeting. The stall itself is performed by
//! whoever runs the work; what is returned is decided here.

use vstd::prelude::*;

verus! {

/// How long, in seconds, the stand-in workload keeps its thread busy.
pub const HEAVY_WORK_SECS: u64 = 5;

/// The fixed message that the stand-in workload returns when it is done.
pub open spec fn heavy_work_message() -> Seq<char> {
    "Sync 작업 완료! (앱 멈췄었음)"@
}

/// The value of the stand-in workload, the same in both execution modes.
pub fn heavy_work_result() -> (r: String)
    ensures
        r@ == heavy_work_message(),
{
    String::from_str("Sync 작업 완료! (앱 멈췄었음)")
}

/// The greeting for `name`.
pub open spec fn greeting(name: Seq<char>) -> Seq<char> {
    "Hello, "@ + name + "!"@
}

/// Greets `name`: `Hello, <name>!`.
pub fn greet(name: String) -> (r: String)
    ensures
        r@ == greeting(name@),
{
    let mut r = String::from_str("Hello, ");
    r.append(name.as_str());
    r.append("!");
    r
}

} // verus!
