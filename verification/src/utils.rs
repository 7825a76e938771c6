//! Small shared helpers.

use vstd::prelude::*;
use vstd::string::*;

verus! {

/// The text of an "unreachable" report that carries the detail `msg`.
pub open spec fn unreachable_report(msg: Seq<char>) -> Seq<char> {
    "Entered unreachable code: "@ + msg
}

/// Builds the message reported when control reaches a branch that the
/// surrounding logic rules out.
pub fn __report_unreachable_str(msg: &str) -> (report: String)
    ensures
        report@ == unreachable_report(msg@),
{
    String::from_str("Entered unreachable code: ").concat(msg)
}

/// As [`__report_unreachable_str`], wrapped in `Err`.
pub fn __return_unreachable_str(msg: &str) -> (r: Result<(), String>)
    ensures
        r is Err,
        r->Err_0@ == unreachable_report(msg@),
{
    Err(__report_unreachable_str(msg))
}

/// The report without any detail.
pub fn __report_unreachable() -> (report: String)
    ensures
        report@ == unreachable_report(Seq::empty()),
{
    let report = __report_unreachable_str("");
    proof {
        reveal_strlit("");
        assert(""@ =~= Seq::<char>::empty());
    }
    report
}

/// As [`__report_unreachable`], wrapped in `Err`.
pub fn __return_unreachable() -> (r: Result<(), String>)
    ensures
        r is Err,
        r->Err_0@ == unreachable_report(Seq::empty()),
{
    Err(__report_unreachable())
}

} // verus!
