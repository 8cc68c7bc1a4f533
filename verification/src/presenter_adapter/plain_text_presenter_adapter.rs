use vstd::prelude::*;
use vstd::string::*;

use std::io::Write;

use crate::errors::ErrorReport;
use crate::gateways::PresenterGateway;
use crate::results::ResultType;
use crate::walker::text_views;

verus! {

/// The plain-text rendering of an enumeration: a heading line, then one line
/// per title, in order.
pub open spec fn list_text(ts: Seq<Seq<char>>) -> Seq<char>
    decreases ts.len(),
{
    if ts.len() == 0 {
        "Windows:"@
    } else {
        list_text(ts.drop_last()) + "\n"@ + ts.last()
    }
}

/// The plain-text rendering of a use-case result.
pub open spec fn result_text(r: ResultType) -> Seq<char> {
    match r {
        ResultType::ListWindowResult(ws) => list_text(text_views(ws@)),
        ResultType::TakeScreenShotResult(_) => "Screenshot taken"@,
    }
}

/// Relies on std::io::Stdout and the writeln macro: writes the text and a
/// newline to standard output. A write failure is ignored: presentation is
/// best-effort.
#[verifier::external_body]
fn print_line(s: &String) {
    let mut out = std::io::stdout();
    let _ = writeln!(out, "{}", s);
}

/// The plain-text rendering of a use-case result, built line by line.
#[verifier::loop_isolation(false)]
pub fn render_result(result: &ResultType) -> (s: String)
    ensures
        s@ == result_text(*result),
{
    match result {
        ResultType::ListWindowResult(windows) => {
            let mut s = String::from_str("Windows:");
            proof {
                assert(text_views(windows@.take(0)) =~= Seq::<Seq<char>>::empty());
            }
            let mut i: usize = 0;
            while i < windows.len()
                invariant
                    i <= windows@.len(),
                    s@ == list_text(text_views(windows@.take(i as int))),
                decreases windows@.len() - i,
            {
                s.append("\n");
                s.append(windows[i].as_str());
                i = i + 1;
                proof {
                    let ts = text_views(windows@.take(i as int));
                    assert(ts.drop_last() =~= text_views(windows@.take(i as int - 1)));
                    assert(ts.last() == windows@[i as int - 1]@);
                    assert(s@ =~= list_text(ts));
                }
            }
            proof {
                assert(windows@.take(windows@.len() as int) =~= windows@);
            }
            s
        },
        ResultType::TakeScreenShotResult(_) => String::from_str("Screenshot taken"),
    }
}

/// Renders results and failures as plain text on standard output.
pub struct PlainTextPresenterAdapter;

impl PlainTextPresenterAdapter {
    pub fn new() -> (r: Self)
        ensures
            r.presents_ok(),
    {
        PlainTextPresenterAdapter
    }
}

impl PresenterGateway for PlainTextPresenterAdapter {
    open spec fn inv(&self) -> bool {
        true
    }

    /// Plain-text presentation never fails.
    open spec fn presents_ok(&self) -> bool {
        true
    }

    fn present_error(&self, cause: String) -> (r: Result<(), ErrorReport>) {
        let mut s = String::from_str("Error: ");
        s.append(cause.as_str());
        print_line(&s);
        Ok(())
    }

    fn present_result(&self, result: &ResultType) -> (r: Result<(), ErrorReport>) {
        let s = render_result(result);
        print_line(&s);
        Ok(())
    }
}

} // verus!
