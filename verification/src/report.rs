//! The text that reports a solution.
use vstd::prelude::*;
use vstd::string::StringExecFns;
use crate::double::Double;
use crate::solver::Solution;

verus! {

/// The three lines of a report, each ended by a line feed, around the six
/// numbers as they are to be read.
pub open spec fn report_text(
    a: Seq<char>,
    b: Seq<char>,
    c: Seq<char>,
    delta: Seq<char>,
    x1: Seq<char>,
    x2: Seq<char>,
) -> Seq<char> {
    "Solution for "@ + a + "x^2 + "@ + b + "x + "@ + c + " = 0\n"@ + "Delta: "@ + delta + "\n"@
        + "Roots:  x1 = "@ + x1 + " ; x2 = "@ + x2 + "\n"@
}

/// `text` is what `show` gives for `number`.
pub open spec fn shows<S: Fn(Double) -> String>(show: &S, number: Double, text: String) -> bool {
    show.ensures((number,), text)
}

/// `text` is the report of `solution`, with each number written as `show`
/// writes it.
pub open spec fn is_report<S: Fn(Double) -> String>(
    show: &S,
    solution: Solution,
    text: Seq<char>,
) -> bool {
    exists|a: String, b: String, c: String, delta: String, x1: String, x2: String|
        {
            &&& #[trigger] shows(show, solution.polynome.a, a)
            &&& #[trigger] shows(show, solution.polynome.b, b)
            &&& #[trigger] shows(show, solution.polynome.c, c)
            &&& #[trigger] shows(show, solution.delta.0, delta)
            &&& #[trigger] shows(show, solution.x1, x1)
            &&& #[trigger] shows(show, solution.x2, x2)
            &&& text == report_text(a@, b@, c@, delta@, x1@, x2@)
        }
}

/// Sets the six numbers, already written out, into the three lines of a
/// report.
pub fn write_report(a: &str, b: &str, c: &str, delta: &str, x1: &str, x2: &str) -> (text: String)
    ensures
        text@ == report_text(a@, b@, c@, delta@, x1@, x2@),
{
    let mut text = String::from_str("Solution for ");
    text.append(a);
    text.append("x^2 + ");
    text.append(b);
    text.append("x + ");
    text.append(c);
    text.append(" = 0\n");
    text.append("Delta: ");
    text.append(delta);
    text.append("\n");
    text.append("Roots:  x1 = ");
    text.append(x1);
    text.append(" ; x2 = ");
    text.append(x2);
    text.append("\n");
    text
}

impl Solution {
    /// The report of this solution: the coefficients, the discriminant and the
    /// two roots, each written by `show`, in the three lines of `report_text`.
    pub fn report<S>(&self, show: &S) -> (text: String) where
        S: Fn(Double) -> String,
        requires
            forall|number: Double| #[trigger] show.requires((number,)),
        ensures
            is_report(show, *self, text@),
    {
        let a = show(self.polynome.a);
        let b = show(self.polynome.b);
        let c = show(self.polynome.c);
        let delta = show(self.delta.0);
        let x1 = show(self.x1);
        let x2 = show(self.x2);
        let text = write_report(
            a.as_str(),
            b.as_str(),
            c.as_str(),
            delta.as_str(),
            x1.as_str(),
            x2.as_str(),
        );
        proof {
            // The six texts are the witnesses.
            assert(shows(show, self.polynome.a, a));
            assert(shows(show, self.polynome.b, b));
            assert(shows(show, self.polynome.c, c));
            assert(shows(show, self.delta.0, delta));
            assert(shows(show, self.x1, x1));
            assert(shows(show, self.x2, x2));
            assert(text@ == report_text(a@, b@, c@, delta@, x1@, x2@));
        }
        text
    }
}

} // verus!
