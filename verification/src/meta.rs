//! One line of device metadata: a category, its value, and an
//! optional detail shown in parentheses.

use vstd::prelude::*;

verus! {

broadcast use vstd::seq::group_seq_axioms;

/// One category/value pair of device information.
#[derive(Debug)]
pub struct Information {
    category: String,
    data: String,
    details: Option<String>,
}

/// The mathematical shape of an [`Information`].
pub struct InformationView {
    pub category: Seq<char>,
    pub data: Seq<char>,
    pub details: Option<Seq<char>>,
}

impl View for Information {
    type V = InformationView;

    closed spec fn view(&self) -> InformationView {
        InformationView {
            category: self.category@,
            data: self.data@,
            details: match &self.details {
                None => None,
                Some(d) => Some(d@),
            },
        }
    }
}

impl Information {
    pub fn new(category: String, data: String, details: Option<String>) -> (r: Self)
        ensures
            r@.category == category@,
            r@.data == data@,
            r@.details == (match details {
                None => None::<Seq<char>>,
                Some(e) => Some(e@),
            }),
    {
        Self { category, data, details }
    }

    /// The rendered line: `category: data`, with the detail appended
    /// in parentheses when there is one.
    pub fn message(&self) -> (r: String)
        ensures
            self@.details is None ==> r@ == self@.category + ": "@ + self@.data,
            (self@.details matches Some(d) ==> r@ == self@.category + ": "@ + self@.data + " ("@
                + d + ")"@),
    {
        let mut out = self.category.clone();
        out.append(": ");
        out.append(self.data.as_str());
        match &self.details {
            None => out,
            Some(d) => {
                out.append(" (");
                out.append(d.as_str());
                out.append(")");
                out
            },
        }
    }
}

} // verus!
