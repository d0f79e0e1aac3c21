//! The single reportable error of the library: a human-readable message with
//! the chain of underlying causes, outermost first. Transport, signing and
//! decode failures are all surfaced through this type.

use vstd::prelude::*;
use crate::text::push_str;

verus! {

#[derive(Debug, Clone)]
pub struct ElasticSearchError {
    pub message: String,
    pub causes: Vec<String>,
}

/// The separator written before each cause in a report.
pub open spec fn caused_by_prefix() -> Seq<char> {
    "\n\nCaused by: "@
}

/// The full report of a message and its causes: the message, then each cause
/// after a "Caused by" separator.
pub open spec fn report_of(message: Seq<char>, causes: Seq<Seq<char>>) -> Seq<char>
    decreases causes.len(),
{
    if causes.len() == 0 {
        message
    } else {
        report_of(message, causes.drop_last()) + caused_by_prefix() + causes.last()
    }
}

impl ElasticSearchError {
    /// The causes, each as a sequence of characters.
    pub open spec fn spec_causes(&self) -> Seq<Seq<char>> {
        Seq::new(self.causes@.len(), |i: int| self.causes@[i]@)
    }

    pub fn new(err: String) -> (r: Self)
        ensures
            r.message@ == err@,
            r.spec_causes() =~= Seq::<Seq<char>>::empty(),
    {
        ElasticSearchError { message: err, causes: Vec::new() }
    }

    /// An error whose message is `err` and whose sole cause is `cause`.
    pub fn with_cause(err: String, cause: String) -> (r: Self)
        ensures
            r.message@ == err@,
            r.spec_causes() =~= seq![cause@],
    {
        let mut causes: Vec<String> = Vec::new();
        causes.push(cause);
        ElasticSearchError { message: err, causes }
    }

    /// Appends one more underlying cause to the chain.
    pub fn push_cause(&mut self, cause: String)
        ensures
            final(self).message@ == old(self).message@,
            final(self).spec_causes() =~= old(self).spec_causes().push(cause@),
    {
        self.causes.push(cause);
    }

    /// The error and every cause below it, joined into one readable report.
    pub fn report(&self) -> (r: String)
        ensures
            r@ == report_of(self.message@, self.spec_causes()),
    {
        let mut s = self.message.clone();
        let mut i: usize = 0;
        while i < self.causes.len()
            invariant
                i <= self.causes.len(),
                s@ == report_of(self.message@, self.spec_causes().take(i as int)),
            decreases self.causes.len() - i,
        {
            push_str(&mut s, "\n\nCaused by: ");
            push_str(&mut s, self.causes[i].as_str());
            proof {
                assert(self.spec_causes().take(i + 1).drop_last() =~= self.spec_causes().take(
                    i as int,
                ));
                assert(self.spec_causes().take(i + 1).last() == self.causes@[i as int]@);
            }
            i = i + 1;
        }
        proof {
            assert(self.spec_causes().take(self.causes@.len() as int) =~= self.spec_causes());
        }
        s
    }
}

} // verus!
