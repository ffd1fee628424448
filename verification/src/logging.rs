//! The latest errors that were logged.
use vstd::prelude::*;
use vstd::string::*;

use crate::text::{concat4, str_eq, texts};

verus! {

/// How many errors are kept.
pub const MAX_ERRORS: usize = 100;

/// The latest errors, oldest first.
#[derive(Debug)]
pub struct ErrorBuffer {
    pub errors: Vec<String>,
}

/// An error as it is kept.
pub open spec fn entry(timestamp: Seq<char>, message: Seq<char>) -> Seq<char> {
    "["@ + timestamp + "] "@ + message
}

/// The latest errors after one more: where there are too many, the oldest goes.
pub open spec fn recorded(errors: Seq<Seq<char>>, next: Seq<char>) -> Seq<Seq<char>> {
    if errors.len() >= MAX_ERRORS {
        errors.drop_first().push(next)
    } else {
        errors.push(next)
    }
}

/// The latest errors after many more.
pub open spec fn recorded_all(errors: Seq<Seq<char>>, more: Seq<Seq<char>>) -> Seq<Seq<char>>
    decreases more.len(),
{
    if more.len() == 0 {
        errors
    } else {
        recorded(recorded_all(errors, more.drop_last()), more.last())
    }
}

/// The last errors of all that were logged.
pub open spec fn latest(all: Seq<Seq<char>>) -> Seq<Seq<char>> {
    if all.len() <= MAX_ERRORS {
        all
    } else {
        all.subrange(all.len() - MAX_ERRORS, all.len() as int)
    }
}

/// What is kept of all errors that were logged are the latest, in their order.
pub proof fn latest_errors_are_kept(all: Seq<Seq<char>>)
    ensures
        recorded_all(Seq::empty(), all) == latest(all),
    decreases all.len(),
{
    if all.len() > 0 {
        let before = all.drop_last();
        latest_errors_are_kept(before);
        let kept = latest(before);
        if kept.len() >= MAX_ERRORS {
            assert(kept.drop_first().push(all.last()) =~= latest(all));
        } else {
            assert(kept.push(all.last()) =~= latest(all));
        }
    } else {
        assert(all =~= Seq::empty());
    }
}

/// `chrono::Utc::now` in the form `%Y-%m-%d %H:%M:%S%.3f`. What it says depends on
/// when it is asked, so nothing is claimed of it.
#[verifier::external_body]
fn now_with_millis() -> (r: String) {
    chrono::Utc::now().format("%Y-%m-%d %H:%M:%S%.3f").to_string()
}

impl ErrorBuffer {
    /// No more errors are kept than there may be.
    pub open spec fn well_formed(self) -> bool {
        self.errors@.len() <= MAX_ERRORS
    }

    pub fn new() -> (r: Self)
        ensures
            r.well_formed(),
            texts(r.errors@) == Seq::<Seq<char>>::empty(),
    {
        let r = ErrorBuffer { errors: Vec::new() };
        assert(texts(r.errors@) =~= Seq::<Seq<char>>::empty());
        r
    }

    /// Keeps an error that was logged at a moment.
    pub fn record(&mut self, timestamp: &str, message: &str)
        requires
            old(self).well_formed(),
        ensures
            final(self).well_formed(),
            texts(final(self).errors@) == recorded(
                texts(old(self).errors@),
                entry(timestamp@, message@),
            ),
    {
        let ghost before = texts(self.errors@);
        let next = concat4("[", timestamp, "] ", message);
        if self.errors.len() >= MAX_ERRORS {
            let _ = self.errors.remove(0);
        }
        self.errors.push(next);
        assert(texts(self.errors@) =~= recorded(before, next@));
    }

    /// Keeps an error that is logged at this moment.
    pub fn record_now(&mut self, message: &str)
        requires
            old(self).well_formed(),
        ensures
            final(self).well_formed(),
            exists|timestamp: Seq<char>|
                texts(final(self).errors@) == recorded(
                    texts(old(self).errors@),
                    #[trigger] entry(timestamp, message@),
                ),
    {
        let timestamp = now_with_millis();
        self.record(timestamp.as_str(), message);
    }

    /// Takes in an event: one that is an error with a message is kept.
    pub fn on_event(&mut self, is_error: bool, visitor: &ErrorVisitor)
        requires
            old(self).well_formed(),
        ensures
            final(self).well_formed(),
            match visitor.message {
                Some(message) => if is_error {
                    exists|timestamp: Seq<char>|
                        texts(final(self).errors@) == recorded(
                            texts(old(self).errors@),
                            #[trigger] entry(timestamp, message@),
                        )
                } else {
                    final(self).errors == old(self).errors
                },
                None => final(self).errors == old(self).errors,
            },
    {
        if is_error {
            if let Some(message) = &visitor.message {
                self.record_now(message.as_str());
            }
        }
    }

    /// The errors that are kept, oldest first.
    pub fn get_error_buffer(&self) -> (r: Vec<String>)
        ensures
            texts(r@) == texts(self.errors@),
    {
        let mut out: Vec<String> = Vec::new();
        let mut i: usize = 0;
        while i < self.errors.len()
            invariant
                i <= self.errors@.len(),
                out@.len() == i,
                forall|j: int| 0 <= j < i ==> (#[trigger] out@[j])@ == self.errors@[j]@,
            decreases self.errors@.len() - i,
        {
            out.push(self.errors[i].clone());
            i = i + 1;
        }
        assert(texts(out@) =~= texts(self.errors@));
        out
    }

    /// Forgets all errors.
    pub fn clear_error_buffer(&mut self)
        ensures
            final(self).well_formed(),
            texts(final(self).errors@) == Seq::<Seq<char>>::empty(),
    {
        self.errors.clear();
        assert(texts(self.errors@) =~= Seq::<Seq<char>>::empty());
    }
}

/// Finds the message of an event among its fields.
#[derive(Debug)]
pub struct ErrorVisitor {
    pub message: Option<String>,
}

impl ErrorVisitor {
    pub fn new() -> (r: Self)
        ensures
            r.message is None,
    {
        ErrorVisitor { message: None }
    }

    /// Takes in a field.
    pub fn record(&mut self, field: &str, value: String)
        ensures
            final(self).message == (if field@ == "message"@ {
                Some(value)
            } else {
                old(self).message
            }),
    {
        if str_eq(field, "message") {
            self.message = Some(value);
        }
    }
}

/// A hundred errors are kept, each with when it was logged; one more goes to the end, and
/// the oldest makes room for it.
pub proof fn new_errors_come_last(
    errors: Seq<Seq<char>>,
    next: Seq<char>,
    timestamp: Seq<char>,
    message: Seq<char>,
)
    ensures
        errors.len() < 100 ==> recorded(errors, next) == errors.push(next),
        errors.len() >= 100 ==> recorded(errors, next) == errors.subrange(
            1,
            errors.len() as int,
        ).push(next),
        recorded(errors, next).last() == next,
        entry(timestamp, message) == "["@ + timestamp + "] "@ + message,
{
    if errors.len() >= 100 {
        assert(errors.drop_first() =~= errors.subrange(1, errors.len() as int));
    }
}

} // verus!
