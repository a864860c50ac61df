//! The append-only text destination an emission writes into.

use vstd::prelude::*;

use crate::error::CoronaError;

verus! {

/// An append-only text destination.
///
/// A sink either accepts a fragment whole, appending it to its content, or
/// rejects the write with [`CoronaError::Io`] and keeps its content unchanged.
/// Implementors decide when writes fail; callers of the serializer supply the
/// sink, much as they would hand any writer to an ordinary serializer.
pub trait Sink {
    /// The text accepted so far.
    spec fn content(&self) -> Seq<char>;

    /// Whether this sink never rejects a write.  A sink for which this holds
    /// (an in-memory buffer, say) makes a whole emission infallible.
    spec fn infallible(&self) -> bool;

    /// Appends one fragment, or rejects it leaving the content unchanged.
    fn write_str(&mut self, s: &str) -> (r: Result<(), CoronaError>)
        ensures
            r is Ok ==> final(self).content() == old(self).content() + s@,
            r is Err ==> final(self).content() == old(self).content(),
            r is Err ==> (r matches Err(CoronaError::Io(_))),
            final(self).infallible() == old(self).infallible(),
            old(self).infallible() ==> r is Ok,
    ;
}

/// A sink that accumulates everything in memory.
pub struct StringSink {
    buf: String,
}

impl StringSink {
    /// An empty in-memory sink.
    pub fn new() -> (s: StringSink)
        ensures
            s.content() == Seq::<char>::empty(),
            s.infallible(),
    {
        StringSink { buf: String::new() }
    }

    /// Hands the accumulated text out, consuming the sink.
    pub fn into_string(self) -> (s: String)
        ensures
            s@ == self.content(),
    {
        self.buf
    }
}

impl Sink for StringSink {
    closed spec fn content(&self) -> Seq<char> {
        self.buf@
    }

    closed spec fn infallible(&self) -> bool {
        true
    }

    fn write_str(&mut self, s: &str) -> (r: Result<(), CoronaError>) {
        self.buf.append(s);
        Ok(())
    }
}

/// A sink with a write budget: it accepts a fixed number of fragments and
/// rejects every write after that, leaving its content unchanged.  It serves
/// to exercise a serializer's failure handling.
pub struct LimitedSink {
    buf: String,
    budget: usize,
}

impl LimitedSink {
    /// A sink that will accept `budget` writes and then fail.
    pub fn new(budget: usize) -> (s: LimitedSink)
        ensures
            s.content() == Seq::<char>::empty(),
            s.writes_left() == budget,
            !s.infallible(),
    {
        LimitedSink { buf: String::new(), budget }
    }

    /// How many more writes the sink will accept.
    pub closed spec fn writes_left(&self) -> nat {
        self.budget as nat
    }

    /// Hands the text accepted before the budget ran out, consuming the sink.
    pub fn into_string(self) -> (s: String)
        ensures
            s@ == self.content(),
    {
        self.buf
    }
}

impl Sink for LimitedSink {
    closed spec fn content(&self) -> Seq<char> {
        self.buf@
    }

    closed spec fn infallible(&self) -> bool {
        false
    }

    fn write_str(&mut self, s: &str) -> (r: Result<(), CoronaError>)
        ensures
            r is Ok <==> old(self).writes_left() > 0,
            final(self).writes_left() == if old(self).writes_left() > 0 {
                (old(self).writes_left() - 1) as nat
            } else {
                0nat
            },
    {
        if self.budget == 0 {
            Err(CoronaError::Io(String::from_str("write rejected: sink budget exhausted")))
        } else {
            self.budget = self.budget - 1;
            self.buf.append(s);
            Ok(())
        }
    }
}

} // verus!
