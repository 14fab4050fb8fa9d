use vstd::prelude::*;

verus! {

/// The number of samples handed to a recognizer in one streaming call.
pub const FEED_CHUNK: usize = 1024;

/// Where the chunk of a channel buffer of `total` samples that starts at
/// `start` ends.
pub fn chunk_end(start: usize, total: usize) -> (r: usize)
    requires
        start < total,
    ensures
        r == if total - start <= FEED_CHUNK {
            total
        } else {
            (start + FEED_CHUNK) as usize
        },
        start < r <= total,
{
    if total - start <= FEED_CHUNK {
        total
    } else {
        start + FEED_CHUNK
    }
}

/// What the driver asks the recognizer for after it accepted a chunk.
#[derive(Debug, Clone, Copy, PartialEq, Eq, Structural)]
pub enum Query {
    /// The utterance is complete: fetch the completed result.
    Result,
    /// Decoding goes on: fetch the partial result.
    Partial,
}

/// The state of one channel's recognition session, as the contracts see it.
pub struct SessionModel {
    pub last_partial: Seq<char>,
    pub last_completed: bool,
    pub completed_text: Seq<char>,
    pub finalized: bool,
}

/// The bookkeeping of one channel's recognition session. The recognizer
/// itself lives with the driver, which reports to the session what it
/// returned and does what the session answers.
pub struct RecognitionSession {
    /// The partial text last seen in the current utterance.
    pub last_partial: String,
    /// The completion flag of the chunk accepted last.
    pub last_completed: bool,
    /// The text of the utterance completed last.
    pub completed_text: String,
    /// Whether the final line was produced.
    pub finalized: bool,
}

impl View for RecognitionSession {
    type V = SessionModel;

    open spec fn view(&self) -> SessionModel {
        SessionModel {
            last_partial: self.last_partial@,
            last_completed: self.last_completed,
            completed_text: self.completed_text@,
            finalized: self.finalized,
        }
    }
}

/// A session into which nothing was fed.
pub open spec fn fresh_session() -> SessionModel {
    SessionModel {
        last_partial: Seq::empty(),
        last_completed: false,
        completed_text: Seq::empty(),
        finalized: false,
    }
}

pub open spec fn query_after(completed: bool) -> Query {
    if completed {
        Query::Result
    } else {
        Query::Partial
    }
}

pub open spec fn after_accept(m: SessionModel, completed: bool) -> SessionModel {
    SessionModel { last_completed: completed, ..m }
}

/// A partial text is handled downstream only when it differs from the one
/// seen last.
pub open spec fn partial_is_new(m: SessionModel, text: Seq<char>) -> bool {
    text != m.last_partial
}

pub open spec fn after_partial(m: SessionModel, text: Seq<char>) -> SessionModel {
    SessionModel { last_partial: text, ..m }
}

/// A completed utterance is kept, and the next one starts with no partial text.
pub open spec fn after_result(m: SessionModel, text: Seq<char>) -> SessionModel {
    SessionModel { completed_text: text, last_partial: Seq::empty(), ..m }
}

/// The one line written for a channel at the end of its stream: the
/// completed text if the last chunk completed an utterance, else the text of
/// the forced final flush.
pub open spec fn final_line(m: SessionModel, final_text: Seq<char>) -> Seq<char> {
    if m.last_completed {
        m.completed_text
    } else {
        final_text
    }
}

pub open spec fn after_finish(m: SessionModel) -> SessionModel {
    SessionModel { finalized: true, ..m }
}

impl RecognitionSession {
    pub fn new() -> (r: Self)
        ensures
            r@ == fresh_session(),
    {
        RecognitionSession {
            last_partial: String::new(),
            last_completed: false,
            completed_text: String::new(),
            finalized: false,
        }
    }

    /// Records the completion flag that the recognizer gave for a chunk and
    /// says which result to fetch next.
    pub fn accept(&mut self, completed: bool) -> (r: Query)
        requires
            !old(self).finalized,
        ensures
            r == query_after(completed),
            final(self)@ == after_accept(old(self)@, completed),
    {
        self.last_completed = completed;
        if completed {
            Query::Result
        } else {
            Query::Partial
        }
    }

    /// Records a partial text; returns whether it is new and so has to be
    /// handled downstream.
    pub fn partial(&mut self, text: String) -> (r: bool)
        requires
            !old(self).finalized,
        ensures
            r == partial_is_new(old(self)@, text@),
            final(self)@ == after_partial(old(self)@, text@),
    {
        let is_new = !(text == self.last_partial);
        self.last_partial = text;
        is_new
    }

    /// Records the text of a completed utterance.
    pub fn result(&mut self, text: String)
        requires
            !old(self).finalized,
        ensures
            final(self)@ == after_result(old(self)@, text@),
    {
        self.completed_text = text;
        self.last_partial = String::new();
    }

    /// Ends the session with the text of the recognizer's forced final flush
    /// and returns the line to write for the channel. A session ends once.
    pub fn finish(&mut self, final_text: String) -> (r: String)
        requires
            !old(self).finalized,
        ensures
            r@ == final_line(old(self)@, final_text@),
            final(self)@ == after_finish(old(self)@),
    {
        self.finalized = true;
        if self.last_completed {
            self.completed_text.clone()
        } else {
            final_text
        }
    }
}

/// Reporting the same partial text twice in a row hands it downstream at
/// most once: the second report is never new.
pub proof fn lemma_partial_dedup(m: SessionModel, text: Seq<char>)
    ensures
        !partial_is_new(after_partial(m, text), text),
{
}

/// A session into which no sample was fed still ends with exactly one line,
/// the text of the forced final flush, and cannot be ended again.
pub proof fn lemma_flush_without_samples(final_text: Seq<char>)
    ensures
        final_line(fresh_session(), final_text) == final_text,
        after_finish(fresh_session()).finalized,
{
}

} // verus!
