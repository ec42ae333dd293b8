use vstd::prelude::*;
use vstd::string::*;
use crate::clock::{is_stamp, now_rfc3339, rfc3339_of};
use crate::drain::DrainCycle;
use crate::level::Level;
use crate::queue::{texts, MessageQueue};

verus! {

/// The line sent for one event: `"<LEVEL> [<timestamp>] <message>\n"`.
pub open spec fn line_of(level: Level, timestamp: Seq<char>, message: Seq<char>) -> Seq<char> {
    level.name() + seq![' ', '['] + timestamp + seq![']', ' '] + message + seq!['\n']
}

/// Formats one event as the line that a writer sends.
pub fn format_line(level: Level, timestamp: &str, message: &str) -> (r: String)
    ensures
        r@ == line_of(level, timestamp@, message@),
{
    let mut line = String::from_str(level.as_str());
    proof {
        reveal_strlit(" [");
        reveal_strlit("] ");
        reveal_strlit("\n");
    }
    line.append(" [");
    line.append(timestamp);
    line.append("] ");
    line.append(message);
    line.append("\n");
    line
}

/// How a logger hands on its lines.
pub enum Writer {
    /// Each line is sent at once, on the caller's thread.
    Unbuffered,
    /// Each line is queued, and a background worker drains the queue.
    Buffered(MessageQueue),
}

/// What became of one event handed to a logger.
#[derive(Debug, PartialEq, Eq)]
pub enum Delivery {
    /// Its level is below the threshold: nothing is formatted or sent.
    Filtered,
    /// Its line was queued for the background worker.
    Queued,
    /// Its line is to be sent now.
    Send(String),
    /// The clock could not be read: nothing is formatted or sent.
    NoClock,
}

/// A log adaptor that turns events at or above a severity threshold into
/// datagram lines, sent at once or queued.
pub struct UdpLogger {
    writer: Writer,
    level: Level,
}

impl UdpLogger {
    /// The severity threshold.
    pub closed spec fn threshold(&self) -> Level {
        self.level
    }

    pub closed spec fn buffered(&self) -> bool {
        self.writer is Buffered
    }

    /// The lines waiting in the queue, oldest first; none without a queue.
    pub closed spec fn pending(&self) -> Seq<Seq<char>> {
        match self.writer {
            Writer::Buffered(q) => q@,
            Writer::Unbuffered => Seq::empty(),
        }
    }

    /// A logger that sends each line at once, with threshold `Info`.
    pub fn new() -> (r: UdpLogger)
        ensures
            r.threshold() == Level::Info,
            !r.buffered(),
            r.pending() == Seq::<Seq<char>>::empty(),
    {
        UdpLogger { writer: Writer::Unbuffered, level: Level::Info }
    }

    /// A logger that queues each line for a background worker, with
    /// threshold `Info` and an empty queue.
    pub fn new_buffered() -> (r: UdpLogger)
        ensures
            r.threshold() == Level::Info,
            r.buffered(),
            r.pending() == Seq::<Seq<char>>::empty(),
    {
        UdpLogger { writer: Writer::Buffered(MessageQueue::new()), level: Level::Info }
    }

    /// Sets the severity threshold (`Info` by default).
    pub fn set_level(&mut self, level: Level) -> (r: &mut Self)
        ensures
            r.threshold() == level,
            r.buffered() == old(self).buffered(),
            r.pending() == old(self).pending(),
            *final(self) == *final(r),
    {
        self.level = level;
        self
    }

    pub fn level(&self) -> (r: Level)
        ensures
            r == self.threshold(),
    {
        self.level
    }

    pub fn is_buffered(&self) -> (r: bool)
        ensures
            r == self.buffered(),
    {
        match self.writer {
            Writer::Buffered(_) => true,
            Writer::Unbuffered => false,
        }
    }

    /// The number of queued lines.
    pub fn pending_len(&self) -> (r: usize)
        ensures
            r == self.pending().len(),
    {
        match &self.writer {
            Writer::Buffered(q) => q.len(),
            Writer::Unbuffered => 0,
        }
    }

    /// True iff an event at `level` is at least as severe as the threshold.
    pub fn enabled(&self, level: Level) -> (r: bool)
        ensures
            r == level.passes(self.threshold()),
    {
        level.is_at_least(self.level)
    }

    /// Handles one event at `level` stamped with `timestamp`. Below the
    /// threshold nothing happens. Otherwise its line is queued by a buffered
    /// logger and returned to be sent by an unbuffered one.
    pub fn log_at(&mut self, level: Level, timestamp: &str, message: &str) -> (r: Delivery)
        ensures
            final(self).threshold() == old(self).threshold(),
            final(self).buffered() == old(self).buffered(),
            !level.passes(old(self).threshold()) ==> r == Delivery::Filtered
                && final(self).pending() == old(self).pending(),
            level.passes(old(self).threshold()) && old(self).buffered() ==> r == Delivery::Queued
                && final(self).pending() == old(self).pending().push(
                line_of(level, timestamp@, message@),
            ),
            level.passes(old(self).threshold()) && !old(self).buffered() ==> final(self).pending()
                == old(self).pending() && match r {
                Delivery::Send(line) => line@ == line_of(level, timestamp@, message@),
                _ => false,
            },
    {
        if !self.enabled(level) {
            return Delivery::Filtered;
        }
        let line = format_line(level, timestamp, message);
        match &mut self.writer {
            Writer::Buffered(q) => {
                q.enqueue(line);
                Delivery::Queued
            },
            Writer::Unbuffered => Delivery::Send(line),
        }
    }

    /// Handles one event at `level`, stamped with the current UTC time in
    /// RFC 3339 form, as `log_at` does. Where the clock cannot be read the
    /// event is dropped and `NoClock` returned.
    pub fn log(&mut self, level: Level, message: &str) -> (r: Delivery)
        ensures
            final(self).threshold() == old(self).threshold(),
            final(self).buffered() == old(self).buffered(),
            !level.passes(old(self).threshold()) ==> r == Delivery::Filtered
                && final(self).pending() == old(self).pending(),
            r == Delivery::NoClock ==> level.passes(old(self).threshold())
                && final(self).pending() == old(self).pending(),
            level.passes(old(self).threshold()) && old(self).buffered() && r != Delivery::NoClock
                ==> r == Delivery::Queued && exists|secs: i64, nanos: u32|
                nanos < 1_000_000_000 && is_stamp(rfc3339_of(secs, nanos))
                    && final(self).pending() == old(self).pending().push(
                    line_of(level, #[trigger] rfc3339_of(secs, nanos), message@),
                ),
            level.passes(old(self).threshold()) && !old(self).buffered() && r != Delivery::NoClock
                ==> final(self).pending() == old(self).pending() && r is Send && exists|
                secs: i64,
                nanos: u32,
            |
                nanos < 1_000_000_000 && is_stamp(rfc3339_of(secs, nanos)) && r->Send_0@
                    == line_of(level, #[trigger] rfc3339_of(secs, nanos), message@),
    {
        if !self.enabled(level) {
            return Delivery::Filtered;
        }
        match now_rfc3339() {
            Some(timestamp) => self.log_at(level, timestamp.as_str(), message),
            None => Delivery::NoClock,
        }
    }

    /// Takes every queued line, oldest first, into a new drain cycle and
    /// leaves the queue empty. An unbuffered logger gives an empty cycle.
    pub fn drain(&mut self) -> (r: DrainCycle)
        ensures
            r.wf(),
            r@.batch == old(self).pending(),
            r@.outcomes == Seq::<bool>::empty(),
            final(self).pending() == Seq::<Seq<char>>::empty(),
            final(self).threshold() == old(self).threshold(),
            final(self).buffered() == old(self).buffered(),
    {
        match &mut self.writer {
            Writer::Buffered(q) => {
                let batch = q.drain_all();
                DrainCycle::new(batch)
            },
            Writer::Unbuffered => {
                let batch: Vec<String> = Vec::new();
                assert(texts(batch@) =~= Seq::<Seq<char>>::empty());
                DrainCycle::new(batch)
            },
        }
    }
}

} // verus!
