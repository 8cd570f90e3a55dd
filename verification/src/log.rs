//! Diagnostic log lines: categories, rate limiting and the text of a line.
//!
//! The core writes nothing by itself. It builds the lines and decides whether
//! a call site may still speak; the host prints what it is handed.

use vstd::prelude::*;

verus! {

/// Part of the machine a line is about.
#[derive(Debug, Clone, Copy, PartialEq, Eq, Structural)]
pub enum LogCategory {
    Camera,
    Memory,
    Cpu,
    Ppu,
    General,
}

impl LogCategory {
    /// The tag that starts a line of this category.
    pub open spec fn prefix_spec(self) -> Seq<char> {
        match self {
            LogCategory::Camera => "[Camera]"@,
            LogCategory::Memory => "[Memory]"@,
            LogCategory::Cpu => "[CPU]"@,
            LogCategory::Ppu => "[PPU]"@,
            LogCategory::General => "[EMU]"@,
        }
    }

    /// The tag that starts a line of this category.
    pub fn prefix(self) -> (r: &'static str)
        ensures
            r@ == self.prefix_spec(),
    {
        match self {
            LogCategory::Camera => "[Camera]",
            LogCategory::Memory => "[Memory]",
            LogCategory::Cpu => "[CPU]",
            LogCategory::Ppu => "[PPU]",
            LogCategory::General => "[EMU]",
        }
    }
}

/// Counts how often a call site was reached and lets the first `limit` speak.
pub struct RateLimiter {
    pub counter: u32,
    pub limit: u32,
}

/// The counter after one more call, wrapping at 32 bits.
pub open spec fn counted(n: u32) -> u32 {
    if n == u32::MAX {
        0
    } else {
        (n + 1) as u32
    }
}

/// Whether `count` is a multiple of `interval`; only 0 is a multiple of 0.
pub open spec fn multiple_of(count: u32, interval: u32) -> bool {
    if interval == 0 {
        count == 0
    } else {
        count % interval == 0
    }
}

impl RateLimiter {
    /// A limiter that lets `limit` calls speak.
    pub fn new(limit: u32) -> (r: RateLimiter)
        ensures
            r.counter == 0,
            r.limit == limit,
    {
        RateLimiter { counter: 0, limit }
    }

    /// Counts the call; true while fewer than `limit` calls came before it.
    pub fn should_log(&mut self) -> (r: bool)
        ensures
            r == (old(self).counter < old(self).limit),
            final(self).counter == counted(old(self).counter),
            final(self).limit == old(self).limit,
    {
        let count = self.counter;
        self.counter = self.counter.wrapping_add(1);
        count < self.limit
    }

    /// Counts the call; true for the first `limit` calls and then for every
    /// call whose number is a multiple of `interval`.
    pub fn should_log_interval(&mut self, interval: u32) -> (r: bool)
        ensures
            r == (old(self).counter < old(self).limit || multiple_of(old(self).counter, interval)),
            final(self).counter == counted(old(self).counter),
            final(self).limit == old(self).limit,
    {
        let count = self.counter;
        self.counter = self.counter.wrapping_add(1);
        count < self.limit || (if interval == 0 {
            count == 0
        } else {
            count % interval == 0
        })
    }

    /// Calls counted so far.
    pub fn count(&self) -> (r: u32)
        ensures
            r == self.counter,
    {
        self.counter
    }
}

/// Appends text with `String::push_str`: the string afterwards is the string
/// before followed by the text.
#[verifier::external_body]
fn push_text(line: &mut String, text: &str)
    ensures
        final(line)@ == old(line)@ + text@,
{
    line.push_str(text);
}

/// Text of a line: the category's tag, a space, the message.
pub open spec fn line_text(category: LogCategory, msg: Seq<char>) -> Seq<char> {
    category.prefix_spec() + " "@ + msg
}

/// Builds log lines for the host to print.
pub struct Logger;

impl Logger {
    fn line(category: LogCategory, msg: &str) -> (r: String)
        ensures
            r@ == line_text(category, msg@),
    {
        let mut out = String::new();
        push_text(&mut out, category.prefix());
        push_text(&mut out, " ");
        push_text(&mut out, msg);
        assert(out@ =~= line_text(category, msg@));
        out
    }

    /// The line of an informational message.
    pub fn info(category: LogCategory, msg: &str) -> (r: String)
        ensures
            r@ == line_text(category, msg@),
    {
        Logger::line(category, msg)
    }

    /// The line of a warning.
    pub fn warn(category: LogCategory, msg: &str) -> (r: String)
        ensures
            r@ == line_text(category, msg@),
    {
        Logger::line(category, msg)
    }

    /// The line of an error message.
    pub fn error(category: LogCategory, msg: &str) -> (r: String)
        ensures
            r@ == line_text(category, msg@),
    {
        Logger::line(category, msg)
    }

    /// The line of a message from a rate-limited call site, while the
    /// limiter lets it speak.
    pub fn info_limited(category: LogCategory, limiter: &mut RateLimiter, msg: &str) -> (r: Option<
        String,
    >)
        ensures
            r.is_some() == (old(limiter).counter < old(limiter).limit),
            r.is_some() ==> r.unwrap()@ == line_text(category, msg@),
            final(limiter).counter == counted(old(limiter).counter),
            final(limiter).limit == old(limiter).limit,
    {
        if limiter.should_log() {
            Some(Logger::line(category, msg))
        } else {
            None
        }
    }

    /// The line of a message from a call site that speaks `limit` times and
    /// then at every `interval`-th call.
    pub fn info_interval(
        category: LogCategory,
        limiter: &mut RateLimiter,
        interval: u32,
        msg: &str,
    ) -> (r: Option<String>)
        ensures
            r.is_some() == (old(limiter).counter < old(limiter).limit || multiple_of(
                old(limiter).counter,
                interval,
            )),
            r.is_some() ==> r.unwrap()@ == line_text(category, msg@),
            final(limiter).counter == counted(old(limiter).counter),
            final(limiter).limit == old(limiter).limit,
    {
        if limiter.should_log_interval(interval) {
            Some(Logger::line(category, msg))
        } else {
            None
        }
    }
}

} // verus!
