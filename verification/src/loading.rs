//! A terminal progress indicator, modeled as a pure state machine: cyclic
//! animation frames, a refresh interval, and the signals handed to whatever
//! drives the terminal. Writing to the terminal is the caller's work; every
//! decision about what to show is made here.

use vstd::prelude::*;

verus! {

/// The cyclic animation frames and the position of the next one.
#[derive(Clone, Debug)]
pub struct Frames {
    pub index: usize,
    pub frames: Vec<&'static str>,
}

impl Frames {
    /// A cycle over the given frames, starting at the first.
    pub fn new(frames: Vec<&'static str>) -> (r: Self)
        ensures
            r.index == 0,
            r.frames@ == frames@,
    {
        Frames { index: 0, frames }
    }

    /// The next frame of the cycle: frames are handed out in order and wrap
    /// around at the end.
    pub fn next(&mut self) -> (r: &'static str)
        requires
            old(self).frames@.len() > 0,
        ensures
            final(self).frames@ == old(self).frames@,
            if old(self).index < old(self).frames@.len() {
                r == old(self).frames@[old(self).index as int] && final(self).index == old(
                    self,
                ).index + 1
            } else {
                r == old(self).frames@[0] && final(self).index == 1
            },
    {
        if self.index < self.frames.len() {
            let s = self.frames[self.index];
            self.index = self.index + 1;
            s
        } else {
            self.index = 1;
            self.frames[0]
        }
    }
}

/// How a finished line ended.
#[derive(Debug)]
pub enum Status {
    Success,
    Fail,
    Warn,
    Info,
}

impl Status {
    /// The mark written in front of a finished line.
    pub open spec fn mark_spec(&self) -> Seq<char> {
        match self {
            Status::Success => "\x1B[32m\u{2714}\x1B[0m"@,
            Status::Fail => "\x1B[31m\u{2716}\x1B[0m"@,
            Status::Warn => "\x1B[33m\u{26a0}\x1B[0m"@,
            Status::Info => "\x1B[34m\u{2139}\x1B[0m"@,
        }
    }

    /// The mark written in front of a finished line.
    pub fn as_str(&self) -> (r: &'static str)
        ensures
            r@ == self.mark_spec(),
    {
        match self {
            Status::Success => "\x1B[32m\u{2714}\x1B[0m",
            Status::Fail => "\x1B[31m\u{2716}\x1B[0m",
            Status::Warn => "\x1B[33m\u{26a0}\x1B[0m",
            Status::Info => "\x1B[34m\u{2139}\x1B[0m",
        }
    }
}

/// One instruction to the terminal driver.
#[derive(Debug)]
pub enum Signal {
    /// Redraw the spinner with this frame.
    Frame(&'static str),
    /// Replace the text shown beside the spinner.
    Text(String),
    /// Finish the current line with a status mark and continue below it.
    Next(Status, String),
    /// Stop drawing.
    Exit,
}

/// The progress indicator's state: whether it runs, its frames, and its
/// refresh interval in milliseconds.
#[derive(Clone, Debug)]
pub struct Loading {
    pub started: bool,
    pub frames: Frames,
    pub interval_ms: u64,
}

impl Default for Loading {
    /// The same state `new` yields.
    fn default() -> (r: Self)
        ensures
            !r.started,
            r.interval_ms == 80,
            r.frames.index == 0,
            r.frames.frames@.len() == 10,
    {
        Loading::new()
    }
}

impl Loading {
    /// A fresh indicator: not started, the default spinner frames, an 80 ms
    /// refresh interval.
    pub fn new() -> (r: Self)
        ensures
            !r.started,
            r.interval_ms == 80,
            r.frames.index == 0,
            r.frames.frames@.len() == 10,
    {
        let mut frames: Vec<&'static str> = Vec::new();
        frames.push("\u{280b}");
        frames.push("\u{2819}");
        frames.push("\u{2839}");
        frames.push("\u{2838}");
        frames.push("\u{283c}");
        frames.push("\u{2834}");
        frames.push("\u{2826}");
        frames.push("\u{2827}");
        frames.push("\u{2807}");
        frames.push("\u{280f}");
        Loading { started: false, frames: Frames::new(frames), interval_ms: 80 }
    }

    /// The indicator with another frame style.
    pub fn frame(self, frames: Vec<&'static str>) -> (r: Self)
        ensures
            r.started == self.started,
            r.interval_ms == self.interval_ms,
            r.frames.index == 0,
            r.frames.frames@ == frames@,
    {
        Loading { frames: Frames::new(frames), ..self }
    }

    /// The indicator with another refresh interval, in milliseconds.
    pub fn interval(self, interval_ms: u64) -> (r: Self)
        ensures
            r.started == self.started,
            r.interval_ms == interval_ms,
            r.frames == self.frames,
    {
        Loading { interval_ms, ..self }
    }

    /// Start the indicator. It can be started only once.
    pub fn start(&mut self)
        requires
            !old(self).started,
        ensures
            final(self).started,
            final(self).frames == old(self).frames,
            final(self).interval_ms == old(self).interval_ms,
    {
        self.started = true;
    }

    /// The signal that stops the terminal driver.
    pub fn end(&self) -> (s: Signal)
        requires
            self.started,
        ensures
            s is Exit,
    {
        Signal::Exit
    }

    /// The signal that replaces the text beside the spinner.
    pub fn text(&self, text: String) -> (s: Signal)
        requires
            self.started,
        ensures
            s == Signal::Text(text),
    {
        Signal::Text(text)
    }

    /// The signal that finishes the current line as a success.
    pub fn success(&self, text: String) -> (s: Signal)
        requires
            self.started,
        ensures
            s == Signal::Next(Status::Success, text),
    {
        Signal::Next(Status::Success, text)
    }

    /// The signal that finishes the current line as a failure.
    pub fn fail(&self, text: String) -> (s: Signal)
        requires
            self.started,
        ensures
            s == Signal::Next(Status::Fail, text),
    {
        Signal::Next(Status::Fail, text)
    }

    /// The signal that finishes the current line as a warning.
    pub fn warn(&self, text: String) -> (s: Signal)
        requires
            self.started,
        ensures
            s == Signal::Next(Status::Warn, text),
    {
        Signal::Next(Status::Warn, text)
    }

    /// The signal that finishes the current line as information.
    pub fn info(&self, text: String) -> (s: Signal)
        requires
            self.started,
        ensures
            s == Signal::Next(Status::Info, text),
    {
        Signal::Next(Status::Info, text)
    }
}

} // verus!
