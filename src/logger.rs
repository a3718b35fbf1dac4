//! A request trace kept in memory as text.
use vstd::prelude::*;
use vstd::utf8::encode_utf8;

verus! {

/// How serious a trace line is.
#[derive(Clone, Copy, Debug, PartialEq, Eq, Structural)]
pub enum Level {
    Info,
    Error,
}

/// The tag a level is written with.
pub open spec fn level_name(l: Level) -> Seq<char> {
    match l {
        Level::Info => "INFO"@,
        Level::Error => "ERROR"@,
    }
}

/// One trace line: `[<timestamp> <LEVEL>] <message>` and a line break.
pub open spec fn trace_line(timestamp: Seq<char>, level: Level, message: Seq<char>) -> Seq<char> {
    "["@ + timestamp + " "@ + level_name(level) + "] "@ + message + "\n"@
}

impl Level {
    /// The tag this level is written with.
    pub fn name(&self) -> (r: &'static str)
        ensures
            r@ == level_name(*self),
    {
        match self {
            Level::Info => "INFO",
            Level::Error => "ERROR",
        }
    }
}

/// The trace of one request.
pub struct Tracefile {
    data: String,
}

impl View for Tracefile {
    type V = Seq<char>;

    closed spec fn view(&self) -> Seq<char> {
        self.data@
    }
}

impl Tracefile {
    /// An empty trace.
    pub fn new() -> (r: Tracefile)
        ensures
            r@.len() == 0,
    {
        Tracefile { data: String::new() }
    }

    /// Appends one line; `timestamp` is the local time the caller formatted.
    pub fn log(&mut self, level: Level, timestamp: &str, message: &str)
        ensures
            final(self)@ == old(self)@ + trace_line(timestamp@, level, message@),
    {
        self.data.append("[");
        self.data.append(timestamp);
        self.data.append(" ");
        self.data.append(level.name());
        self.data.append("] ");
        self.data.append(message);
        self.data.append("\n");
        assert(self.data@ =~= old(self).data@ + trace_line(timestamp@, level, message@));
    }

    /// Appends an informational line.
    pub fn info(&mut self, timestamp: &str, message: &str)
        ensures
            final(self)@ == old(self)@ + trace_line(timestamp@, Level::Info, message@),
    {
        self.log(Level::Info, timestamp, message)
    }

    /// Appends an error line.
    pub fn error(&mut self, timestamp: &str, message: &str)
        ensures
            final(self)@ == old(self)@ + trace_line(timestamp@, Level::Error, message@),
    {
        self.log(Level::Error, timestamp, message)
    }

    /// The trace as UTF-8 bytes, or `None` while nothing was logged.
    pub fn bytes(&self) -> (r: Option<Vec<u8>>)
        ensures
            self@.len() == 0 <==> r is None,
            r matches Some(b) ==> b@ == encode_utf8(self@),
    {
        if self.data.as_str().unicode_len() == 0 {
            None
        } else {
            Some(self.data.as_str().as_bytes_vec())
        }
    }
}

} // verus!
