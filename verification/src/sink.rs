//! The places log lines go to, and the optional log file among them: where
//! it lies, and the one-time decision to open it. The streams and the file
//! are opened and written by the caller.

use vstd::prelude::*;

verus! {

/// A place that log lines are written to.
#[derive(Clone, Copy, Debug, PartialEq, Eq, Structural)]
pub enum Sink {
    Stdout,
    Stderr,
    File,
}

/// What a failed write means for the program.
#[derive(Clone, Copy, Debug, PartialEq, Eq, Structural)]
pub enum Fault {
    /// The failure is passed over in silence and logging goes on.
    Ignored,
    /// The failure cannot be recovered from: the program must stop.
    Fatal,
}

impl Sink {
    /// A console that cannot be written to must not stop the program; a
    /// log file that cannot be written to must.
    pub open spec fn fault(self) -> Fault {
        match self {
            Sink::Stdout | Sink::Stderr => Fault::Ignored,
            Sink::File => Fault::Fatal,
        }
    }

    /// What a failed write to this sink means.
    pub fn on_failure(&self) -> (fault: Fault)
        ensures
            fault == self.fault(),
    {
        match self {
            Sink::Stdout | Sink::Stderr => Fault::Ignored,
            Sink::File => Fault::Fatal,
        }
    }
}

/// Why the log file could not be set up.
#[derive(Clone, Debug)]
pub enum InitError {
    /// The user's home directory is not known.
    NoHome,
    /// The log directory could not be created; the text says why.
    CreateDir(String),
    /// The log file could not be opened; the text says why.
    OpenFile(String),
}

impl InitError {
    /// The failure in words.
    pub open spec fn message_text(self) -> Seq<char> {
        match self {
            InitError::NoHome => home_unknown(),
            InitError::CreateDir(why) => no_directory() + why@,
            InitError::OpenFile(why) => no_file() + why@,
        }
    }

    /// The failure in words, for the user to read.
    pub fn message(&self) -> (out: String)
        ensures
            out@ == self.message_text(),
    {
        match self {
            InitError::NoHome => String::from_str("cannot find the home directory"),
            InitError::CreateDir(why) => {
                let mut out = String::from_str("cannot create the log directory: ");
                out.append(why.as_str());
                out
            },
            InitError::OpenFile(why) => {
                let mut out = String::from_str("cannot open the log file: ");
                out.append(why.as_str());
                out
            },
        }
    }
}

/// What is said when the home directory is not known.
pub open spec fn home_unknown() -> Seq<char> {
    "cannot find the home directory"@
}

/// What is said, before the reason, when the log directory cannot be made.
pub open spec fn no_directory() -> Seq<char> {
    "cannot create the log directory: "@
}

/// What is said, before the reason, when the log file cannot be opened.
pub open spec fn no_file() -> Seq<char> {
    "cannot open the log file: "@
}

/// The log file's state. It leaves `Fresh` once and never returns to it.
#[derive(Clone, Debug)]
pub enum FileSink {
    /// Nobody has asked for initialisation yet.
    Fresh,
    /// The first caller has been told to open the file and has not yet
    /// reported back.
    Opening,
    /// Initialisation is over and there is no file: none was wanted, or
    /// it could not be opened.
    Closed,
    /// Initialisation is over and the file at this path takes a copy of
    /// every line.
    Open(String),
}

/// The log directory of a user: `.log` in the home directory.
pub open spec fn log_dir(home: Seq<char>) -> Seq<char> {
    home + seq!['/', '.', 'l', 'o', 'g']
}

/// The log file of a program: its name with `.log` behind it, in the
/// user's log directory.
pub open spec fn log_file(home: Seq<char>, program: Seq<char>) -> Seq<char> {
    log_dir(home) + seq!['/'] + program + seq!['.', 'l', 'o', 'g']
}

/// The directory and the file of one program's log.
#[derive(Clone, Debug)]
pub struct LogPaths {
    pub dir: String,
    pub file: String,
}

/// Where the log of `program` lies for the user whose home directory is
/// `home`.
pub fn log_paths(home: &str, program: &str) -> (paths: LogPaths)
    ensures
        paths.dir@ == log_dir(home@),
        paths.file@ == log_file(home@, program@),
{
    proof {
        reveal_strlit("/.log");
        reveal_strlit("/");
        reveal_strlit(".log");
    }
    let mut dir = String::from_str(home);
    dir.append("/.log");
    assert(dir@ == log_dir(home@));
    let mut file = dir.clone();
    file.append("/");
    file.append(program);
    file.append(".log");
    assert(file@ == log_file(home@, program@));
    LogPaths { dir, file }
}

impl FileSink {
    /// The state after a request for initialisation.
    pub open spec fn after_request(self, enable: bool) -> FileSink {
        match self {
            FileSink::Fresh => if enable {
                FileSink::Opening
            } else {
                FileSink::Closed
            },
            _ => self,
        }
    }

    /// The state after the first caller has reported how opening went.
    pub open spec fn after_report(self, outcome: Result<String, InitError>) -> FileSink {
        match self {
            FileSink::Opening => match outcome {
                Ok(path) => FileSink::Open(path),
                Err(_) => FileSink::Closed,
            },
            _ => self,
        }
    }

    /// What the caller of `settle` is told.
    pub open spec fn answer(self, outcome: Result<String, InitError>) -> Result<(), InitError> {
        match (self, outcome) {
            (FileSink::Opening, Err(e)) => Err(e),
            _ => Ok(()),
        }
    }

    /// Takes a request for initialisation. Only the first request counts:
    /// it opens the sink's one attempt when a file is wanted, and closes
    /// the sink for good when none is. The result says whether the caller
    /// must now try to open the file and report with `settle`.
    pub fn request(&mut self, enable: bool) -> (go: bool)
        ensures
            *final(self) == old(self).after_request(enable),
            go == (*old(self) is Fresh && enable),
    {
        match self {
            FileSink::Fresh => {
                if enable {
                    *self = FileSink::Opening;
                    true
                } else {
                    *self = FileSink::Closed;
                    false
                }
            },
            _ => false,
        }
    }

    /// Takes the outcome of the attempt that `request` asked for: the path
    /// of the opened file, or the reason why there is none. Where no
    /// attempt is under way, nothing changes and the answer is `Ok`.
    pub fn settle(&mut self, outcome: Result<String, InitError>) -> (answer: Result<
        (),
        InitError,
    >)
        ensures
            *final(self) == old(self).after_report(outcome),
            answer == old(self).answer(outcome),
    {
        match self {
            FileSink::Opening => match outcome {
                Ok(path) => {
                    *self = FileSink::Open(path);
                    Ok(())
                },
                Err(e) => {
                    *self = FileSink::Closed;
                    Err(e)
                },
            },
            _ => Ok(()),
        }
    }

    /// Whether lines are copied to the log file.
    pub fn is_open(&self) -> (open: bool)
        ensures
            open == (*self is Open),
    {
        match self {
            FileSink::Open(_) => true,
            _ => false,
        }
    }
}

/// Initialisation happens once. A request that finds the sink no longer
/// fresh changes nothing and asks nothing of its caller, whatever its
/// argument; the report that might follow it changes nothing either and is
/// answered with `Ok`, unless an attempt is still under way.
pub proof fn lemma_init_once(sink: FileSink, enable: bool, outcome: Result<String, InitError>)
    requires
        !(sink is Fresh),
    ensures
        sink.after_request(enable) == sink,
        !(sink is Opening) ==> sink.after_report(outcome) == sink && sink.answer(outcome) is Ok,
{
}

/// A first initialisation, taken to its end, settles the sink: it is open
/// at the reported path or closed, and every later initialisation leaves
/// it as it is.
pub proof fn lemma_first_init_settles(
    enable: bool,
    outcome: Result<String, InitError>,
    later_enable: bool,
    later_outcome: Result<String, InitError>,
)
    ensures
        ({
            let asked = FileSink::Fresh.after_request(enable);
            let done = if enable {
                asked.after_report(outcome)
            } else {
                asked
            };
            &&& (done is Open || done is Closed)
            &&& (done is Open <==> enable && outcome is Ok)
            &&& (done matches FileSink::Open(path) ==> outcome == Ok::<String, InitError>(path))
            &&& done.after_request(later_enable) == done
            &&& done.after_report(later_outcome) == done
            &&& done.answer(later_outcome) is Ok
        }),
{
}

} // verus!
