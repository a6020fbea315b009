//! Severities and the rules that hang on them: order, target stream,
//! suppression, prefix class and colour.

use vstd::prelude::*;
use crate::colour::Styled;
use crate::prefixes::LogPrefixes;

verus! {

/// How urgent a message is, from most to least severe.
#[derive(Clone, Copy, Debug, PartialEq, Eq, Structural)]
pub enum Severity {
    Fatal,
    Error,
    Warn,
    Important,
    Info,
    Verbose,
    Debug,
    Trace,
}

/// Which stream the console output goes to.
#[derive(Clone, Copy, Debug, PartialEq, Eq, Structural)]
pub enum Route {
    /// Alerting severities to standard error, the rest to standard output.
    BySeverity,
    /// Everything to standard error.
    OnlyStderr,
    /// Everything to standard output.
    OnlyStdout,
}

/// The four prefixes a message can carry. Several severities share one.
#[derive(Clone, Copy, Debug, PartialEq, Eq, Structural)]
pub enum PrefixClass {
    Error,
    Warning,
    Info,
    Debug,
}

/// The colour a severity is shown in where colours are switched on.
#[derive(Clone, Copy, Debug, PartialEq, Eq, Structural)]
pub enum Tint {
    Red,
    Yellow,
    Plain,
    Dim,
}

/// The switches that decide whether a message is emitted at all.
#[derive(Clone, Copy, Debug, PartialEq, Eq, Structural)]
pub struct Filter {
    /// The least severe severity that is still emitted.
    pub minimum: Severity,
    /// Whether `Verbose` and `Trace` messages are emitted.
    pub verbose: bool,
    /// Whether `Debug` messages are emitted.
    pub debug: bool,
}

impl Filter {
    /// The filter a process starts with: no severity is cut off by its rank,
    /// and the severities that have a switch are switched off.
    pub open spec fn new_spec() -> Filter {
        Filter { minimum: Severity::Trace, verbose: false, debug: false }
    }

    /// The filter a process starts with.
    #[verifier::when_used_as_spec(new_spec)]
    pub fn new() -> (filter: Filter)
        ensures
            filter == Filter::new_spec(),
    {
        Filter { minimum: Severity::Trace, verbose: false, debug: false }
    }
}

/// The small letter of an ASCII capital; any other character as it is.
pub open spec fn lower(c: char) -> char {
    if 'A' <= c && c <= 'Z' {
        ((c as int) + 32) as char
    } else {
        c
    }
}

/// A text with its ASCII capitals made small.
pub open spec fn folded(text: Seq<char>) -> Seq<char> {
    text.map_values(|c: char| lower(c))
}

/// The small letter of an ASCII capital; any other character as it is.
fn lower_char(c: char) -> (small: char)
    ensures
        small == lower(c),
{
    if 'A' <= c && c <= 'Z' {
        ((c as u8) + 32) as char
    } else {
        c
    }
}

/// Whether a string holds exactly the text of `word`.
fn holds(text: &String, word: &str) -> (same: bool)
    ensures
        same == (text@ == word@),
{
    let other = String::from_str(word);
    *text == other
}

impl Severity {
    /// Position in the fixed order: 0 for the most severe.
    pub open spec fn rank(self) -> nat {
        match self {
            Severity::Fatal => 0,
            Severity::Error => 1,
            Severity::Warn => 2,
            Severity::Important => 3,
            Severity::Info => 4,
            Severity::Verbose => 5,
            Severity::Debug => 6,
            Severity::Trace => 7,
        }
    }

    /// Severities that report trouble.
    pub open spec fn is_alerting(self) -> bool {
        self == Severity::Fatal || self == Severity::Error || self == Severity::Warn
    }

    /// Whether the filter's switch for this severity is on. Only `Verbose`,
    /// `Debug` and `Trace` have one; the others count as switched on.
    pub open spec fn is_enabled(self, filter: Filter) -> bool {
        match self {
            Severity::Debug => filter.debug,
            Severity::Verbose | Severity::Trace => filter.verbose,
            _ => true,
        }
    }

    /// A message is suppressed when it is less severe than the minimum, or
    /// when its severity has a switch and the switch is off.
    pub open spec fn is_suppressed(self, filter: Filter) -> bool {
        self.rank() > filter.minimum.rank() || !self.is_enabled(filter)
    }

    /// Whether console output for this severity goes to standard error.
    pub open spec fn goes_to_stderr(self, route: Route) -> bool {
        match route {
            Route::OnlyStderr => true,
            Route::OnlyStdout => false,
            Route::BySeverity => self.is_alerting(),
        }
    }

    /// The prefix a severity is tagged with.
    pub open spec fn class(self) -> PrefixClass {
        match self {
            Severity::Fatal | Severity::Error => PrefixClass::Error,
            Severity::Warn => PrefixClass::Warning,
            Severity::Important | Severity::Info | Severity::Verbose => PrefixClass::Info,
            Severity::Debug | Severity::Trace => PrefixClass::Debug,
        }
    }

    /// Errors are red, warnings yellow, debugging output dim, the rest plain.
    pub open spec fn colour(self) -> Tint {
        match self.class() {
            PrefixClass::Error => Tint::Red,
            PrefixClass::Warning => Tint::Yellow,
            PrefixClass::Info => Tint::Plain,
            PrefixClass::Debug => Tint::Dim,
        }
    }

    /// The rank as a machine integer.
    pub fn level(&self) -> (r: u8)
        ensures
            r == self.rank(),
    {
        match self {
            Severity::Fatal => 0,
            Severity::Error => 1,
            Severity::Warn => 2,
            Severity::Important => 3,
            Severity::Info => 4,
            Severity::Verbose => 5,
            Severity::Debug => 6,
            Severity::Trace => 7,
        }
    }

    /// Whether console output for this severity goes to standard error
    /// rather than standard output.
    pub fn to_stderr(&self, route: Route) -> (b: bool)
        ensures
            b == self.goes_to_stderr(route),
    {
        match route {
            Route::OnlyStderr => true,
            Route::OnlyStdout => false,
            Route::BySeverity => match self {
                Severity::Fatal | Severity::Error | Severity::Warn => true,
                _ => false,
            },
        }
    }

    /// Whether a message of this severity is dropped under `filter`.
    pub fn suppressed(&self, filter: &Filter) -> (b: bool)
        ensures
            b == self.is_suppressed(*filter),
    {
        if self.level() > filter.minimum.level() {
            return true;
        }
        match self {
            Severity::Debug => !filter.debug,
            Severity::Verbose | Severity::Trace => !filter.verbose,
            _ => false,
        }
    }

    /// The prefix class of this severity.
    pub fn prefix_class(&self) -> (c: PrefixClass)
        ensures
            c == self.class(),
    {
        match self {
            Severity::Fatal | Severity::Error => PrefixClass::Error,
            Severity::Warn => PrefixClass::Warning,
            Severity::Important | Severity::Info | Severity::Verbose => PrefixClass::Info,
            Severity::Debug | Severity::Trace => PrefixClass::Debug,
        }
    }

    /// The colour of this severity.
    pub fn tint(&self) -> (t: Tint)
        ensures
            t == self.colour(),
    {
        match self {
            Severity::Fatal | Severity::Error => Tint::Red,
            Severity::Warn => Tint::Yellow,
            Severity::Important | Severity::Info | Severity::Verbose => Tint::Plain,
            Severity::Debug | Severity::Trace => Tint::Dim,
        }
    }

    /// The prefix of this severity, resolved now: the text that was set
    /// for its class, or what the generator that was set for it returns on
    /// this call.
    pub fn prefix<F: Fn() -> String>(&self, prefixes: &LogPrefixes<F>) -> (out: String)
        requires
            prefixes.wf(),
        ensures
            prefixes.slot(self.class()).yields(out),
    {
        match self.prefix_class() {
            PrefixClass::Error => prefixes.err(),
            PrefixClass::Warning => prefixes.warn(),
            PrefixClass::Info => prefixes.info(),
            PrefixClass::Debug => prefixes.debug(),
        }
    }

    /// `txt` with the colour of this severity, meant for the stream that
    /// this severity is written to.
    pub fn style(&self, txt: String, route: Route) -> (styled: Styled)
        ensures
            styled.text == txt,
            styled.tint == self.colour(),
            styled.for_stderr == self.goes_to_stderr(route),
    {
        Styled { text: txt, tint: self.tint(), for_stderr: self.to_stderr(route) }
    }

    /// The name of this severity, in small letters.
    pub open spec fn name(self) -> Seq<char> {
        match self {
            Severity::Fatal => seq!['f', 'a', 't', 'a', 'l'],
            Severity::Error => seq!['e', 'r', 'r', 'o', 'r'],
            Severity::Warn => seq!['w', 'a', 'r', 'n', 'i', 'n', 'g'],
            Severity::Important => seq!['i', 'm', 'p', 'o', 'r', 't', 'a', 'n', 't'],
            Severity::Info => seq!['i', 'n', 'f', 'o'],
            Severity::Verbose => seq!['v', 'e', 'r', 'b', 'o', 's', 'e'],
            Severity::Debug => seq!['d', 'e', 'b', 'u', 'g'],
            Severity::Trace => seq!['t', 'r', 'a', 'c', 'e'],
        }
    }

    /// The severity that `word` names, whatever the case of its letters,
    /// and `Important` where it names none.
    pub open spec fn named(word: Seq<char>) -> Severity {
        let small = folded(word);
        if small == Severity::Fatal.name() {
            Severity::Fatal
        } else if small == Severity::Error.name() {
            Severity::Error
        } else if small == Severity::Warn.name() {
            Severity::Warn
        } else if small == Severity::Info.name() {
            Severity::Info
        } else if small == Severity::Verbose.name() {
            Severity::Verbose
        } else if small == Severity::Debug.name() {
            Severity::Debug
        } else if small == Severity::Trace.name() {
            Severity::Trace
        } else {
            Severity::Important
        }
    }

    /// Reads a severity from its name: `fatal`, `error`, `warning`,
    /// `important`, `info`, `verbose`, `debug` or `trace`, in any mix of
    /// capital and small letters. Any other text, the empty one too, gives
    /// `Important`. There is no input that fails.
    pub fn from_name(word: &str) -> (severity: Severity)
        ensures
            severity == Severity::named(word@),
    {
        let mut small = String::new();
        for c in it: word.chars()
            invariant
                it.seq() == word@,
                small@ == folded(word@.take(it.index() as int)),
        {
            let low = lower_char(c);
            small.push(low);
            assert(folded(word@.take(it.index() + 1)) == folded(
                word@.take(it.index() as int),
            ).push(low));
        }
        proof {
            assert(word@.take(word@.len() as int) == word@);
            reveal_strlit("fatal");
            reveal_strlit("error");
            reveal_strlit("warning");
            reveal_strlit("info");
            reveal_strlit("verbose");
            reveal_strlit("debug");
            reveal_strlit("trace");
            assert("fatal"@ == Severity::Fatal.name());
            assert("error"@ == Severity::Error.name());
            assert("warning"@ == Severity::Warn.name());
            assert("info"@ == Severity::Info.name());
            assert("verbose"@ == Severity::Verbose.name());
            assert("debug"@ == Severity::Debug.name());
            assert("trace"@ == Severity::Trace.name());
        }
        if holds(&small, "fatal") {
            Severity::Fatal
        } else if holds(&small, "error") {
            Severity::Error
        } else if holds(&small, "warning") {
            Severity::Warn
        } else if holds(&small, "info") {
            Severity::Info
        } else if holds(&small, "verbose") {
            Severity::Verbose
        } else if holds(&small, "debug") {
            Severity::Debug
        } else if holds(&small, "trace") {
            Severity::Trace
        } else {
            Severity::Important
        }
    }

    /// Reads a severity from a setting that may be absent, such as an
    /// environment variable: an absent setting gives `Important`, as an
    /// unknown name does.
    pub fn from_setting(value: Option<&str>) -> (severity: Severity)
        ensures
            severity == match value {
                Some(word) => Severity::named(word@),
                None => Severity::Important,
            },
    {
        match value {
            Some(word) => Severity::from_name(word),
            None => Severity::Important,
        }
    }
}

/// The order of severities is total and fixed: every severity has a rank
/// of its own, from 0 for `Fatal` to 7 for `Trace`.
pub proof fn lemma_rank_orders_severities(a: Severity, b: Severity)
    ensures
        a.rank() <= 7,
        a.rank() == b.rank() <==> a == b,
        Severity::Fatal.rank() < Severity::Error.rank() < Severity::Warn.rank()
            < Severity::Important.rank() < Severity::Info.rank() < Severity::Verbose.rank()
            < Severity::Debug.rank() < Severity::Trace.rank(),
{
}

/// The case of letters makes no difference: two words that differ in
/// nothing but the case of their ASCII letters name the same severity.
pub proof fn lemma_case_is_ignored(a: Seq<char>, b: Seq<char>)
    requires
        folded(a) == folded(b),
    ensures
        Severity::named(a) == Severity::named(b),
{
}

/// Every severity is read back from its own name, in small letters and in
/// capitals alike.
pub proof fn lemma_name_round_trip(severity: Severity)
    ensures
        Severity::named(severity.name()) == severity,
        Severity::named(severity.name().map_values(|c: char| ((c as int) - 32) as char))
            == severity,
{
    let small = severity.name();
    let big = small.map_values(|c: char| ((c as int) - 32) as char);
    assert(folded(small) =~= small);
    assert(folded(big) =~= small);
    assert(Severity::Fatal.name()[0] == 'f');
    assert(Severity::Error.name()[0] == 'e');
    assert(Severity::Warn.name()[0] == 'w');
    assert(Severity::Important.name()[1] == 'm');
    assert(Severity::Info.name()[1] == 'n');
    assert(Severity::Verbose.name()[0] == 'v');
    assert(Severity::Debug.name()[0] == 'd');
    assert(Severity::Trace.name()[0] == 't');
}

} // verus!
