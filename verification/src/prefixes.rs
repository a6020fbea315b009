//! The prefixes that tag a log line. Each is either a fixed text or a
//! generator that is called anew for every message.

use vstd::prelude::*;
use crate::severity::PrefixClass;

verus! {

/// One prefix: a fixed text, or a generator of texts.
pub enum Prefix<F> {
    Fixed(String),
    Dynamic(F),
}

impl<F: Fn() -> String> Prefix<F> {
    /// A generator must accept being called.
    pub open spec fn callable(self) -> bool {
        self matches Prefix::Dynamic(f) ==> call_requires(f, ())
    }

    /// `out` is a text this prefix resolves to: the fixed text itself, or
    /// anything a call of the generator may return.
    pub open spec fn yields(self, out: String) -> bool {
        match self {
            Prefix::Fixed(text) => out@ == text@,
            Prefix::Dynamic(f) => call_ensures(f, (), out),
        }
    }

    /// The text of the prefix right now. A generator is called on every
    /// resolution; nothing is kept from one call to the next.
    pub fn resolve(&self) -> (out: String)
        requires
            self.callable(),
        ensures
            self.yields(out),
    {
        match self {
            Prefix::Fixed(text) => text.clone(),
            Prefix::Dynamic(f) => f(),
        }
    }
}

/// The text each prefix class starts out with.
pub open spec fn default_prefix(class: PrefixClass) -> Seq<char> {
    match class {
        PrefixClass::Error => seq!['[', '!', '!', ']'],
        PrefixClass::Warning => seq!['[', '!', ']'],
        PrefixClass::Info => seq!['[', '*', ']'],
        PrefixClass::Debug => seq!['[', '~', ']'],
    }
}

/// The prefix of every class.
pub struct LogPrefixes<F> {
    pub for_error: Prefix<F>,
    pub for_warning: Prefix<F>,
    pub for_info: Prefix<F>,
    pub for_debug: Prefix<F>,
}

impl<F: Fn() -> String> LogPrefixes<F> {
    /// The prefix of one class.
    pub open spec fn slot(self, class: PrefixClass) -> Prefix<F> {
        match class {
            PrefixClass::Error => self.for_error,
            PrefixClass::Warning => self.for_warning,
            PrefixClass::Info => self.for_info,
            PrefixClass::Debug => self.for_debug,
        }
    }

    /// Every generator can be called.
    pub open spec fn wf(self) -> bool {
        forall|class: PrefixClass| (#[trigger] self.slot(class)).callable()
    }

    /// The prefixes a process starts with: `[!!]` for errors, `[!]` for
    /// warnings, `[*]` for information and `[~]` for debugging output.
    pub fn new() -> (prefixes: Self)
        ensures
            prefixes.wf(),
            forall|class: PrefixClass|
                (#[trigger] prefixes.slot(class)) matches Prefix::Fixed(text) && text@
                    == default_prefix(class),
    {
        proof {
            reveal_strlit("[!!]");
            reveal_strlit("[!]");
            reveal_strlit("[*]");
            reveal_strlit("[~]");
        }
        let error = String::from_str("[!!]");
        let warning = String::from_str("[!]");
        let info = String::from_str("[*]");
        let debug = String::from_str("[~]");
        assert(error@ == default_prefix(PrefixClass::Error));
        assert(warning@ == default_prefix(PrefixClass::Warning));
        assert(info@ == default_prefix(PrefixClass::Info));
        assert(debug@ == default_prefix(PrefixClass::Debug));
        LogPrefixes {
            for_error: Prefix::Fixed(error),
            for_warning: Prefix::Fixed(warning),
            for_info: Prefix::Fixed(info),
            for_debug: Prefix::Fixed(debug),
        }
    }

    /// The error prefix, resolved now.
    pub fn err(&self) -> (out: String)
        requires
            self.wf(),
        ensures
            self.slot(PrefixClass::Error).yields(out),
    {
        assert(self.slot(PrefixClass::Error).callable());
        self.for_error.resolve()
    }

    /// The warning prefix, resolved now.
    pub fn warn(&self) -> (out: String)
        requires
            self.wf(),
        ensures
            self.slot(PrefixClass::Warning).yields(out),
    {
        assert(self.slot(PrefixClass::Warning).callable());
        self.for_warning.resolve()
    }

    /// The information prefix, resolved now.
    pub fn info(&self) -> (out: String)
        requires
            self.wf(),
        ensures
            self.slot(PrefixClass::Info).yields(out),
    {
        assert(self.slot(PrefixClass::Info).callable());
        self.for_info.resolve()
    }

    /// The debugging prefix, resolved now.
    pub fn debug(&self) -> (out: String)
        requires
            self.wf(),
        ensures
            self.slot(PrefixClass::Debug).yields(out),
    {
        assert(self.slot(PrefixClass::Debug).callable());
        self.for_debug.resolve()
    }

    /// These prefixes with `prefix` in the place of the prefix of `class`.
    pub open spec fn with(self, class: PrefixClass, prefix: Prefix<F>) -> Self {
        match class {
            PrefixClass::Error => LogPrefixes { for_error: prefix, ..self },
            PrefixClass::Warning => LogPrefixes { for_warning: prefix, ..self },
            PrefixClass::Info => LogPrefixes { for_info: prefix, ..self },
            PrefixClass::Debug => LogPrefixes { for_debug: prefix, ..self },
        }
    }

    /// Puts `prefix` in the place of the prefix of `class`, whatever kind
    /// either is of, and leaves the other classes alone.
    pub fn set(&mut self, class: PrefixClass, prefix: Prefix<F>)
        ensures
            *final(self) == old(self).with(class, prefix),
            old(self).wf() && prefix.callable() ==> final(self).wf(),
    {
        match class {
            PrefixClass::Error => {
                self.for_error = prefix;
            },
            PrefixClass::Warning => {
                self.for_warning = prefix;
            },
            PrefixClass::Info => {
                self.for_info = prefix;
            },
            PrefixClass::Debug => {
                self.for_debug = prefix;
            },
        }
        proof {
            if old(self).wf() && prefix.callable() {
                assert forall|c: PrefixClass| (#[trigger] self.slot(c)).callable() by {
                    if c != class {
                        assert(self.slot(c) == old(self).slot(c));
                        assert(old(self).slot(c).callable());
                    }
                }
            }
        }
    }
}

/// The prefix that was set last is the one in force: it has taken the
/// place of whatever stood there, fixed text or generator, and the other
/// classes have kept theirs.
pub proof fn lemma_last_prefix_wins<F: Fn() -> String>(
    prefixes: LogPrefixes<F>,
    class: PrefixClass,
    first: Prefix<F>,
    second: Prefix<F>,
    other: PrefixClass,
)
    ensures
        prefixes.with(class, first).with(class, second).slot(class) == second,
        prefixes.with(class, first).with(class, second) == prefixes.with(class, second),
        other != class ==> prefixes.with(class, second).slot(other) == prefixes.slot(other),
{
}

} // verus!
