//! The configuration of a logger, and the operations that change it.

use vstd::prelude::*;
use crate::prefixes::{default_prefix, LogPrefixes, Prefix};
use crate::severity::{Filter, PrefixClass, Route, Severity};
use crate::sink::FileSink;

verus! {

/// Everything a logger is configured with. A program keeps one of these
/// for its whole life and changes it through the functions below.
pub struct LogConfig<F> {
    /// Which messages are emitted.
    pub filter: Filter,
    /// Which stream console output goes to.
    pub route: Route,
    /// Whether console output is coloured.
    pub colours: bool,
    /// The prefix of every class.
    pub prefixes: LogPrefixes<F>,
    /// The state of the optional log file.
    pub sink: FileSink,
}

impl<F: Fn() -> String> LogConfig<F> {
    /// Every prefix generator can be called.
    pub open spec fn wf(self) -> bool {
        self.prefixes.wf()
    }

    /// This configuration with `prefix` as the prefix of `class`.
    pub open spec fn with_prefix(self, class: PrefixClass, prefix: Prefix<F>) -> Self {
        LogConfig { prefixes: self.prefixes.with(class, prefix), ..self }
    }

    /// The configuration a process starts with: every severity passes by
    /// its rank, verbose and debugging output are off, the stream follows
    /// the severity, colours are off, the prefixes are the default ones and
    /// the log file has not been asked for.
    pub fn new() -> (config: Self)
        ensures
            config.wf(),
            config.filter == Filter::new_spec(),
            config.route == Route::BySeverity,
            !config.colours,
            config.sink is Fresh,
            forall|class: PrefixClass|
                (#[trigger] config.prefixes.slot(class)) matches Prefix::Fixed(text) && text@
                    == default_prefix(class),
    {
        LogConfig {
            filter: Filter::new(),
            route: Route::BySeverity,
            colours: false,
            prefixes: LogPrefixes::new(),
            sink: FileSink::Fresh,
        }
    }
}

/// Enable or disable debugging messages. They are off at the start.
pub fn set_debug<F>(config: &mut LogConfig<F>, val: bool)
    ensures
        *final(config) == (LogConfig {
            filter: Filter { debug: val, ..old(config).filter },
            ..*old(config)
        }),
{
    config.filter.debug = val;
}

/// Enable or disable verbose messages. They are off at the start.
pub fn set_verbose<F>(config: &mut LogConfig<F>, val: bool)
    ensures
        *final(config) == (LogConfig {
            filter: Filter { verbose: val, ..old(config).filter },
            ..*old(config)
        }),
{
    config.filter.verbose = val;
}

/// Set the least severe severity that is still emitted.
pub fn set_minimum_level<F>(config: &mut LogConfig<F>, minimum: Severity)
    ensures
        *final(config) == (LogConfig {
            filter: Filter { minimum: minimum, ..old(config).filter },
            ..*old(config)
        }),
{
    config.filter.minimum = minimum;
}

/// Choose the stream that console output goes to.
pub fn set_route<F>(config: &mut LogConfig<F>, route: Route)
    ensures
        *final(config) == (LogConfig { route: route, ..*old(config) }),
{
    config.route = route;
}

/// Switch coloured console output on or off.
pub fn set_colours<F>(config: &mut LogConfig<F>, val: bool)
    ensures
        *final(config) == (LogConfig { colours: val, ..*old(config) }),
{
    config.colours = val;
}

/// Change the error prefix to a new static value. It takes the place of
/// the prefix that was in force, whether that was a text or a generator.
pub fn error_prefix_str<F: Fn() -> String>(config: &mut LogConfig<F>, s: String)
    ensures
        *final(config) == old(config).with_prefix(PrefixClass::Error, Prefix::Fixed(s)),
        old(config).wf() ==> final(config).wf(),
{
    config.prefixes.set(PrefixClass::Error, Prefix::Fixed(s));
}

/// Change the warning prefix to a new static value.
pub fn warning_prefix_str<F: Fn() -> String>(config: &mut LogConfig<F>, s: String)
    ensures
        *final(config) == old(config).with_prefix(PrefixClass::Warning, Prefix::Fixed(s)),
        old(config).wf() ==> final(config).wf(),
{
    config.prefixes.set(PrefixClass::Warning, Prefix::Fixed(s));
}

/// Change the info prefix to a new static value.
pub fn info_prefix_str<F: Fn() -> String>(config: &mut LogConfig<F>, s: String)
    ensures
        *final(config) == old(config).with_prefix(PrefixClass::Info, Prefix::Fixed(s)),
        old(config).wf() ==> final(config).wf(),
{
    config.prefixes.set(PrefixClass::Info, Prefix::Fixed(s));
}

/// Change the debug prefix to a new static value.
pub fn debug_prefix_str<F: Fn() -> String>(config: &mut LogConfig<F>, s: String)
    ensures
        *final(config) == old(config).with_prefix(PrefixClass::Debug, Prefix::Fixed(s)),
        old(config).wf() ==> final(config).wf(),
{
    config.prefixes.set(PrefixClass::Debug, Prefix::Fixed(s));
}

/// Change the error prefix to a dynamic value: `f` is called for every
/// message from now on. It takes the place of the prefix that was in
/// force, whether that was a text or a generator.
pub fn error_prefix_fn<F: Fn() -> String>(config: &mut LogConfig<F>, f: F)
    ensures
        *final(config) == old(config).with_prefix(PrefixClass::Error, Prefix::Dynamic(f)),
        old(config).wf() && call_requires(f, ()) ==> final(config).wf(),
{
    config.prefixes.set(PrefixClass::Error, Prefix::Dynamic(f));
}

/// Change the warning prefix to a dynamic value.
pub fn warning_prefix_fn<F: Fn() -> String>(config: &mut LogConfig<F>, f: F)
    ensures
        *final(config) == old(config).with_prefix(PrefixClass::Warning, Prefix::Dynamic(f)),
        old(config).wf() && call_requires(f, ()) ==> final(config).wf(),
{
    config.prefixes.set(PrefixClass::Warning, Prefix::Dynamic(f));
}

/// Change the info prefix to a dynamic value.
pub fn info_prefix_fn<F: Fn() -> String>(config: &mut LogConfig<F>, f: F)
    ensures
        *final(config) == old(config).with_prefix(PrefixClass::Info, Prefix::Dynamic(f)),
        old(config).wf() && call_requires(f, ()) ==> final(config).wf(),
{
    config.prefixes.set(PrefixClass::Info, Prefix::Dynamic(f));
}

/// Change the debug prefix to a dynamic value.
pub fn debug_prefix_fn<F: Fn() -> String>(config: &mut LogConfig<F>, f: F)
    ensures
        *final(config) == old(config).with_prefix(PrefixClass::Debug, Prefix::Dynamic(f)),
        old(config).wf() && call_requires(f, ()) ==> final(config).wf(),
{
    config.prefixes.set(PrefixClass::Debug, Prefix::Dynamic(f));
}

} // verus!
