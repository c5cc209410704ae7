//! Structured logging to several targets at once.
//!
//! The logger decides which of its targets take a message and what each of
//! them makes of it. It writes nothing itself: what is to be printed or
//! appended to a file is handed back to the caller as a list of emissions.
use vstd::prelude::*;
use vstd::string::*;

pub mod target;
pub use target::ConsoleTarget;
pub use target::Emission;
pub use target::LoggingTarget;
pub use target::RollingFileTarget;
pub use target::Target;

verus! {

/// How much a message matters, or how much a target wants to hear.
#[derive(Clone, Debug, PartialEq, Eq, Structural, Copy)]
pub enum LogLevel {
    Off,
    Error,
    Warn,
    Info,
    Debug,
    Trace,
}

impl LogLevel {
    /// The rank of this level: from 0 for `Trace` up to 5 for `Off`.
    pub open spec fn rank_spec(self) -> int {
        match self {
            LogLevel::Off => 5,
            LogLevel::Error => 4,
            LogLevel::Warn => 3,
            LogLevel::Info => 2,
            LogLevel::Debug => 1,
            LogLevel::Trace => 0,
        }
    }

    /// The rank of this level: from 0 for `Trace` up to 5 for `Off`.
    pub fn rank(self) -> (r: u32)
        ensures
            r == self.rank_spec(),
    {
        match self {
            LogLevel::Off => 5,
            LogLevel::Error => 4,
            LogLevel::Warn => 3,
            LogLevel::Info => 2,
            LogLevel::Debug => 1,
            LogLevel::Trace => 0,
        }
    }

    /// The name of this level.
    pub open spec fn name_spec(self) -> Seq<char> {
        match self {
            LogLevel::Off => "Off"@,
            LogLevel::Error => "Error"@,
            LogLevel::Warn => "Warn"@,
            LogLevel::Info => "Info"@,
            LogLevel::Debug => "Debug"@,
            LogLevel::Trace => "Trace"@,
        }
    }

    /// The name of this level.
    pub fn to_string(&self) -> (s: String)
        ensures
            s@ == self.name_spec(),
    {
        String::from_str(
            match self {
                LogLevel::Off => "Off",
                LogLevel::Error => "Error",
                LogLevel::Warn => "Warn",
                LogLevel::Info => "Info",
                LogLevel::Debug => "Debug",
                LogLevel::Trace => "Trace",
            },
        )
    }

    /// The name of this level, with blanks after it up to five characters.
    pub open spec fn tag_spec(self) -> Seq<char> {
        match self {
            LogLevel::Off => "Off  "@,
            LogLevel::Error => "Error"@,
            LogLevel::Warn => "Warn "@,
            LogLevel::Info => "Info "@,
            LogLevel::Debug => "Debug"@,
            LogLevel::Trace => "Trace"@,
        }
    }

    /// The name of this level, with blanks after it up to five characters.
    pub fn tag(self) -> (s: &'static str)
        ensures
            s@ == self.tag_spec(),
    {
        match self {
            LogLevel::Off => "Off  ",
            LogLevel::Error => "Error",
            LogLevel::Warn => "Warn ",
            LogLevel::Info => "Info ",
            LogLevel::Debug => "Debug",
            LogLevel::Trace => "Trace",
        }
    }
}

/// Whether a target that listens at `target` takes a message of `message`.
pub open spec fn takes(target: LogLevel, message: LogLevel) -> bool {
    target.rank_spec() <= message.rank_spec()
}

/// The line that a message of `log_level` becomes: the level's tag, a bar,
/// the message, and a line end.
pub open spec fn log_line(msg: Seq<char>, log_level: LogLevel) -> Seq<char> {
    log_level.tag_spec() + " | "@ + msg + "\n"@
}

/// What is handed out of `slots`, in order.
pub open spec fn handed_out(slots: Seq<Option<Emission>>) -> Seq<Emission>
    decreases slots.len(),
{
    if slots.len() == 0 {
        Seq::empty()
    } else {
        match slots.last() {
            Some(e) => handed_out(slots.drop_last()).push(e),
            None => handed_out(slots.drop_last()),
        }
    }
}

/// Whether `slot` is what `target` makes of the line `line` of `log_level`.
/// A target that says at which level it listens makes nothing of a line
/// below that level, and of any other what its `log_message` may hand out.
/// A target that does not say is free to do either.
pub open spec fn handed(
    target: Target,
    line: Seq<char>,
    log_level: LogLevel,
    slot: Option<Emission>,
) -> bool {
    &&& target.0.levelled() && !takes(target.0.level(), log_level) ==> slot is None
    &&& target.0.levelled() && takes(target.0.level(), log_level) ==> target.0.emits(
        line,
        log_level,
        slot,
    )
    &&& slot is None || target.0.emits(line, log_level, slot)
}

/// Whether `slots` holds, for each of `targets` in order, what it makes of
/// the line `line` of level `log_level`: nothing where it does not listen
/// at that level, and else what its `log_message` may hand out.
pub open spec fn routed(
    targets: Seq<Target>,
    line: Seq<char>,
    log_level: LogLevel,
    slots: Seq<Option<Emission>>,
) -> bool {
    &&& slots.len() == targets.len()
    &&& forall|i: int|
        0 <= i < targets.len() ==> handed(#[trigger] targets[i], line, log_level, slots[i])
}

/// Whether `out` is what `targets` make of the line `line` of `log_level`,
/// each in its turn.
pub open spec fn logged(
    targets: Seq<Target>,
    line: Seq<char>,
    log_level: LogLevel,
    out: Seq<Emission>,
) -> bool {
    exists|slots: Seq<Option<Emission>>|
        #[trigger] routed(targets, line, log_level, slots) && out == handed_out(slots)
}

/// Whether the targets `after` listen each at the level of the same target
/// of `before`.
pub open spec fn same_levels(
    before: Seq<Target>,
    after: Seq<Target>,
) -> bool {
    &&& after.len() == before.len()
    &&& forall|i: int|
        0 <= i < before.len() ==> (#[trigger] after[i]).0.level() == before[i].0.level()
            && after[i].0.levelled() == before[i].0.levelled()
}

/// A logger: a list of targets that each take the messages of their level.
pub struct Logger {
    pub targets: Vec<Target>,
}

impl Logger {
    /// A logger with the targets given.
    pub fn new(targets: Vec<Target>) -> (r: Logger)
        ensures
            r.targets == targets,
    {
        Logger { targets }
    }

    /// A logger without targets.
    pub fn empty() -> (r: Logger)
        ensures
            r.targets@.len() == 0,
    {
        Logger::new(Vec::new())
    }

    /// This logger with one more target.
    pub fn push(self, target: Target) -> (r: Logger)
        ensures
            r.targets@ == self.targets@.push(target),
    {
        let mut targets = self.targets;
        targets.push(target);
        Logger { targets }
    }

    /// A logger named `name` with a console target that listens at `Info`
    /// and a rolling file target that listens at `Debug`.
    pub fn default_target(name: &str) -> (r: Logger)
        ensures
            r.targets@.len() == 2,
            r.targets@[0].0.levelled() && r.targets@[0].0.level() == LogLevel::Info,
            r.targets@[1].0.levelled() && r.targets@[1].0.level() == LogLevel::Debug,
    {
        Logger::default_target_with_levels(name, LogLevel::Info, LogLevel::Debug)
    }

    /// A logger named `name` with a console target and a rolling file
    /// target that listen at the levels given.
    pub fn default_target_with_levels(
        name: &str,
        console_log_level: LogLevel,
        file_log_level: LogLevel,
    ) -> (r: Logger)
        ensures
            r.targets@.len() == 2,
            r.targets@[0].0.levelled() && r.targets@[0].0.level() == console_log_level,
            r.targets@[1].0.levelled() && r.targets@[1].0.level() == file_log_level,
    {
        let mut console = ConsoleTarget::default(name);
        let mut rolling_file = RollingFileTarget::default(name);
        console.set_level(console_log_level);
        rolling_file.set_level(file_log_level);
        Logger::from_console_file(console, rolling_file)
    }

    /// A logger with the two targets given, the console first.
    pub fn from_console_file(console: ConsoleTarget, rolling_file: RollingFileTarget) -> (r:
        Logger)
        ensures
            r.targets@.len() == 2,
            r.targets@[0].0.levelled() && r.targets@[0].0.level() == console.level(),
            r.targets@[1].0.levelled() && r.targets@[1].0.level() == rolling_file.level(),
    {
        let first = Target::console(console);
        let second = Target::rolling_file(rolling_file);
        Logger::empty().push(first).push(second)
    }

    /// Logs `msg` at `log_level`: makes the line of the message and hands it
    /// to each target that listens at that level, in order. Returns what
    /// the targets want printed or written.
    pub fn log(&mut self, msg: &str, log_level: LogLevel) -> (out: Vec<Emission>)
        ensures
            same_levels(old(self).targets@, final(self).targets@),
            logged(old(self).targets@, log_line(msg@, log_level), log_level, out@),
    {
        let mut line = String::from_str(log_level.tag());
        line.append(" | ");
        line.append(msg);
        line.append("\n");
        let mut out: Vec<Emission> = Vec::new();
        let ghost mut slots: Seq<Option<Emission>> = Seq::empty();
        let n = self.targets.len();
        let mut i: usize = 0;
        while i < n
            invariant
                i <= n,
                n == self.targets@.len(),
                n == old(self).targets@.len(),
                line@ == log_line(msg@, log_level),
                forall|k: int| i <= k < n ==> self.targets@[k] == old(self).targets@[k],
                forall|k: int|
                    0 <= k < n ==> (#[trigger] self.targets@[k]).0.level() == old(
                        self,
                    ).targets@[k].0.level() && self.targets@[k].0.levelled() == old(
                        self,
                    ).targets@[k].0.levelled(),
                routed(old(self).targets@.take(i as int), line@, log_level, slots),
                out@ == handed_out(slots),
            decreases n - i,
        {
            let made = self.targets[i].0.log(&line, log_level);
            proof {
                let next = old(self).targets@.take(i + 1);
                let grown = slots.push(made);
                assert(grown.drop_last() =~= slots);
                slots = grown;
            }
            match made {
                Some(e) => {
                    out.push(e);
                },
                None => {},
            }
            i = i + 1;
        }
        assert(old(self).targets@.take(n as int) =~= old(self).targets@);
        out
    }

    /// Logs `msg` at `Error`.
    pub fn error(&mut self, msg: &str) -> (out: Vec<Emission>)
        ensures
            same_levels(old(self).targets@, final(self).targets@),
            logged(
                old(self).targets@,
                log_line(msg@, LogLevel::Error),
                LogLevel::Error,
                out@,
            ),
    {
        self.log(msg, LogLevel::Error)
    }

    /// Logs `msg` at `Warn`.
    pub fn warn(&mut self, msg: &str) -> (out: Vec<Emission>)
        ensures
            same_levels(old(self).targets@, final(self).targets@),
            logged(old(self).targets@, log_line(msg@, LogLevel::Warn), LogLevel::Warn, out@),
    {
        self.log(msg, LogLevel::Warn)
    }

    /// Logs `msg` at `Info`.
    pub fn info(&mut self, msg: &str) -> (out: Vec<Emission>)
        ensures
            same_levels(old(self).targets@, final(self).targets@),
            logged(old(self).targets@, log_line(msg@, LogLevel::Info), LogLevel::Info, out@),
    {
        self.log(msg, LogLevel::Info)
    }

    /// Logs `msg` at `Debug`.
    pub fn debug(&mut self, msg: &str) -> (out: Vec<Emission>)
        ensures
            same_levels(old(self).targets@, final(self).targets@),
            logged(
                old(self).targets@,
                log_line(msg@, LogLevel::Debug),
                LogLevel::Debug,
                out@,
            ),
    {
        self.log(msg, LogLevel::Debug)
    }

    /// Logs `msg` at `Trace`.
    pub fn trace(&mut self, msg: &str) -> (out: Vec<Emission>)
        ensures
            same_levels(old(self).targets@, final(self).targets@),
            logged(
                old(self).targets@,
                log_line(msg@, LogLevel::Trace),
                LogLevel::Trace,
                out@,
            ),
    {
        self.log(msg, LogLevel::Trace)
    }
}

/// Whether `out` is what a logger made of the message `msg` of
/// `log_level`, while it went from `had` to `has`: the targets of the two
/// listen at the same levels, and `out` is what the targets of the first
/// made of the line.
pub open spec fn spoke(
    had: Logger,
    has: Logger,
    msg: Seq<char>,
    log_level: LogLevel,
    out: Seq<Emission>,
) -> bool {
    &&& same_levels(had.targets@, has.targets@)
    &&& logged(had.targets@, log_line(msg, log_level), log_level, out)
}

/// Something that has a logger of its own, and so can log.
pub trait Logable: Sized {
    /// Whether `logger` is the logger of this value.
    open spec fn logs_with(&self, logger: Logger) -> bool {
        true
    }

    /// The logger of this value.
    fn get_logger(&mut self) -> (l: &mut Logger)
        ensures
            old(self).logs_with(*l),
            final(self).logs_with(*final(l)),
    ;

    /// Logs `msg` at `log_level` with the logger of this value.
    fn log(&mut self, msg: &str, log_level: LogLevel) -> (out: Vec<Emission>)
        ensures
            exists|had: Logger, has: Logger|
                old(self).logs_with(had) && final(self).logs_with(has) && #[trigger] spoke(
                    had,
                    has,
                    msg@,
                    log_level,
                    out@,
                ),
    {
        let logger = self.get_logger();
        let ghost had = *logger;
        let out = logger.log(msg, log_level);
        proof {
            let has = *logger;
            assert(spoke(had, has, msg@, log_level, out@));
        }
        out
    }

    /// Logs `msg` at `Error` with the logger of this value.
    fn error(&mut self, msg: &str) -> (out: Vec<Emission>)
        ensures
            exists|had: Logger, has: Logger|
                old(self).logs_with(had) && final(self).logs_with(has) && #[trigger] spoke(
                    had,
                    has,
                    msg@,
                    LogLevel::Error,
                    out@,
                ),
    {
        self.log(msg, LogLevel::Error)
    }

    /// Logs `msg` at `Warn` with the logger of this value.
    fn warn(&mut self, msg: &str) -> (out: Vec<Emission>)
        ensures
            exists|had: Logger, has: Logger|
                old(self).logs_with(had) && final(self).logs_with(has) && #[trigger] spoke(
                    had,
                    has,
                    msg@,
                    LogLevel::Warn,
                    out@,
                ),
    {
        self.log(msg, LogLevel::Warn)
    }

    /// Logs `msg` at `Info` with the logger of this value.
    fn info(&mut self, msg: &str) -> (out: Vec<Emission>)
        ensures
            exists|had: Logger, has: Logger|
                old(self).logs_with(had) && final(self).logs_with(has) && #[trigger] spoke(
                    had,
                    has,
                    msg@,
                    LogLevel::Info,
                    out@,
                ),
    {
        self.log(msg, LogLevel::Info)
    }

    /// Logs `msg` at `Debug` with the logger of this value.
    fn debug(&mut self, msg: &str) -> (out: Vec<Emission>)
        ensures
            exists|had: Logger, has: Logger|
                old(self).logs_with(had) && final(self).logs_with(has) && #[trigger] spoke(
                    had,
                    has,
                    msg@,
                    LogLevel::Debug,
                    out@,
                ),
    {
        self.log(msg, LogLevel::Debug)
    }

    /// Logs `msg` at `Trace` with the logger of this value.
    fn trace(&mut self, msg: &str) -> (out: Vec<Emission>)
        ensures
            exists|had: Logger, has: Logger|
                old(self).logs_with(had) && final(self).logs_with(has) && #[trigger] spoke(
                    had,
                    has,
                    msg@,
                    LogLevel::Trace,
                    out@,
                ),
    {
        self.log(msg, LogLevel::Trace)
    }
}

impl Logable for Logger {
    open spec fn logs_with(&self, logger: Logger) -> bool {
        logger == *self
    }

    fn get_logger(&mut self) -> (l: &mut Logger) {
        self
    }
}

} // verus!
