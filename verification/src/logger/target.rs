//! The targets of a logger, and what they hand out.
use vstd::prelude::*;
use vstd::string::*;
use crate::logger::LogLevel;
use crate::logger::takes;
use crate::number::fixed_text;
use crate::number::format_fixed;
use crate::number::nat_text;
use crate::number::pow10;

verus! {

/// What a target wants done with a message.
#[derive(Debug)]
pub enum Emission {
    /// Print `painted` on the console: `line` in the colour of `log_level`,
    /// where `line` is `message` after the name `name` of the logger.
    Console { name: String, message: String, log_level: LogLevel, line: String, painted: String },
    /// Append `line` to file 0 of the logger `name`. Before that, take the
    /// steps of `rotate`, in order, and with `create` begin file 0 anew.
    File { name: String, rotate: Vec<FileMove>, create: bool, line: String },
}

/// Something that takes the lines of a logger, from some level on.
pub trait LoggingTarget {
    /// Whether this target says at which level it listens.
    open spec fn levelled(&self) -> bool {
        false
    }

    /// The level at which this target listens, where it says so.
    open spec fn level(&self) -> LogLevel {
        LogLevel::Off
    }

    /// Whether this target may hand out `out` for the line `msg` of
    /// `log_level`.
    open spec fn emits(&self, msg: Seq<char>, log_level: LogLevel, out: Option<Emission>) -> bool {
        true
    }

    /// Lets this target listen at `log_level`.
    fn set_level(&mut self, log_level: LogLevel)
        ensures
            final(self).levelled() == old(self).levelled(),
            final(self).levelled() ==> final(self).level() == log_level,
    ;

    /// The level at which this target listens.
    fn get_level(&self) -> (l: LogLevel)
        ensures
            self.levelled() ==> l == self.level(),
    ;

    /// Takes a line. The line has passed the level; `log_level` is given for
    /// the looks of the output only.
    fn log_message(&mut self, msg: &String, log_level: LogLevel) -> (out: Option<Emission>)
        ensures
            old(self).emits(msg@, log_level, out),
            final(self).levelled() == old(self).levelled(),
            final(self).level() == old(self).level(),
    ;

    /// Takes a line if this target listens at `log_level`.
    fn log(&mut self, msg: &String, log_level: LogLevel) -> (out: Option<Emission>)
        ensures
            final(self).levelled() == old(self).levelled(),
            final(self).level() == old(self).level(),
            old(self).levelled() && !takes(old(self).level(), log_level) ==> out is None,
            old(self).levelled() && takes(old(self).level(), log_level) ==> old(self).emits(
                msg@,
                log_level,
                out,
            ),
            out is None || old(self).emits(msg@, log_level, out),
    {
        if self.get_level().rank() <= log_level.rank() {
            self.log_message(msg, log_level)
        } else {
            None
        }
    }
}

/// A target of any kind, as a logger holds it.
pub struct Target(pub Box<dyn LoggingTarget>);

/// `n` blanks.
pub open spec fn blanks(n: nat) -> Seq<char>
    decreases n,
{
    if n == 0 {
        Seq::empty()
    } else {
        blanks((n - 1) as nat).push(' ')
    }
}

/// The line that the console shows for `msg`: the name of the logger
/// between brackets, with blanks after it up to `pad` characters, and the
/// message.
pub open spec fn console_line_spec(name: Seq<char>, pad: nat, msg: Seq<char>) -> Seq<char> {
    let fill = if name.len() < pad {
        (pad - name.len()) as nat
    } else {
        0
    };
    "["@ + name + blanks(fill) + "] "@ + msg
}

/// Writes the line that the console shows for `msg`.
pub fn console_line(name: &str, pad: usize, msg: &str) -> (line: String)
    ensures
        line@ == console_line_spec(name@, pad as nat, msg@),
{
    let mut line = String::from_str("[");
    line.append(name);
    let width = name.unicode_len();
    let mut filled: usize = 0;
    while width < pad && filled < pad - width
        invariant
            line@ == "["@ + name@ + blanks(filled as nat),
            width == name@.len(),
            width < pad ==> filled <= pad - width,
            width >= pad ==> filled == 0,
        decreases pad - width - filled,
    {
        proof {
            reveal_strlit(" ");
        }
        line.append(" ");
        filled = filled + 1;
    }
    line.append("] ");
    line.append(msg);
    line
}

/// How many bytes `s` takes in a file.
pub open spec fn byte_len(s: Seq<char>) -> usize {
    vstd::utf8::encode_utf8(s).len() as usize
}

/// The least width of the name of a logger on the console.
pub const MIN_PAD: usize = 8;

/// The width that names take on the console once the logger `name` is
/// there too: `pad`, or the length of `name` in bytes where that is more.
pub fn widen(pad: usize, name: &str) -> (w: usize)
    ensures
        w == if byte_len(name@) > pad {
            byte_len(name@)
        } else {
            pad
        },
{
    let n = name.len();
    if n > pad {
        n
    } else {
        pad
    }
}

/// Whether `text` holds no escape character, the one that opens the marks
/// by which a terminal changes colour.
pub open spec fn has_no_escape(text: Seq<char>) -> bool {
    forall|i: int| 0 <= i < text.len() ==> text[i] != '\u{1b}'
}

/// The mark that lets a terminal write in the colour of the number `code`.
pub open spec fn colour_on(code: Seq<char>) -> Seq<char> {
    seq!['\u{1b}', '['] + code + seq!['m']
}

/// The mark that lets a terminal write as it did before.
pub open spec fn colour_off() -> Seq<char> {
    seq!['\u{1b}', '[', '0', 'm']
}

/// Whether `painted` is `text` as it is shown in the colour of the number
/// `code`: between the mark of the colour and the mark that ends it where
/// colours are on, as it is where they are off, and with the closing mark
/// alone where they are switched off while the text is being painted.
pub open spec fn shown_in(text: Seq<char>, code: Seq<char>, painted: Seq<char>) -> bool {
    ||| painted == text
    ||| painted == text + colour_off()
    ||| painted == colour_on(code) + text + colour_off()
}

/// [`colored::Colorize::red`] and the text of what it gives. Whether
/// colours are on is up to the environment. Either way a text without an
/// escape character comes out shown in the colour 31.
#[verifier::external_body]
fn paint_red(text: &str) -> (painted: String)
    ensures
        has_no_escape(text@) ==> shown_in(text@, "31"@, painted@),
{
    colored::Colorize::red(text).to_string()
}

/// [`colored::Colorize::yellow`] and the text of what it gives. Whether
/// colours are on is up to the environment. Either way a text without an
/// escape character comes out shown in the colour 33.
#[verifier::external_body]
fn paint_yellow(text: &str) -> (painted: String)
    ensures
        has_no_escape(text@) ==> shown_in(text@, "33"@, painted@),
{
    colored::Colorize::yellow(text).to_string()
}

/// [`colored::Colorize::green`] and the text of what it gives. Whether
/// colours are on is up to the environment. Either way a text without an
/// escape character comes out shown in the colour 32.
#[verifier::external_body]
fn paint_green(text: &str) -> (painted: String)
    ensures
        has_no_escape(text@) ==> shown_in(text@, "32"@, painted@),
{
    colored::Colorize::green(text).to_string()
}

/// [`colored::Colorize::white`] and the text of what it gives. Whether
/// colours are on is up to the environment. Either way a text without an
/// escape character comes out shown in the colour 37.
#[verifier::external_body]
fn paint_white(text: &str) -> (painted: String)
    ensures
        has_no_escape(text@) ==> shown_in(text@, "37"@, painted@),
{
    colored::Colorize::white(text).to_string()
}

/// The number of the colour of `log_level` on a terminal: 31, red, for an
/// error; 33, yellow, for a warning; 32, green, for an information; 37,
/// white, for the rest.
pub open spec fn colour_code(log_level: LogLevel) -> Seq<char> {
    match log_level {
        LogLevel::Error => "31"@,
        LogLevel::Warn => "33"@,
        LogLevel::Info => "32"@,
        _ => "37"@,
    }
}

/// `text` in the colour of `log_level`: red for an error, yellow for a
/// warning, green for an information, white for the rest. Whether colours
/// are on is up to the environment; what is said holds either way, of a text
/// without an escape character.
pub fn paint(text: &str, log_level: LogLevel) -> (painted: String)
    ensures
        has_no_escape(text@) ==> shown_in(text@, colour_code(log_level), painted@),
{
    match log_level {
        LogLevel::Error => paint_red(text),
        LogLevel::Warn => paint_yellow(text),
        LogLevel::Info => paint_green(text),
        _ => paint_white(text),
    }
}

/// The target that shows lines on the console, each after the name of the
/// logger.
#[derive(Debug)]
pub struct ConsoleTarget {
    pub name: String,
    pub log_level: LogLevel,
    pub pad: usize,
}

impl ConsoleTarget {
    /// A console target for the logger `name` that listens at `log_level`.
    /// Names are shown `MIN_PAD` characters wide, or as wide as `name` is
    /// long.
    pub fn new(name: &str, log_level: LogLevel) -> (r: Self)
        ensures
            r.name@ == name@,
            r.log_level == log_level,
            r.pad == if byte_len(name@) > MIN_PAD {
                byte_len(name@)
            } else {
                MIN_PAD
            },
    {
        ConsoleTarget { name: String::from_str(name), log_level, pad: widen(MIN_PAD, name) }
    }

    /// A console target for the logger `name` that listens at `Info`.
    pub fn default(name: &str) -> (r: Self)
        ensures
            r.name@ == name@,
            r.log_level == LogLevel::Info,
            r.pad == if byte_len(name@) > MIN_PAD {
                byte_len(name@)
            } else {
                MIN_PAD
            },
    {
        ConsoleTarget::new(name, LogLevel::Info)
    }

    /// Shows names at least `pad` characters wide from now on.
    pub fn align(&mut self, pad: usize)
        ensures
            final(self).name == old(self).name,
            final(self).log_level == old(self).log_level,
            final(self).pad == if pad > old(self).pad {
                pad
            } else {
                old(self).pad
            },
    {
        if pad > self.pad {
            self.pad = pad;
        }
    }
}

impl LoggingTarget for ConsoleTarget {
    open spec fn levelled(&self) -> bool {
        true
    }

    open spec fn level(&self) -> LogLevel {
        self.log_level
    }

    open spec fn emits(&self, msg: Seq<char>, log_level: LogLevel, out: Option<Emission>) -> bool {
        &&& out matches Some(Emission::Console { name, message, log_level: level, line, .. })
        &&& name@ == self.name@
        &&& message@ == msg
        &&& level == log_level
        &&& line@ == console_line_spec(self.name@, self.pad as nat, msg)
    }

    fn set_level(&mut self, log_level: LogLevel)
        ensures
            final(self).name == old(self).name,
            final(self).pad == old(self).pad,
    {
        self.log_level = log_level;
    }

    fn get_level(&self) -> (l: LogLevel) {
        self.log_level
    }

    fn log_message(&mut self, msg: &String, log_level: LogLevel) -> (out: Option<Emission>)
        ensures
            *final(self) == *old(self),
    {
        let line = console_line(self.name.as_str(), self.pad, msg.as_str());
        let painted = paint(line.as_str(), log_level);
        Some(
            Emission::Console {
                name: self.name.clone(),
                message: msg.clone(),
                log_level,
                line,
                painted,
            },
        )
    }
}

impl Target {
    /// `console` as a target of any kind.
    pub fn console(console: ConsoleTarget) -> (t: Target)
        ensures
            t.0.levelled(),
            t.0.level() == console.level(),
    {
        Target(Box::new(console))
    }

    /// `rolling_file` as a target of any kind.
    pub fn rolling_file(rolling_file: RollingFileTarget) -> (t: Target)
        ensures
            t.0.levelled(),
            t.0.level() == rolling_file.level(),
    {
        Target(Box::new(rolling_file))
    }
}

/// One step of rolling the files of a logger: the file `from` becomes the
/// file `to`, or is removed where `to` is `None`. A step whose file is not
/// there is passed over.
#[derive(Debug, Clone, Copy, PartialEq, Eq, Structural)]
pub struct FileMove {
    pub from: u8,
    pub to: Option<u8>,
}

/// The steps that roll `rolling_number` files, oldest first: the oldest is
/// removed, and each of the others gets the next number.
pub open spec fn rotation(rolling_number: nat) -> Seq<FileMove> {
    Seq::new(
        rolling_number,
        |k: int|
            FileMove {
                from: (rolling_number - 1 - k) as u8,
                to: if k == 0 {
                    None
                } else {
                    Some((rolling_number - k) as u8)
                },
            },
    )
}

/// The name of file `i` of the logger `name`.
pub open spec fn file_name_spec(name: Seq<char>, i: nat) -> Seq<char> {
    name + "."@ + nat_text(i) + ".log"@
}

/// The line that goes to a file for `msg`, said at the time `stamp`.
pub open spec fn file_line_spec(stamp: Seq<char>, msg: Seq<char>) -> Seq<char> {
    "["@ + stamp + "] "@ + msg
}

/// Writes the line that goes to a file for `msg`, said at the time `stamp`.
pub fn file_line(stamp: &str, msg: &str) -> (line: String)
    ensures
        line@ == file_line_spec(stamp@, msg@),
{
    let mut line = String::from_str("[");
    line.append(stamp);
    line.append("] ");
    line.append(msg);
    line
}

/// [`chrono::Local::now`], written by [`chrono::DateTime::format`] as year,
/// month, day, hour, minute and second. The time is what the clock says, so
/// nothing is said of the result.
#[verifier::external_body]
fn timestamp() -> (stamp: String) {
    chrono::Local::now().format("%Y-%m-%d %H:%M:%S").to_string()
}

/// The target that keeps lines in files. Lines go to file 0 of the logger.
/// Once that file holds `trigger_size` bytes the files are rolled: each gets
/// the next number, the one with the last number is removed, and a new file
/// 0 is begun.
#[derive(Debug)]
pub struct RollingFileTarget {
    pub name: String,
    pub log_level: LogLevel,
    pub trigger_size: u64,
    pub rolling_number: u8,
    /// How many bytes this target has put into file 0; `None` while file 0
    /// is not begun.
    pub written: Option<u64>,
}

/// How many bytes file 0 holds after `bytes` more are put into one that held
/// `held`; no more than a 64-bit word can count.
pub open spec fn grown(held: nat, bytes: nat) -> nat {
    if held + bytes > u64::MAX {
        u64::MAX as nat
    } else {
        held + bytes
    }
}

impl RollingFileTarget {
    /// A rolling file target for the logger `name`: ten files of a
    /// mebibyte, listening at `Debug`.
    pub fn default(name: &str) -> (r: RollingFileTarget)
        ensures
            r.name@ == name@,
            r.trigger_size == 1048576,
            r.rolling_number == 10,
            r.log_level == LogLevel::Debug,
            r.written is None,
    {
        RollingFileTarget::new(name, 1048576, 10, LogLevel::Debug)
    }

    /// A rolling file target for the logger `name`, with no file begun.
    pub fn new(name: &str, trigger_size: u64, rolling_number: u8, log_level: LogLevel) -> (r:
        RollingFileTarget)
        ensures
            r.name@ == name@,
            r.trigger_size == trigger_size,
            r.rolling_number == rolling_number,
            r.log_level == log_level,
            r.written is None,
    {
        RollingFileTarget {
            name: String::from_str(name),
            log_level,
            trigger_size,
            rolling_number,
            written: None,
        }
    }

    /// The steps that roll the files of this target, in the order in which
    /// they are to be taken.
    pub fn rotate(&self) -> (steps: Vec<FileMove>)
        ensures
            steps@ == rotation(self.rolling_number as nat),
    {
        let n = self.rolling_number;
        let mut steps: Vec<FileMove> = Vec::new();
        let mut k: u8 = 0;
        while k < n
            invariant
                k <= n,
                steps@ == rotation(n as nat).take(k as int),
            decreases n - k,
        {
            let to = if k == 0 {
                None
            } else {
                Some(n - k)
            };
            steps.push(FileMove { from: n - 1 - k, to });
            k = k + 1;
        }
        steps
    }

    /// Whether the files are rolled before the next line is written: file 0
    /// is begun and holds `trigger_size` bytes or more.
    pub open spec fn rolls(&self) -> bool {
        self.written matches Some(held) && held >= self.trigger_size
    }

    /// The steps to take before the next line is written: those that roll
    /// the files if they are rolled, none if not.
    pub open spec fn steps(&self) -> Seq<FileMove> {
        if self.rolls() {
            rotation(self.rolling_number as nat)
        } else {
            Seq::empty()
        }
    }

    /// Whether file 0 is begun anew for the next line.
    pub open spec fn begins(&self) -> bool {
        self.written is None || self.rolls()
    }

    /// How many bytes file 0 holds when the next line is written.
    pub open spec fn held(&self) -> nat {
        if self.begins() {
            0
        } else {
            self.written->0 as nat
        }
    }
}

impl LoggingTarget for RollingFileTarget {
    open spec fn levelled(&self) -> bool {
        true
    }

    open spec fn level(&self) -> LogLevel {
        self.log_level
    }

    open spec fn emits(&self, msg: Seq<char>, log_level: LogLevel, out: Option<Emission>) -> bool {
        &&& out matches Some(Emission::File { name, rotate, create, line })
        &&& name@ == self.name@
        &&& rotate@ == self.steps()
        &&& create == self.begins()
        &&& exists|stamp: Seq<char>| line@ == #[trigger] file_line_spec(stamp, msg)
    }

    fn set_level(&mut self, log_level: LogLevel)
        ensures
            final(self).name == old(self).name,
            final(self).trigger_size == old(self).trigger_size,
            final(self).rolling_number == old(self).rolling_number,
            final(self).written == old(self).written,
    {
        self.log_level = log_level
    }

    fn get_level(&self) -> (l: LogLevel) {
        self.log_level
    }

    fn log_message(&mut self, msg: &String, log_level: LogLevel) -> (out: Option<Emission>)
        ensures
            final(self).name == old(self).name,
            final(self).trigger_size == old(self).trigger_size,
            final(self).rolling_number == old(self).rolling_number,
            out matches Some(Emission::File { line, .. }) && final(self).written == Some(
                grown(old(self).held(), byte_len(line@) as nat) as u64,
            ),
    {
        let stamp = timestamp();
        let line = file_line(stamp.as_str(), msg.as_str());
        let rolls = match self.written {
            Some(held) => held >= self.trigger_size,
            None => false,
        };
        let rotate = if rolls {
            self.rotate()
        } else {
            Vec::new()
        };
        let create = rolls || self.written.is_none();
        let held: u64 = if create {
            0
        } else {
            match self.written {
                Some(held) => held,
                None => 0,
            }
        };
        let bytes = line.as_str().len() as u64;
        self.written = Some(
            match held.checked_add(bytes) {
                Some(sum) => sum,
                None => u64::MAX,
            },
        );
        Some(Emission::File { name: self.name.clone(), rotate, create, line })
    }
}

impl RollingFileTarget {
    /// The name of file `i` of this target.
    pub fn file_name(&self, i: u8) -> (s: String)
        ensures
            s@ == file_name_spec(self.name@, i as nat),
    {
        let mut s = self.name.clone();
        s.append(".");
        let number = format_fixed(i as i64, 0);
        s.append(number.as_str());
        s.append(".log");
        proof {
            assert(pow10(0) == 1);
        }
        s
    }
}

} // verus!
