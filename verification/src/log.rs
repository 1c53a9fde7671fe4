//! Log signal configuration.

use vstd::prelude::*;

verus! {

/// Configuration of the log signal.
#[derive(Debug, Clone)]
pub struct LogConfig {
    /// The most verbose level that is emitted.
    pub level: LogLevel,
    /// Modules, besides the service itself, whose records are emitted.
    pub extra_modules: Vec<String>,
}

/// Log verbosity, from least to most verbose.
#[derive(Debug, Clone, Copy, PartialEq, Eq, Structural)]
pub enum LogLevel {
    Error,
    Warn,
    Info,
    Debug,
    Trace,
}

impl Default for LogLevel {
    fn default() -> (r: Self)
        ensures
            r == LogLevel::Info,
    {
        LogLevel::Info
    }
}

impl LogConfig {
    /// True for the configuration that `default` builds.
    pub open spec fn is_default(self) -> bool {
        self.level == LogLevel::Info && self.extra_modules@.len() == 0
    }

    /// The module targets whose records pass the filter at `level`: the
    /// service itself, then each extra module in order.
    pub fn filter_targets(&self, service_name: &str) -> (r: Vec<String>)
        ensures
            r@.len() == self.extra_modules@.len() + 1,
            r@[0]@ == service_name@,
            forall|i: int| 0 <= i < self.extra_modules@.len() ==> #[trigger] r@[i + 1]@ == self.extra_modules@[i]@,
    {
        let mut targets: Vec<String> = Vec::new();
        targets.push(service_name.to_owned());
        let mut i: usize = 0;
        while i < self.extra_modules.len()
            invariant
                i <= self.extra_modules@.len(),
                targets@.len() == i + 1,
                targets@[0]@ == service_name@,
                forall|j: int| 0 <= j < i ==> #[trigger] targets@[j + 1]@ == self.extra_modules@[j]@,
            decreases self.extra_modules@.len() - i,
        {
            targets.push(self.extra_modules[i].clone());
            i = i + 1;
        }
        targets
    }
}

impl Default for LogConfig {
    fn default() -> (r: Self)
        ensures
            r.is_default(),
    {
        LogConfig { level: LogLevel::default(), extra_modules: Vec::new() }
    }
}

/// Colors of the console log output.
#[derive(Debug, Clone, Copy, PartialEq, Eq, Structural)]
pub enum ConsoleColor {
    Red,
    Yellow,
    Green,
    Blue,
    BrightWhite,
}

/// The color in which a level's label is printed.
pub open spec fn level_color(level: LogLevel) -> ConsoleColor {
    match level {
        LogLevel::Error => ConsoleColor::Red,
        LogLevel::Warn => ConsoleColor::Yellow,
        LogLevel::Info => ConsoleColor::Green,
        LogLevel::Debug => ConsoleColor::Blue,
        LogLevel::Trace => ConsoleColor::BrightWhite,
    }
}

/// The label of a level, padded to five characters.
pub open spec fn level_label(level: LogLevel) -> Seq<char> {
    match level {
        LogLevel::Error => "ERROR"@,
        LogLevel::Warn => "WARN "@,
        LogLevel::Info => "INFO "@,
        LogLevel::Debug => "DEBUG"@,
        LogLevel::Trace => "TRACE"@,
    }
}

/// Law: every level label is five characters wide, and no two levels share
/// a label or a color.
pub proof fn law_level_labels_distinct(level: LogLevel, other: LogLevel)
    ensures
        level_label(level).len() == 5,
        level != other ==> level_label(level) != level_label(other) && level_color(level) != level_color(other),
{
    reveal_strlit("ERROR");
    reveal_strlit("WARN ");
    reveal_strlit("INFO ");
    reveal_strlit("DEBUG");
    reveal_strlit("TRACE");
    if level != other {
        assert(level_label(level)[0] != level_label(other)[0]);
    }
}

/// How a segment of a console log line is printed: the timestamp in italic
/// black, the service name in bold black, the level label in its level's
/// color, the rest unstyled.
#[derive(Debug, Clone, Copy, PartialEq, Eq, Structural)]
pub enum ConsoleStyle {
    Timestamp,
    ServiceName,
    Level(ConsoleColor),
    Plain,
}

/// The location part of a console line: the module path in brackets, or
/// nothing without one.
pub open spec fn location(module: Option<Seq<char>>) -> Seq<char> {
    match module {
        Some(m) => "["@ + m + "]"@,
        None => Seq::<char>::empty(),
    }
}

/// The segments of a console line, by their views.
pub open spec fn console_line_segments(
    timestamp: Seq<char>,
    service_name: Seq<char>,
    level: LogLevel,
    module: Option<Seq<char>>,
    message: Seq<char>,
) -> Seq<(ConsoleStyle, Seq<char>)> {
    seq![
        (ConsoleStyle::Timestamp, timestamp),
        (ConsoleStyle::Plain, " ["@),
        (ConsoleStyle::ServiceName, service_name),
        (ConsoleStyle::Plain, ":"@),
        (ConsoleStyle::Level(level_color(level)), level_label(level)),
        (ConsoleStyle::Plain, "] "@ + location(module) + " "@ + message + "\n"@),
    ]
}

/// Law: the level shows only in the level label; the rest of a console line
/// is the same at every level, and its last segment is `] `, the module path
/// in brackets where there is one, a space, the message and a line break.
pub proof fn law_console_line_level_only_in_label(
    timestamp: Seq<char>,
    service_name: Seq<char>,
    level: LogLevel,
    other: LogLevel,
    module: Option<Seq<char>>,
    message: Seq<char>,
)
    ensures
        console_line_segments(timestamp, service_name, level, module, message).len() == 6,
        forall|i: int| 0 <= i < 6 && i != 4
            ==> #[trigger] console_line_segments(timestamp, service_name, level, module, message)[i]
                == console_line_segments(timestamp, service_name, other, module, message)[i],
        console_line_segments(timestamp, service_name, level, module, message)[5] == (ConsoleStyle::Plain,
            match module {
                Some(m) => "] ["@ + m + "] "@ + message + "\n"@,
                None => "]  "@ + message + "\n"@,
            }),
{
    reveal_strlit("] ");
    reveal_strlit("] [");
    reveal_strlit("[");
    reveal_strlit("]");
    reveal_strlit(" ");
    reveal_strlit("] ");
    reveal_strlit("]  ");
    let tail = console_line_segments(timestamp, service_name, level, module, message)[5].1;
    match module {
        Some(m) => {
            assert(tail =~= "] ["@ + m + "] "@ + message + "\n"@);
        },
        None => {
            assert(tail =~= "]  "@ + message + "\n"@);
        },
    }
}

/// The views of styled text segments.
pub open spec fn segments_view(v: Seq<(ConsoleStyle, String)>) -> Seq<(ConsoleStyle, Seq<char>)> {
    v.map_values(|p: (ConsoleStyle, String)| (p.0, p.1@))
}

fn label(level: LogLevel) -> (r: &'static str)
    ensures
        r@ == level_label(level),
{
    match level {
        LogLevel::Error => "ERROR",
        LogLevel::Warn => "WARN ",
        LogLevel::Info => "INFO ",
        LogLevel::Debug => "DEBUG",
        LogLevel::Trace => "TRACE",
    }
}

fn color(level: LogLevel) -> (r: ConsoleColor)
    ensures
        r == level_color(level),
{
    match level {
        LogLevel::Error => ConsoleColor::Red,
        LogLevel::Warn => ConsoleColor::Yellow,
        LogLevel::Info => ConsoleColor::Green,
        LogLevel::Debug => ConsoleColor::Blue,
        LogLevel::Trace => ConsoleColor::BrightWhite,
    }
}

/// One console log line, as styled segments: timestamp, ` [`, service
/// name, `:`, the level label, then `] `, the location, a space, the message
/// and a line break.
pub fn console_line(
    timestamp: &str,
    service_name: &str,
    level: LogLevel,
    module: Option<&str>,
    message: &str,
) -> (r: Vec<(ConsoleStyle, String)>)
    ensures
        segments_view(r@) == console_line_segments(
            timestamp@,
            service_name@,
            level,
            match module {
                Some(m) => Some(m@),
                None => None,
            },
            message@,
        ),
{
    let mut tail = "] ".to_owned();
    match module {
        Some(m) => {
            tail.append("[");
            tail.append(m);
            tail.append("]");
        },
        None => {},
    }
    tail.append(" ");
    tail.append(message);
    tail.append("\n");
    let mut line: Vec<(ConsoleStyle, String)> = Vec::new();
    line.push((ConsoleStyle::Timestamp, timestamp.to_owned()));
    line.push((ConsoleStyle::Plain, " [".to_owned()));
    line.push((ConsoleStyle::ServiceName, service_name.to_owned()));
    line.push((ConsoleStyle::Plain, ":".to_owned()));
    line.push((ConsoleStyle::Level(color(level)), label(level).to_owned()));
    line.push((ConsoleStyle::Plain, tail));
    let ghost mp = match module {
        Some(m) => Some(m@),
        None => None::<Seq<char>>,
    };
    assert(tail@ =~= "] "@ + location(mp) + " "@ + message@ + "\n"@);
    assert(segments_view(line@) =~= console_line_segments(timestamp@, service_name@, level, mp, message@));
    line
}

} // verus!
