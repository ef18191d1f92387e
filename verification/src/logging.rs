//! Log messages that the native renderer reports, turned into log records.

use vstd::prelude::*;

verus! {

/// MapVina Native Event Severity levels
#[derive(Debug, Clone, Copy, PartialEq, Eq, Hash, Structural)]
pub enum EventSeverity {
    /// Debug severity level.
    Debug,
    /// Info severity level.
    Info,
    /// Warning severity level.
    Warning,
    /// Error severity level.
    Error,
}

impl EventSeverity {
    /// The severity that the native renderer reports with this number, if it defines one.
    pub open spec fn spec_from_repr(repr: u8) -> Option<Self> {
        if repr == 0 {
            Some(EventSeverity::Debug)
        } else if repr == 1 {
            Some(EventSeverity::Info)
        } else if repr == 2 {
            Some(EventSeverity::Warning)
        } else if repr == 3 {
            Some(EventSeverity::Error)
        } else {
            None
        }
    }

    /// The severity that the native renderer reports with this number, if it defines one.
    pub fn from_repr(repr: u8) -> (s: Option<Self>)
        ensures
            s == Self::spec_from_repr(repr),
    {
        if repr == 0 {
            Some(EventSeverity::Debug)
        } else if repr == 1 {
            Some(EventSeverity::Info)
        } else if repr == 2 {
            Some(EventSeverity::Warning)
        } else if repr == 3 {
            Some(EventSeverity::Error)
        } else {
            None
        }
    }
}

/// MapVina Native Event types
#[derive(Debug, Clone, Copy, PartialEq, Eq, Hash, Structural)]
pub enum Event {
    /// General event.
    General,
    /// Setup event.
    Setup,
    /// Shader event.
    Shader,
    /// Style parsing event.
    ParseStyle,
    /// Tile parsing event.
    ParseTile,
    /// Render event.
    Render,
    /// Style event.
    Style,
    /// Database event.
    Database,
    /// HTTP request event.
    HttpRequest,
    /// Sprite event.
    Sprite,
    /// Image event.
    Image,
    /// OpenGL event.
    OpenGL,
    /// JNI event.
    JNI,
    /// Android event.
    Android,
    /// Crash event.
    Crash,
    /// Glyph event.
    Glyph,
    /// Timing event.
    Timing,
}

impl Event {
    /// The event that the native renderer reports with this number, if it defines one.
    pub open spec fn spec_from_repr(repr: u8) -> Option<Self> {
        if repr == 0 {
            Some(Event::General)
        } else if repr == 1 {
            Some(Event::Setup)
        } else if repr == 2 {
            Some(Event::Shader)
        } else if repr == 3 {
            Some(Event::ParseStyle)
        } else if repr == 4 {
            Some(Event::ParseTile)
        } else if repr == 5 {
            Some(Event::Render)
        } else if repr == 6 {
            Some(Event::Style)
        } else if repr == 7 {
            Some(Event::Database)
        } else if repr == 8 {
            Some(Event::HttpRequest)
        } else if repr == 9 {
            Some(Event::Sprite)
        } else if repr == 10 {
            Some(Event::Image)
        } else if repr == 11 {
            Some(Event::OpenGL)
        } else if repr == 12 {
            Some(Event::JNI)
        } else if repr == 13 {
            Some(Event::Android)
        } else if repr == 14 {
            Some(Event::Crash)
        } else if repr == 15 {
            Some(Event::Glyph)
        } else if repr == 16 {
            Some(Event::Timing)
        } else {
            None
        }
    }

    /// The event that the native renderer reports with this number, if it defines one.
    pub fn from_repr(repr: u8) -> (e: Option<Self>)
        ensures
            e == Self::spec_from_repr(repr),
    {
        if repr == 0 {
            Some(Event::General)
        } else if repr == 1 {
            Some(Event::Setup)
        } else if repr == 2 {
            Some(Event::Shader)
        } else if repr == 3 {
            Some(Event::ParseStyle)
        } else if repr == 4 {
            Some(Event::ParseTile)
        } else if repr == 5 {
            Some(Event::Render)
        } else if repr == 6 {
            Some(Event::Style)
        } else if repr == 7 {
            Some(Event::Database)
        } else if repr == 8 {
            Some(Event::HttpRequest)
        } else if repr == 9 {
            Some(Event::Sprite)
        } else if repr == 10 {
            Some(Event::Image)
        } else if repr == 11 {
            Some(Event::OpenGL)
        } else if repr == 12 {
            Some(Event::JNI)
        } else if repr == 13 {
            Some(Event::Android)
        } else if repr == 14 {
            Some(Event::Crash)
        } else if repr == 15 {
            Some(Event::Glyph)
        } else if repr == 16 {
            Some(Event::Timing)
        } else {
            None
        }
    }

    /// The name of this event, as its `Debug` form prints it.
    pub open spec fn spec_name(self) -> Seq<char> {
        match self {
            Event::General => "General"@,
            Event::Setup => "Setup"@,
            Event::Shader => "Shader"@,
            Event::ParseStyle => "ParseStyle"@,
            Event::ParseTile => "ParseTile"@,
            Event::Render => "Render"@,
            Event::Style => "Style"@,
            Event::Database => "Database"@,
            Event::HttpRequest => "HttpRequest"@,
            Event::Sprite => "Sprite"@,
            Event::Image => "Image"@,
            Event::OpenGL => "OpenGL"@,
            Event::JNI => "JNI"@,
            Event::Android => "Android"@,
            Event::Crash => "Crash"@,
            Event::Glyph => "Glyph"@,
            Event::Timing => "Timing"@,
        }
    }

    /// The name of this event, as its `Debug` form prints it.
    pub fn name(self) -> (n: &'static str)
        ensures
            n@ == self.spec_name(),
    {
        proof {
            reveal_strlit("General");
            reveal_strlit("Setup");
            reveal_strlit("Shader");
            reveal_strlit("ParseStyle");
            reveal_strlit("ParseTile");
            reveal_strlit("Render");
            reveal_strlit("Style");
            reveal_strlit("Database");
            reveal_strlit("HttpRequest");
            reveal_strlit("Sprite");
            reveal_strlit("Image");
            reveal_strlit("OpenGL");
            reveal_strlit("JNI");
            reveal_strlit("Android");
            reveal_strlit("Crash");
            reveal_strlit("Glyph");
            reveal_strlit("Timing");
        }
        match self {
            Event::General => "General",
            Event::Setup => "Setup",
            Event::Shader => "Shader",
            Event::ParseStyle => "ParseStyle",
            Event::ParseTile => "ParseTile",
            Event::Render => "Render",
            Event::Style => "Style",
            Event::Database => "Database",
            Event::HttpRequest => "HttpRequest",
            Event::Sprite => "Sprite",
            Event::Image => "Image",
            Event::OpenGL => "OpenGL",
            Event::JNI => "JNI",
            Event::Android => "Android",
            Event::Crash => "Crash",
            Event::Glyph => "Glyph",
            Event::Timing => "Timing",
        }
    }
}

/// The decimal digit character for a value below ten.
pub open spec fn digit_char(d: int) -> char {
        if d == 0 {
            '0'
        } else if d == 1 {
            '1'
        } else if d == 2 {
            '2'
        } else if d == 3 {
            '3'
        } else if d == 4 {
            '4'
        } else if d == 5 {
            '5'
        } else if d == 6 {
            '6'
        } else if d == 7 {
            '7'
        } else if d == 8 {
            '8'
        } else if d == 9 {
            '9'
        } else {
            '9'
        }
}

/// The decimal representation of a natural number, without leading zeros.
pub open spec fn decimal(n: nat) -> Seq<char>
    decreases n,
{
    if n < 10 {
        seq![digit_char(n as int)]
    } else {
        decimal(n / 10).push(digit_char((n % 10) as int))
    }
}

/// The decimal representation of an integer, with a leading `-` when negative.
pub open spec fn signed_decimal(n: int) -> Seq<char> {
    if n < 0 {
        seq!['-'] + decimal((-n) as nat)
    } else {
        decimal(n as nat)
    }
}

fn digit_str(d: u64) -> (s: &'static str)
    requires
        d < 10,
    ensures
        s@ == seq![digit_char(d as int)],
{
    proof {
        reveal_strlit("0");
        reveal_strlit("1");
        reveal_strlit("2");
        reveal_strlit("3");
        reveal_strlit("4");
        reveal_strlit("5");
        reveal_strlit("6");
        reveal_strlit("7");
        reveal_strlit("8");
        reveal_strlit("9");
    }
        if d == 0 {
            "0"
        } else if d == 1 {
            "1"
        } else if d == 2 {
            "2"
        } else if d == 3 {
            "3"
        } else if d == 4 {
            "4"
        } else if d == 5 {
            "5"
        } else if d == 6 {
            "6"
        } else if d == 7 {
            "7"
        } else if d == 8 {
            "8"
        } else if d == 9 {
            "9"
        } else {
            "9"
        }
}

/// Appends the decimal representation of `n` to `s`.
fn push_decimal(s: &mut String, n: u64)
    ensures
        final(s)@ == old(s)@ + decimal(n as nat),
    decreases n,
{
    if n >= 10 {
        push_decimal(s, n / 10);
    }
    s.append(digit_str(n % 10));
    proof {
        if n >= 10 {
            assert(old(s)@ + decimal(n as nat) =~= old(s)@ + decimal((n / 10) as nat) + seq![
                digit_char((n % 10) as int),
            ]);
        }
    }
}

/// Appends the decimal representation of the signed `n` to `s`.
fn push_signed_decimal(s: &mut String, n: i64)
    ensures
        final(s)@ == old(s)@ + signed_decimal(n as int),
{
    if n < 0 {
        proof {
            reveal_strlit("-");
        }
        s.append("-");
        let magnitude: u64 = ((-(n + 1)) as u64) + 1;
        push_decimal(s, magnitude);
        proof {
            assert(old(s)@ + signed_decimal(n as int) =~= old(s)@ + seq!['-'] + decimal(
                magnitude as nat,
            ));
        }
    } else {
        push_decimal(s, n as u64);
    }
}

/// The number that a string of decimal digits denotes.
pub open spec fn decimal_value(s: Seq<char>) -> int
    decreases s.len(),
{
    if s.len() == 0 {
        0
    } else {
        10 * decimal_value(s.drop_last()) + (s.last() as int - '0' as int)
    }
}

/// Whether a character is a decimal digit.
pub open spec fn is_digit(c: char) -> bool {
    '0' as int <= c as int <= '9' as int
}

proof fn lemma_digit_char(d: int)
    requires
        0 <= d < 10,
    ensures
        digit_char(d) as int - '0' as int == d,
        is_digit(digit_char(d)),
{
}

/// The decimal text of a number is made of digits, starts with a digit other
/// than zero unless the number is zero, and reads back as that number.
pub proof fn lemma_decimal_reads_back(n: nat)
    ensures
        decimal(n).len() >= 1,
        forall|i: int| 0 <= i < decimal(n).len() ==> is_digit(#[trigger] decimal(n)[i]),
        decimal_value(decimal(n)) == n,
        n > 0 ==> decimal(n)[0] != '0',
        n == 0 ==> decimal(n) == seq!['0'],
    decreases n,
{
    if n >= 10 {
        lemma_decimal_reads_back(n / 10);
        lemma_digit_char((n % 10) as int);
        let d = decimal(n);
        assert(d.drop_last() =~= decimal(n / 10));
        assert(d[0] == decimal(n / 10)[0]);
        assert(d.last() == digit_char((n % 10) as int));
        assert(n == 10 * (n / 10) + n % 10);
        assert(decimal_value(d) == 10 * decimal_value(d.drop_last()) + (d.last() as int
            - '0' as int));
    } else {
        lemma_digit_char(n as int);
        let d = decimal(n);
        assert(d.drop_last() =~= Seq::<char>::empty());
        assert(decimal_value(d.drop_last()) == 0);
        assert(decimal_value(d) == 10 * decimal_value(d.drop_last()) + (d.last() as int
            - '0' as int));
    }
}

/// The text of a signed number is a `-` sign exactly when it is negative,
/// followed by the decimal text of its magnitude.
pub proof fn lemma_signed_decimal_reads_back(n: int)
    ensures
        n < 0 ==> signed_decimal(n)[0] == '-' && signed_decimal(n).drop_first() == decimal(
            (-n) as nat,
        ),
        n >= 0 ==> signed_decimal(n) == decimal(n as nat),
        n < 0 ==> -decimal_value(signed_decimal(n).drop_first()) == n,
        n >= 0 ==> decimal_value(signed_decimal(n)) == n,
{
    if n < 0 {
        lemma_decimal_reads_back((-n) as nat);
        assert((seq!['-'] + decimal((-n) as nat)).drop_first() =~= decimal((-n) as nat));
    } else {
        lemma_decimal_reads_back(n as nat);
    }
}

/// A logged message keeps its text whole at the end; for every severity the
/// native renderer defines, the text is the event, ` (code=`, the code in
/// decimal, `) ` and the message, the same whichever defined severity it has;
/// and the level is the one of that severity (errors for any other number).
pub proof fn lemma_log_record_shape(
    severity: u8,
    other: u8,
    event: u8,
    code: i64,
    message: Seq<char>,
)
    ensures
        log_text(severity, event, code, message).len() >= message.len(),
        log_text(severity, event, code, message).subrange(
            log_text(severity, event, code, message).len() - message.len(),
            log_text(severity, event, code, message).len() as int,
        ) == message,
        severity <= 3 ==> log_text(severity, event, code, message) == event_text(event)
            + " (code="@ + signed_decimal(code as int) + ") "@ + message,
        severity <= 3 && other <= 3 ==> log_text(severity, event, code, message) == log_text(
            other,
            event,
            code,
            message,
        ),
        severity == 0 ==> log_level_for(severity) == LogLevel::Debug,
        severity == 1 ==> log_level_for(severity) == LogLevel::Info,
        severity == 2 ==> log_level_for(severity) == LogLevel::Warn,
        severity >= 3 ==> log_level_for(severity) == LogLevel::Error,
{
    let t = log_text(severity, event, code, message);
    let head = t.subrange(0, t.len() - message.len());
    assert(t.subrange(t.len() - message.len(), t.len() as int) =~= message);
}

/// The name of every event the native renderer defines is shown as printed
/// by `Debug`, and every other number as `Event(<number>)`.
pub proof fn lemma_event_text(event: u8)
    ensures
        event == 0 ==> event_text(event) == "General"@,
        event == 3 ==> event_text(event) == "ParseStyle"@,
        event == 8 ==> event_text(event) == "HttpRequest"@,
        event == 16 ==> event_text(event) == "Timing"@,
        event > 16 ==> event_text(event) == "Event("@ + decimal(event as nat) + ")"@,
        Event::spec_from_repr(event) is Some <==> event <= 16,
{
}

/// The level at which a message of the native renderer is logged.
#[derive(Debug, Clone, Copy, PartialEq, Eq, Structural)]
pub enum LogLevel {
    /// Debug messages.
    Debug,
    /// Informational messages.
    Info,
    /// Warnings.
    Warn,
    /// Errors.
    Error,
}

/// A message of the native renderer, ready to be logged.
#[derive(Debug)]
pub struct LogRecord {
    /// The level to log at.
    pub level: LogLevel,
    /// The text to log.
    pub text: String,
}

/// The level for a severity that the native renderer reports with this
/// number; severities it does not define are logged as errors.
pub open spec fn log_level_for(severity: u8) -> LogLevel {
    match EventSeverity::spec_from_repr(severity) {
        Some(EventSeverity::Debug) => LogLevel::Debug,
        Some(EventSeverity::Info) => LogLevel::Info,
        Some(EventSeverity::Warning) => LogLevel::Warn,
        Some(EventSeverity::Error) => LogLevel::Error,
        None => LogLevel::Error,
    }
}

/// How an event that the native renderer reports with this number is shown:
/// its name, or `Event(<number>)` for numbers it does not define.
pub open spec fn event_text(event: u8) -> Seq<char> {
    match Event::spec_from_repr(event) {
        Some(e) => e.spec_name(),
        None => "Event("@ + decimal(event as nat) + ")"@,
    }
}

/// The logged text for a message: the event, the code (and the severity when
/// it is not one the renderer defines), then the message itself.
pub open spec fn log_text(severity: u8, event: u8, code: i64, message: Seq<char>) -> Seq<char> {
    match EventSeverity::spec_from_repr(severity) {
        Some(_) => event_text(event) + " (code="@ + signed_decimal(code as int) + ") "@ + message,
        None => event_text(event) + " (severity="@ + decimal(severity as nat) + ", code="@
            + signed_decimal(code as int) + ") "@ + message,
    }
}

fn push_event_text(s: &mut String, event: u8)
    ensures
        final(s)@ == old(s)@ + event_text(event),
{
    proof {
        reveal_strlit("Event(");
        reveal_strlit(")");
    }
    match Event::from_repr(event) {
        Some(e) => s.append(e.name()),
        None => {
            s.append("Event(");
            push_decimal(s, event as u64);
            s.append(")");
            proof {
                assert(final(s)@ =~= old(s)@ + event_text(event));
            }
        },
    }
}

/// Turns a message that the native renderer reports into the record to log:
/// the level follows the severity, and the text shows the event, the code
/// and the message.
pub fn log_from_cpp(severity: u8, event: u8, code: i64, message: &str) -> (record: LogRecord)
    ensures
        record.level == log_level_for(severity),
        record.text@ == log_text(severity, event, code, message@),
        record.text@.len() >= message@.len(),
        record.text@.subrange(record.text@.len() - message@.len(), record.text@.len() as int)
            == message@,
{
    proof {
        reveal_strlit(" (code=");
        reveal_strlit(") ");
        reveal_strlit(" (severity=");
        reveal_strlit(", code=");
    }
    let mut text = String::new();
    push_event_text(&mut text, event);
    let level = match EventSeverity::from_repr(severity) {
        Some(known) => {
            text.append(" (code=");
            push_signed_decimal(&mut text, code);
            match known {
                EventSeverity::Debug => LogLevel::Debug,
                EventSeverity::Info => LogLevel::Info,
                EventSeverity::Warning => LogLevel::Warn,
                EventSeverity::Error => LogLevel::Error,
            }
        },
        None => {
            text.append(" (severity=");
            push_decimal(&mut text, severity as u64);
            text.append(", code=");
            push_signed_decimal(&mut text, code);
            LogLevel::Error
        },
    };
    text.append(") ");
    text.append(message);
    proof {
        assert(text@ =~= log_text(severity, event, code, message@));
        lemma_log_record_shape(severity, severity, event, code, message@);
    }
    LogRecord { level, text }
}

} // verus!
