use ash::vk;
use vstd::prelude::*;
use vstd::string::*;

verus! {

/// How serious the backend takes a message to be.
#[derive(Clone, Copy, Debug, PartialEq, Eq, Structural)]
pub enum Severity {
    Verbose,
    Info,
    Warning,
    Error,
    Unknown,
}

/// What a message of the backend is about.
#[derive(Clone, Copy, Debug, PartialEq, Eq, Structural)]
pub enum Category {
    General,
    Validation,
    Performance,
    Unknown,
}

/// The severity a raw severity word stands for. A word names a severity only
/// if it is exactly that severity's bit.
pub open spec fn severity_of(bits: u32) -> Severity {
    if bits == 0x1 {
        Severity::Verbose
    } else if bits == 0x10 {
        Severity::Info
    } else if bits == 0x100 {
        Severity::Warning
    } else if bits == 0x1000 {
        Severity::Error
    } else {
        Severity::Unknown
    }
}

/// The category a raw message-type word stands for. A word names a category
/// only if it is exactly that category's bit.
pub open spec fn category_of(bits: u32) -> Category {
    if bits == 0x1 {
        Category::General
    } else if bits == 0x2 {
        Category::Validation
    } else if bits == 0x4 {
        Category::Performance
    } else {
        Category::Unknown
    }
}

pub open spec fn severity_label(severity: Severity) -> Seq<char> {
    match severity {
        Severity::Verbose => "[Verbose]"@,
        Severity::Info => "[Info]"@,
        Severity::Warning => "[Warning]"@,
        Severity::Error => "[Error]"@,
        Severity::Unknown => "[Unknown]"@,
    }
}

pub open spec fn category_label(category: Category) -> Seq<char> {
    match category {
        Category::General => "[General]"@,
        Category::Validation => "[Validation]"@,
        Category::Performance => "[Performance]"@,
        Category::Unknown => "[Unknown]"@,
    }
}

/// The lower-case hexadecimal digit for a value below 16.
pub open spec fn hex_digit(value: u8) -> char {
    if value < 10 {
        (48 + value) as char
    } else {
        (87 + value) as char
    }
}

/// One byte of a message as it is printed: the usual backslash escapes for
/// tab, carriage return, line feed, the two quotes and the backslash; the byte
/// itself where it is printable ASCII; `\x` and two hexadecimal digits for the
/// rest.
pub open spec fn escaped_byte(byte: u8) -> Seq<char> {
    if byte == 9 {
        seq!['\\', 't']
    } else if byte == 13 {
        seq!['\\', 'r']
    } else if byte == 10 {
        seq!['\\', 'n']
    } else if byte == 39 {
        seq!['\\', '\'']
    } else if byte == 34 {
        seq!['\\', '"']
    } else if byte == 92 {
        seq!['\\', '\\']
    } else if 0x20 <= byte <= 0x7e {
        seq![byte as char]
    } else {
        seq!['\\', 'x', hex_digit(byte / 16), hex_digit(byte % 16)]
    }
}

/// A message, byte after byte, as it is printed.
pub open spec fn escaped(bytes: Seq<u8>) -> Seq<char>
    decreases bytes.len(),
{
    if bytes.len() == 0 {
        Seq::empty()
    } else {
        escaped(bytes.drop_last()) + escaped_byte(bytes.last())
    }
}

/// The line that reports one message of the backend.
pub open spec fn debug_line(severity: Severity, category: Category, message: Seq<u8>) -> Seq<char> {
    "[Debug]"@ + severity_label(severity) + category_label(category) + seq!['"'] + escaped(message)
        + seq!['"']
}

/// Tells apart the severities of `ash::vk::DebugUtilsMessageSeverityFlagsEXT`.
/// ash defines `VERBOSE`, `INFO`, `WARNING` and `ERROR` as bits 0, 4, 8 and 12.
#[verifier::external_body]
fn message_severity(bits: u32) -> (severity: Severity)
    ensures
        severity == severity_of(bits),
{
    match vk::DebugUtilsMessageSeverityFlagsEXT::from_raw(bits) {
        vk::DebugUtilsMessageSeverityFlagsEXT::VERBOSE => Severity::Verbose,
        vk::DebugUtilsMessageSeverityFlagsEXT::INFO => Severity::Info,
        vk::DebugUtilsMessageSeverityFlagsEXT::WARNING => Severity::Warning,
        vk::DebugUtilsMessageSeverityFlagsEXT::ERROR => Severity::Error,
        _ => Severity::Unknown,
    }
}

/// Tells apart the categories of `ash::vk::DebugUtilsMessageTypeFlagsEXT`.
/// ash defines `GENERAL`, `VALIDATION` and `PERFORMANCE` as bits 0, 1 and 2.
#[verifier::external_body]
fn message_category(bits: u32) -> (category: Category)
    ensures
        category == category_of(bits),
{
    match vk::DebugUtilsMessageTypeFlagsEXT::from_raw(bits) {
        vk::DebugUtilsMessageTypeFlagsEXT::GENERAL => Category::General,
        vk::DebugUtilsMessageTypeFlagsEXT::VALIDATION => Category::Validation,
        vk::DebugUtilsMessageTypeFlagsEXT::PERFORMANCE => Category::Performance,
        _ => Category::Unknown,
    }
}

/// `String::push` appends the given character and changes nothing else.
pub assume_specification[ String::push ](text: &mut String, ch: char)
    ensures
        final(text)@ == old(text)@.push(ch),
;

fn severity_text(severity: Severity) -> (text: &'static str)
    ensures
        text@ == severity_label(severity),
{
    match severity {
        Severity::Verbose => "[Verbose]",
        Severity::Info => "[Info]",
        Severity::Warning => "[Warning]",
        Severity::Error => "[Error]",
        Severity::Unknown => "[Unknown]",
    }
}

fn category_text(category: Category) -> (text: &'static str)
    ensures
        text@ == category_label(category),
{
    match category {
        Category::General => "[General]",
        Category::Validation => "[Validation]",
        Category::Performance => "[Performance]",
        Category::Unknown => "[Unknown]",
    }
}

fn hex_digit_char(value: u8) -> (digit: char)
    requires
        value < 16,
    ensures
        digit == hex_digit(value),
{
    if value < 10 {
        (48 + value) as char
    } else {
        (87 + value) as char
    }
}

/// Appends one byte of a message to `line`, escaped for printing.
fn push_escaped_byte(line: &mut String, byte: u8)
    ensures
        final(line)@ == old(line)@ + escaped_byte(byte),
{
    if byte == 9 {
        line.push('\\');
        line.push('t');
    } else if byte == 13 {
        line.push('\\');
        line.push('r');
    } else if byte == 10 {
        line.push('\\');
        line.push('n');
    } else if byte == 39 {
        line.push('\\');
        line.push('\'');
    } else if byte == 34 {
        line.push('\\');
        line.push('"');
    } else if byte == 92 {
        line.push('\\');
        line.push('\\');
    } else if 0x20 <= byte && byte <= 0x7e {
        line.push(byte as char);
    } else {
        line.push('\\');
        line.push('x');
        line.push(hex_digit_char(byte / 16));
        line.push(hex_digit_char(byte % 16));
    }
    assert(line@ =~= old(line)@ + escaped_byte(byte));
}

/// Formats one message of the backend for the log: the fixed tag, the
/// severity and the category in brackets, and the message between double
/// quotes with its bytes escaped.
pub fn format_debug_message(message_severity: u32, message_type: u32, message: &[u8]) -> (line:
    String)
    ensures
        line@ == debug_line(severity_of(message_severity), category_of(message_type), message@),
{
    let severity = self::message_severity(message_severity);
    let category = message_category(message_type);
    let mut line = String::from_str("[Debug]");
    line.append(severity_text(severity));
    line.append(category_text(category));
    line.push('"');
    let ghost head = line@;
    let mut i: usize = 0;
    while i < message.len()
        invariant
            i <= message.len(),
            line@ == head + escaped(message@.take(i as int)),
        decreases message.len() - i,
    {
        push_escaped_byte(&mut line, message[i]);
        proof {
            assert(message@.take(i + 1).drop_last() =~= message@.take(i as int));
            assert(message@.take(i + 1).last() == message@[i as int]);
            assert(line@ =~= head + escaped(message@.take(i + 1)));
        }
        i = i + 1;
    }
    assert(message@.take(message.len() as int) =~= message@);
    line.push('"');
    assert(line@ =~= debug_line(severity, category, message@));
    line
}

/// Whether the backend is to abort the call that raised the message. The
/// sink only logs: whatever the message, the call goes on.
pub fn aborts_call(message_severity: u32, message_type: u32) -> (abort: bool)
    ensures
        !abort,
{
    false
}

} // verus!
