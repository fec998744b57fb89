//! The cellular modem: the lines that it answers with.
//!
//! The modem is asked with AT commands and answers with lines of the form
//! `+KEY: value,value,...`. A line is read as bytes. White space means the
//! white space of ASCII; a colon parts the key from the value, and a comma
//! parts the fields of a value.

use vstd::prelude::*;

verus! {

/// How long to wait between two commands, in milliseconds.
pub const COMMAND_PAUSE_MS: u64 = 200;

/// How many commands one round of questions has.
pub const COMMANDS_PER_ROUND: usize = 4;

/// A stretch of a line: the bytes from `from` up to, not including, `to`.
#[derive(Clone, Copy, Debug, PartialEq, Eq, Structural)]
pub struct Span {
    pub from: usize,
    pub to: usize,
}

/// What a line of the modem says.
#[derive(Clone, Copy, Debug, PartialEq, Eq, Structural)]
pub enum LteSentence {
    /// Nothing to report: an empty key, an `OK`, or the echo of a command.
    Ignored,
    /// `+CPSI`: the network mode is the text of the span.
    NetworkMode(Span),
    /// `+CSQ`: the signal quality is the number in the span.
    SignalQuality(Span),
    /// `+CPMUTEMP`: the module's temperature is the number in the span.
    ModuleTemperature(Span),
    /// `+CBC`: the module's voltage is the number in the span, followed by
    /// the letter `V`.
    ModuleVoltage(Span),
    /// One of the four keys above, but no colon after it, so no value.
    MissingValue,
    /// Any other line. It is reported as it is.
    Unknown,
}

/// Whether a byte is white space.
pub open spec fn spec_is_space(byte: u8) -> bool {
    byte == 0x20 || 0x09 <= byte <= 0x0D
}

/// The first position from `from` and before `to` where `mark` stands, or
/// `to` if it stands nowhere there.
pub open spec fn spec_find(line: Seq<u8>, from: int, to: int, mark: u8) -> int
    decreases to - from,
{
    if from >= to {
        to
    } else if line[from] == mark {
        from
    } else {
        spec_find(line, from + 1, to, mark)
    }
}

/// The first position from `from` and before `to` where no white space
/// stands, or `to` if there is nothing but white space.
pub open spec fn spec_skip_spaces(line: Seq<u8>, from: int, to: int) -> int
    decreases to - from,
{
    if from >= to {
        to
    } else if !spec_is_space(line[from]) {
        from
    } else {
        spec_skip_spaces(line, from + 1, to)
    }
}

/// The position after the last byte before `to` and not before `from` that
/// is no white space, or `from` if there is nothing but white space.
pub open spec fn spec_drop_spaces(line: Seq<u8>, from: int, to: int) -> int
    decreases to - from,
{
    if to <= from {
        from
    } else if !spec_is_space(line[to - 1]) {
        to
    } else {
        spec_drop_spaces(line, from, to - 1)
    }
}

/// The stretch from `from` to `to` without the white space at its ends.
pub open spec fn spec_trimmed(line: Seq<u8>, from: int, to: int) -> (int, int) {
    let start = spec_skip_spaces(line, from, to);
    (start, spec_drop_spaces(line, start, to))
}

/// The key of a line: what stands before the first colon, trimmed.
pub open spec fn spec_key(line: Seq<u8>) -> (int, int) {
    spec_trimmed(line, 0, spec_find(line, 0, line.len() as int, 0x3A))
}

/// Whether a colon follows the key.
pub open spec fn spec_has_value(line: Seq<u8>) -> bool {
    spec_find(line, 0, line.len() as int, 0x3A) < line.len()
}

/// The value of a line: what stands between the first colon and the second,
/// or the end, trimmed.
pub open spec fn spec_value(line: Seq<u8>) -> (int, int) {
    let colon = spec_find(line, 0, line.len() as int, 0x3A);
    spec_trimmed(line, colon + 1, spec_find(line, colon + 1, line.len() as int, 0x3A))
}

/// The first field of the value: what stands before its first comma.
pub open spec fn spec_first_field(line: Seq<u8>) -> (int, int) {
    let value = spec_value(line);
    (value.0, spec_find(line, value.0, value.1, 0x2C))
}

/// `OK`
pub open spec fn word_ok() -> Seq<u8> {
    seq![0x4Fu8, 0x4Bu8]
}

/// `AT+`
pub open spec fn word_at() -> Seq<u8> {
    seq![0x41u8, 0x54u8, 0x2Bu8]
}

/// `+CPSI`
pub open spec fn word_cpsi() -> Seq<u8> {
    seq![0x2Bu8, 0x43u8, 0x50u8, 0x53u8, 0x49u8]
}

/// `+CSQ`
pub open spec fn word_csq() -> Seq<u8> {
    seq![0x2Bu8, 0x43u8, 0x53u8, 0x51u8]
}

/// `+CPMUTEMP`
pub open spec fn word_cpmutemp() -> Seq<u8> {
    seq![0x2Bu8, 0x43u8, 0x50u8, 0x4Du8, 0x55u8, 0x54u8, 0x45u8, 0x4Du8, 0x50u8]
}

/// `+CBC`
pub open spec fn word_cbc() -> Seq<u8> {
    seq![0x2Bu8, 0x43u8, 0x42u8, 0x43u8]
}

/// Whether the stretch from `from` to `to` starts with `word`.
pub open spec fn spec_starts_with(line: Seq<u8>, from: int, to: int, word: Seq<u8>) -> bool {
    from + word.len() <= to && line.subrange(from, from + word.len()) == word
}

/// Whether the stretch from `from` to `to` is `word`.
pub open spec fn spec_is_word(line: Seq<u8>, from: int, to: int, word: Seq<u8>) -> bool {
    to - from == word.len() && spec_starts_with(line, from, to, word)
}

/// A span of two positions.
pub open spec fn span_of(ends: (int, int)) -> Span {
    Span { from: ends.0 as usize, to: ends.1 as usize }
}

/// What a line says.
///
/// A line whose key is empty, is `OK` or starts with `AT+` is ignored. The
/// keys `+CPSI` and `+CSQ` give the first field of the value, the keys
/// `+CPMUTEMP` and `+CBC` the whole value. Every other line is unknown.
pub open spec fn spec_read_line(line: Seq<u8>) -> LteSentence {
    let key = spec_key(line);
    if key.0 == key.1 || spec_is_word(line, key.0, key.1, word_ok()) || spec_starts_with(
        line,
        key.0,
        key.1,
        word_at(),
    ) {
        LteSentence::Ignored
    } else if spec_is_word(line, key.0, key.1, word_cpsi()) {
        if spec_has_value(line) {
            LteSentence::NetworkMode(span_of(spec_first_field(line)))
        } else {
            LteSentence::MissingValue
        }
    } else if spec_is_word(line, key.0, key.1, word_csq()) {
        if spec_has_value(line) {
            LteSentence::SignalQuality(span_of(spec_first_field(line)))
        } else {
            LteSentence::MissingValue
        }
    } else if spec_is_word(line, key.0, key.1, word_cpmutemp()) {
        if spec_has_value(line) {
            LteSentence::ModuleTemperature(span_of(spec_value(line)))
        } else {
            LteSentence::MissingValue
        }
    } else if spec_is_word(line, key.0, key.1, word_cbc()) {
        if spec_has_value(line) {
            LteSentence::ModuleVoltage(span_of(spec_value(line)))
        } else {
            LteSentence::MissingValue
        }
    } else {
        LteSentence::Unknown
    }
}

/// Whether a byte is white space.
#[verifier::when_used_as_spec(spec_is_space)]
pub fn is_space(byte: u8) -> (space: bool)
    ensures
        space == spec_is_space(byte),
{
    byte == 0x20 || (0x09 <= byte && byte <= 0x0D)
}

/// The first position from `from` and before `to` where `mark` stands, or
/// `to`.
pub fn find(line: &[u8], from: usize, to: usize, mark: u8) -> (at: usize)
    requires
        from <= to <= line@.len(),
    ensures
        at == spec_find(line@, from as int, to as int, mark),
        from <= at <= to,
{
    let mut at = from;
    while at < to && line[at] != mark
        invariant
            from <= at <= to <= line@.len(),
            spec_find(line@, from as int, to as int, mark) == spec_find(
                line@,
                at as int,
                to as int,
                mark,
            ),
        decreases to - at,
    {
        at += 1;
    }
    at
}

/// The stretch from `from` to `to` without the white space at its ends.
pub fn trimmed(line: &[u8], from: usize, to: usize) -> (span: Span)
    requires
        from <= to <= line@.len(),
    ensures
        span.from == spec_trimmed(line@, from as int, to as int).0,
        span.to == spec_trimmed(line@, from as int, to as int).1,
        from <= span.from <= span.to <= to,
{
    let mut start = from;
    while start < to && is_space(line[start])
        invariant
            from <= start <= to <= line@.len(),
            spec_skip_spaces(line@, from as int, to as int) == spec_skip_spaces(
                line@,
                start as int,
                to as int,
            ),
        decreases to - start,
    {
        start += 1;
    }
    let mut end = to;
    while end > start && is_space(line[end - 1])
        invariant
            start <= end <= to <= line@.len(),
            spec_drop_spaces(line@, start as int, to as int) == spec_drop_spaces(
                line@,
                start as int,
                end as int,
            ),
        decreases end - start,
    {
        end -= 1;
    }
    Span { from: start, to: end }
}

/// Whether the stretch from `from` to `to` starts with `word`.
pub fn starts_with(line: &[u8], from: usize, to: usize, word: &[u8]) -> (found: bool)
    requires
        from <= to <= line@.len(),
    ensures
        found == spec_starts_with(line@, from as int, to as int, word@),
{
    if word.len() > to - from {
        return false;
    }
    let mut i: usize = 0;
    while i < word.len()
        invariant
            i <= word@.len(),
            from + word@.len() <= to <= line@.len(),
            forall|j: int| 0 <= j < i ==> line@[from + j] == word@[j],
        decreases word@.len() - i,
    {
        if line[from + i] != word[i] {
            return false;
        }
        i += 1;
    }
    assert(line@.subrange(from as int, from + word@.len()) =~= word@);
    true
}

/// Whether the stretch from `from` to `to` is `word`.
pub fn is_word(line: &[u8], from: usize, to: usize, word: &[u8]) -> (same: bool)
    requires
        from <= to <= line@.len(),
    ensures
        same == spec_is_word(line@, from as int, to as int, word@),
{
    to - from == word.len() && starts_with(line, from, to, word)
}

/// Reads one line of the modem.
pub fn read_line(line: &[u8]) -> (sentence: LteSentence)
    ensures
        sentence == spec_read_line(line@),
        match sentence {
            LteSentence::NetworkMode(span) => span.from <= span.to <= line@.len(),
            LteSentence::SignalQuality(span) => span.from <= span.to <= line@.len(),
            LteSentence::ModuleTemperature(span) => span.from <= span.to <= line@.len(),
            LteSentence::ModuleVoltage(span) => span.from <= span.to <= line@.len(),
            _ => true,
        },
{
    let len = line.len();
    let colon = find(line, 0, len, 0x3A);
    let key = trimmed(line, 0, colon);
    let ok: [u8; 2] = [0x4F, 0x4B];
    let at: [u8; 3] = [0x41, 0x54, 0x2B];
    let cpsi: [u8; 5] = [0x2B, 0x43, 0x50, 0x53, 0x49];
    let csq: [u8; 4] = [0x2B, 0x43, 0x53, 0x51];
    let cpmutemp: [u8; 9] = [0x2B, 0x43, 0x50, 0x4D, 0x55, 0x54, 0x45, 0x4D, 0x50];
    let cbc: [u8; 4] = [0x2B, 0x43, 0x42, 0x43];
    if key.from == key.to || is_word(line, key.from, key.to, ok.as_slice()) || starts_with(
        line,
        key.from,
        key.to,
        at.as_slice(),
    ) {
        return LteSentence::Ignored;
    }
    let first_field = is_word(line, key.from, key.to, cpsi.as_slice()) || is_word(
        line,
        key.from,
        key.to,
        csq.as_slice(),
    );
    let whole_value = is_word(line, key.from, key.to, cpmutemp.as_slice()) || is_word(
        line,
        key.from,
        key.to,
        cbc.as_slice(),
    );
    if !first_field && !whole_value {
        return LteSentence::Unknown;
    }
    if colon >= len {
        return LteSentence::MissingValue;
    }
    let value_end = find(line, colon + 1, len, 0x3A);
    let value = trimmed(line, colon + 1, value_end);
    if is_word(line, key.from, key.to, cpsi.as_slice()) {
        let comma = find(line, value.from, value.to, 0x2C);
        LteSentence::NetworkMode(Span { from: value.from, to: comma })
    } else if is_word(line, key.from, key.to, csq.as_slice()) {
        let comma = find(line, value.from, value.to, 0x2C);
        LteSentence::SignalQuality(Span { from: value.from, to: comma })
    } else if is_word(line, key.from, key.to, cpmutemp.as_slice()) {
        LteSentence::ModuleTemperature(value)
    } else {
        LteSentence::ModuleVoltage(value)
    }
}

/// The command that is sent once, before the first round: it starts the
/// modem's satellite receiver.
pub fn start_command() -> (command: &'static str)
    ensures
        command@ == "AT+CGPS=1\r"@,
{
    "AT+CGPS=1\r"
}

/// The command at place `step` of a round of questions: network mode,
/// signal quality, temperature, voltage, and then the same again.
pub fn poll_command(step: usize) -> (command: &'static str)
    ensures
        command@ == match step % COMMANDS_PER_ROUND {
            0 => "AT+CPSI?\r"@,
            1 => "AT+CSQ\r"@,
            2 => "AT+CPMUTEMP\r"@,
            _ => "AT+CBC\r"@,
        },
{
    match step % COMMANDS_PER_ROUND {
        0 => "AT+CPSI?\r",
        1 => "AT+CSQ\r",
        2 => "AT+CPMUTEMP\r",
        _ => "AT+CBC\r",
    }
}

} // verus!
