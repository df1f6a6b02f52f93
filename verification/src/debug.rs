//! Debug-utils support: how validation messages are laid out and logged, the
//! default message filters, and the names objects are given.

use vstd::prelude::*;
use crate::text::str_chars;
use crate::text::append_chars;
use crate::vkconst::DEBUG_SEVERITY_ERROR_BIT;
use crate::vkconst::DEBUG_SEVERITY_WARNING_BIT;
use crate::vkconst::DEBUG_SEVERITY_INFO_BIT;
use crate::vkconst::DEBUG_TYPE_VALIDATION_BIT;
use crate::vkconst::DEBUG_TYPE_PERFORMANCE_BIT;

verus! {

/// The log level a debug message is reported at.
#[derive(Clone, Copy, PartialEq, Eq, Structural, Debug)]
pub enum LogLevel {
    Error,
    Warn,
    Info,
}

/// The log level of a message of severity `severity`: errors as errors,
/// warnings as warnings, and everything else (info, verbose, combinations) as
/// info.
pub fn log_level_for(severity: u32) -> (r: LogLevel)
    ensures
        r == (if severity == DEBUG_SEVERITY_ERROR_BIT { LogLevel::Error }
            else if severity == DEBUG_SEVERITY_WARNING_BIT { LogLevel::Warn }
            else { LogLevel::Info }),
{
    if severity == DEBUG_SEVERITY_ERROR_BIT {
        LogLevel::Error
    } else if severity == DEBUG_SEVERITY_WARNING_BIT {
        LogLevel::Warn
    } else if severity == DEBUG_SEVERITY_INFO_BIT {
        LogLevel::Info
    } else {
        LogLevel::Info
    }
}

/// The severities the debug messenger reports: warnings and errors.
pub fn default_message_severity() -> (r: u32)
    ensures
        r == DEBUG_SEVERITY_WARNING_BIT | DEBUG_SEVERITY_ERROR_BIT,
{
    DEBUG_SEVERITY_WARNING_BIT | DEBUG_SEVERITY_ERROR_BIT
}

/// The message types the debug messenger reports: validation and performance.
pub fn default_message_type() -> (r: u32)
    ensures
        r == DEBUG_TYPE_VALIDATION_BIT | DEBUG_TYPE_PERFORMANCE_BIT,
{
    DEBUG_TYPE_VALIDATION_BIT | DEBUG_TYPE_PERFORMANCE_BIT
}

/// The text the Vulkan bindings print for the message-type flags `bits`
/// (their `Debug` rendering, e.g. `VALIDATION | PERFORMANCE`).
pub uninterp spec fn message_type_text(bits: u32) -> Seq<char>;

/// Renders the message-type flags `bits` with the `Debug` implementation of the
/// Vulkan bindings' `DebugUtilsMessageTypeFlagsEXT`. The text depends on the
/// bits alone; what it is for given bits is left to the bindings.
#[verifier::external_body]
fn render_message_type(bits: u32) -> (r: Vec<char>)
    ensures
        r@ == message_type_text(bits),
{
    format!("{:?}", ash::vk::DebugUtilsMessageTypeFlagsEXT::from_raw(bits)).chars().collect()
}

/// `s` with every `|` turned into a line break.
pub open spec fn bars_to_newlines(s: Seq<char>) -> Seq<char> {
    s.map_values(|c: char| if c == '|' { '\n' } else { c })
}

/// `s` with a line break inserted after the `]` of every ` ] ` (occurrences
/// taken from the left, without overlap).
pub open spec fn break_after_brackets(s: Seq<char>) -> Seq<char>
    decreases s.len(),
{
    if s.len() >= 3 && s[0] == ' ' && s[1] == ']' && s[2] == ' ' {
        seq![' ', ']', '\n', ' '] + break_after_brackets(s.skip(3))
    } else if s.len() == 0 {
        Seq::empty()
    } else {
        seq![s[0]] + break_after_brackets(s.skip(1))
    }
}

/// A ` ] ` starts at position `i` of `s`.
pub open spec fn bracket_at(s: Seq<char>, i: int) -> bool {
    0 <= i && i + 2 < s.len() && s[i] == ' ' && s[i + 1] == ']' && s[i + 2] == ' '
}

/// The layout of a validation message: `[<type>]`, then on the next line,
/// indented by one space, the message split into lines at `|` and after ` ] `.
pub open spec fn validation_message(type_text: Seq<char>, msg: Seq<char>) -> Seq<char> {
    seq!['['] + type_text + seq![']', '\n', ' '] + break_after_brackets(bars_to_newlines(msg)) + seq!['\n']
}

/// The plain layout of a debug message: `[<type>]`, then the message on the
/// next line.
pub open spec fn plain_message(type_text: Seq<char>, msg: Seq<char>) -> Seq<char> {
    seq!['['] + type_text + seq![']', '\n'] + msg + seq!['\n']
}

fn replace_bars(msg: &Vec<char>) -> (r: Vec<char>)
    ensures
        r@ == bars_to_newlines(msg@),
{
    let mut r: Vec<char> = Vec::new();
    let mut i: usize = 0;
    while i < msg.len()
        invariant
            i <= msg.len(),
            r@ == bars_to_newlines(msg@.subrange(0, i as int)),
        decreases msg.len() - i,
    {
        let c = msg[i];
        r.push(if c == '|' { '\n' } else { c });
        i = i + 1;
        assert(bars_to_newlines(msg@.subrange(0, i as int)) =~= bars_to_newlines(msg@.subrange(0, i - 1)).push(
            if c == '|' { '\n' } else { c },
        ));
    }
    assert(msg@.subrange(0, msg.len() as int) == msg@);
    r
}

fn insert_breaks(s: &Vec<char>) -> (r: Vec<char>)
    ensures
        r@ == break_after_brackets(s@),
{
    let mut r: Vec<char> = Vec::new();
    let mut i: usize = 0;
    assert(s@.skip(0) == s@);
    assert(r@ + break_after_brackets(s@) == break_after_brackets(s@));
    while i < s.len()
        invariant
            i <= s.len(),
            r@ + break_after_brackets(s@.skip(i as int)) == break_after_brackets(s@),
        decreases s.len() - i,
    {
        let ghost rest = s@.skip(i as int);
        if s.len() - i >= 3 && s[i] == ' ' && s[i + 1] == ']' && s[i + 2] == ' ' {
            r.push(' ');
            r.push(']');
            r.push('\n');
            r.push(' ');
            proof {
                assert(rest[0] == ' ' && rest[1] == ']' && rest[2] == ' ');
                assert(rest.skip(3) == s@.skip(i + 3));
                assert(r@ + break_after_brackets(s@.skip(i + 3)) == break_after_brackets(s@));
            }
            i = i + 3;
        } else {
            r.push(s[i]);
            proof {
                assert(rest[0] == s@[i as int]);
                assert(!(rest.len() >= 3 && rest[0] == ' ' && rest[1] == ']' && rest[2] == ' '));
                assert(rest.skip(1) == s@.skip(i + 1));
                assert(r@ + break_after_brackets(s@.skip(i + 1)) == break_after_brackets(s@));
            }
            i = i + 1;
        }
    }
    proof {
        assert(s@.skip(i as int).len() == 0);
        assert(r@ + Seq::<char>::empty() == r@);
    }
    r
}

/// Lays out a validation message whose type renders as `type_text`.
pub fn format_validation_message_with(type_text: &Vec<char>, msg: &Vec<char>) -> (r: Vec<char>)
    ensures
        r@ == validation_message(type_text@, msg@),
{
    let mut r: Vec<char> = Vec::new();
    r.push('[');
    append_chars(&mut r, type_text);
    r.push(']');
    r.push('\n');
    r.push(' ');
    let body = insert_breaks(&replace_bars(msg));
    append_chars(&mut r, &body);
    r.push('\n');
    assert(r@ =~= validation_message(type_text@, msg@));
    r
}

/// Lays out a validation message of type `message_type` as the debug
/// messenger logs it.
pub fn format_validation_message(message_type: u32, msg: &Vec<char>) -> (r: Vec<char>)
    ensures
        r@ == validation_message(message_type_text(message_type), msg@),
{
    let type_text = render_message_type(message_type);
    format_validation_message_with(&type_text, msg)
}

/// Lays out a debug message whose type renders as `type_text`, plainly.
pub fn format_plain_message_with(type_text: &Vec<char>, msg: &Vec<char>) -> (r: Vec<char>)
    ensures
        r@ == plain_message(type_text@, msg@),
{
    let mut r: Vec<char> = Vec::new();
    r.push('[');
    append_chars(&mut r, type_text);
    r.push(']');
    r.push('\n');
    append_chars(&mut r, msg);
    r.push('\n');
    assert(r@ =~= plain_message(type_text@, msg@));
    r
}

/// Lays out a debug message of type `message_type` plainly, as the debug-utils
/// messenger of the core layer logs it.
pub fn format_plain_message(message_type: u32, msg: &Vec<char>) -> (r: Vec<char>)
    ensures
        r@ == plain_message(message_type_text(message_type), msg@),
{
    let type_text = render_message_type(message_type);
    format_plain_message_with(&type_text, msg)
}

/// A message without `|` and without ` ] ` keeps its text: only the header and
/// the final line break are added.
pub proof fn lemma_validation_message_keeps_plain_text(type_text: Seq<char>, msg: Seq<char>)
    requires
        !msg.contains('|'),
        forall|i: int| !#[trigger] bracket_at(msg, i),
    ensures
        validation_message(type_text, msg) == seq!['['] + type_text + seq![']', '\n', ' '] + msg + seq!['\n'],
{
    assert(bars_to_newlines(msg) =~= msg) by {
        assert forall|i: int| 0 <= i < msg.len() implies bars_to_newlines(msg)[i] == msg[i] by {
            assert(msg[i] != '|');
        }
    }
    lemma_no_brackets_unchanged(msg);
}

proof fn lemma_no_brackets_unchanged(s: Seq<char>)
    requires
        forall|i: int| !#[trigger] bracket_at(s, i),
    ensures
        break_after_brackets(s) == s,
    decreases s.len(),
{
    if s.len() > 0 {
        let t = s.skip(1);
        assert forall|i: int| !#[trigger] bracket_at(t, i) by {
            if 0 <= i && i + 2 < t.len() {
                assert(t[i] == s[i + 1] && t[i + 1] == s[i + 2] && t[i + 2] == s[i + 3]);
                assert(!bracket_at(s, i + 1));
            }
        }
        lemma_no_brackets_unchanged(t);
        assert(!bracket_at(s, 0));
        assert(seq![s[0]] + t =~= s);
    }
}

/// The name given to a Vulkan object for debugging: `empty-debug-name` for an
/// empty name, the name itself otherwise.
pub fn debug_object_name(name: &Vec<char>) -> (r: Vec<char>)
    ensures
        name@.len() == 0 ==> r@ == "empty-debug-name"@,
        name@.len() > 0 ==> r@ == name@,
{
    if name.len() == 0 {
        str_chars("empty-debug-name")
    } else {
        let mut v: Vec<char> = Vec::new();
        append_chars(&mut v, name);
        v
    }
}

} // verus!
