//! Display helpers: a colour for each stream, and JSON log records rendered
//! as one line.
use colored::Colorize;
use rand::Rng;
use crate::text::{occurs_in, opt_text, plain_text};
use vstd::prelude::*;

verus! {

/// An RGB colour.
#[derive(Clone, Copy, Debug)]
pub struct Color {
    pub r: u8,
    pub g: u8,
    pub b: u8,
}

/// `rand::rngs::ThreadRng`, the handle to a thread's random generator. It is
/// passed on and never looked into.
#[verifier::external_type_specification]
#[verifier::external_body]
pub struct ExThreadRng(rand::rngs::ThreadRng);

/// `serde_json::Value`, a JSON value. It is read through `string_members`
/// alone.
#[verifier::external_type_specification]
#[verifier::external_body]
pub struct ExJsonValue(serde_json::Value);

/// What `serde_json::from_str` reads from `text` as a JSON value: `None`
/// where `text` is not one JSON document.
pub uninterp spec fn parsed_json(text: Seq<char>) -> Option<serde_json::Value>;

/// The members of a JSON object whose value is a string, by key. Empty for
/// a value that is not an object.
pub uninterp spec fn string_members(value: serde_json::Value) -> Map<Seq<char>, Seq<char>>;

/// `rand::rng`: a handle to the generator of the calling thread. Nothing is
/// claimed of it.
#[verifier::external_body]
fn thread_generator() -> rand::rngs::ThreadRng {
    rand::rng()
}

/// `Rng::random_range` over `0..high`: the range is not empty, so the call
/// returns, and its result lies in the range. Which value comes is open.
#[verifier::external_body]
fn random_below(generator: &mut rand::rngs::ThreadRng, high: u8) -> (r: u8)
    requires
        high > 0,
    ensures
        r < high,
{
    generator.random_range(0..high)
}

/// `Colorize::truecolor`, rendered with `to_string`: `text` as the terminal
/// should show it in `color`. The result is `text` as it is, or `text`
/// between the codes that set the colour and the code that resets it: which
/// of the two depends on the environment. Codes are put inside `text` only
/// where it holds a reset code itself, which begins with the escape
/// character. So a text without an escape character occurs in the result.
#[verifier::external_body]
pub(crate) fn paint(text: &str, color: &Color) -> (r: String)
    ensures
        plain_text(text@) ==> occurs_in(text@, r@),
{
    text.truecolor(color.r, color.g, color.b).to_string()
}

/// `Value::get` with a string key, then `Value::as_str` on what it finds:
/// the member's text if `value` is an object that has a string under `key`,
/// and `None` otherwise.
#[verifier::external_body]
fn string_member(value: &serde_json::Value, key: &str) -> (r: Option<String>)
    ensures
        r is Some <==> string_members(*value).contains_key(key@),
        r matches Some(s) ==> s@ == string_members(*value)[key@],
{
    match value.get(key) {
        Some(member) => match member.as_str() {
            Some(text) => Some(text.to_owned()),
            None => None,
        },
        None => None,
    }
}

/// A colour drawn at random, each channel below 255.
pub fn get_rnd_color() -> (c: Color)
    ensures
        c.r < 255,
        c.g < 255,
        c.b < 255,
{
    let mut generator = thread_generator();
    let r = random_below(&mut generator, 255);
    let g = random_below(&mut generator, 255);
    let b = random_below(&mut generator, 255);
    Color { r, g, b }
}

/// Reads `line` as JSON: `serde_json::from_str`, with its error dropped.
#[verifier::external_body]
pub fn maybe_parse_json(line: &str) -> (r: Option<serde_json::Value>)
    ensures
        r == parsed_json(line@),
{
    serde_json::from_str::<serde_json::Value>(line).ok()
}

/// The keys under which a record may carry its timestamp, first choice first.
pub open spec fn ts_keys() -> Seq<Seq<char>> {
    seq!["ts"@, "timestamp"@, "time"@]
}

/// The keys under which a record may carry its message, first choice first.
pub open spec fn msg_keys() -> Seq<Seq<char>> {
    seq!["msg"@, "message"@, "log"@]
}

/// The keys under which a record may carry its level, first choice first.
pub open spec fn level_keys() -> Seq<Seq<char>> {
    seq!["level"@, "lvl"@, "severity"@]
}

/// The string under the first of `keys` that `members` has.
pub open spec fn first_string(members: Map<Seq<char>, Seq<char>>, keys: Seq<Seq<char>>) -> Option<
    Seq<char>,
>
    decreases keys.len(),
{
    if keys.len() == 0 {
        None
    } else if members.contains_key(keys[0]) {
        Some(members[keys[0]])
    } else {
        first_string(members, keys.drop_first())
    }
}

/// `found`, or `fallback` where nothing was found.
pub open spec fn text_or(found: Option<Seq<char>>, fallback: Seq<char>) -> Seq<char> {
    match found {
        Some(text) => text,
        None => fallback,
    }
}

/// One record as a line: `[level] timestamp: message`.
pub open spec fn pretty_line(level: Seq<char>, ts: Seq<char>, msg: Seq<char>) -> Seq<char> {
    seq!['['] + level + seq![']', ' '] + ts + seq![':', ' '] + msg
}

/// The line for a record with the string members `members`: level `INFO`,
/// timestamp `no-ts` and message `no-msg` stand in for what is missing.
pub open spec fn pretty_record(members: Map<Seq<char>, Seq<char>>) -> Seq<char> {
    pretty_line(
        text_or(first_string(members, level_keys()), "INFO"@),
        text_or(first_string(members, ts_keys()), "no-ts"@),
        text_or(first_string(members, msg_keys()), "no-msg"@),
    )
}

/// The string under the first of three keys that `value` has.
fn first_string_member(value: &serde_json::Value, first: &str, second: &str, third: &str) -> (r:
    Option<String>)
    ensures
        opt_text(r) == first_string(string_members(*value), seq![first@, second@, third@]),
{
    proof {
        let keys = seq![first@, second@, third@];
        assert(keys.drop_first() =~= seq![second@, third@]);
        assert(keys.drop_first().drop_first() =~= seq![third@]);
        assert(keys.drop_first().drop_first().drop_first() =~= Seq::<Seq<char>>::empty());
        reveal_with_fuel(first_string, 4);
    }
    match string_member(value, first) {
        Some(s) => Some(s),
        None => match string_member(value, second) {
            Some(s) => Some(s),
            None => string_member(value, third),
        },
    }
}

/// Renders a record from what was found of its level, timestamp and
/// message: `[level] timestamp: message`, with `INFO`, `no-ts` and `no-msg`
/// for what is missing.
pub fn format_record(level: Option<String>, ts: Option<String>, msg: Option<String>) -> (r: String)
    ensures
        r@ == pretty_line(
            text_or(opt_text(level), "INFO"@),
            text_or(opt_text(ts), "no-ts"@),
            text_or(opt_text(msg), "no-msg"@),
        ),
{
    proof {
        reveal_strlit("[");
        reveal_strlit("] ");
        reveal_strlit(": ");
    }
    let mut out = String::from_str("[");
    match &level {
        Some(s) => out.append(s.as_str()),
        None => out.append("INFO"),
    }
    out.append("] ");
    match &ts {
        Some(s) => out.append(s.as_str()),
        None => out.append("no-ts"),
    }
    out.append(": ");
    match &msg {
        Some(s) => out.append(s.as_str()),
        None => out.append("no-msg"),
    }
    proof {
        assert("["@ =~= seq!['[']);
        assert("] "@ =~= seq![']', ' ']);
        assert(": "@ =~= seq![':', ' ']);
    }
    out
}

/// Renders a JSON log record as one line. The timestamp is the string under
/// `ts`, `timestamp` or `time`, the message the one under `msg`, `message`
/// or `log`, the level the one under `level`, `lvl` or `severity`, the first
/// that is there in each case.
pub fn get_pretty_json(value: serde_json::Value) -> (r: String)
    ensures
        r@ == pretty_record(string_members(value)),
{
    let ts = first_string_member(&value, "ts", "timestamp", "time");
    let level = first_string_member(&value, "level", "lvl", "severity");
    let msg = first_string_member(&value, "msg", "message", "log");
    format_record(level, ts, msg)
}

} // verus!
