//! The leaf tools that run without further network traffic, and the
//! classification of a requested tool call: which tools parse their
//! argument payload, which key each one requires, and what a finished
//! tool result must look like.

use vstd::prelude::*;
use crate::args::json_string_map_of;
use crate::messages::ToolCall;
use crate::timestamp::is_rfc3339;

verus! {

pub open spec fn hello_prefix() -> Seq<char> {
    "Hello, world! "@
}

/// The hello-world tool: a fixed greeting with the argument appended.
pub fn hello_world(append_string: &str) -> (r: String)
    ensures
        r@ == hello_prefix() + append_string@,
{
    let mut out = String::from_str("Hello, world! ");
    out.append(append_string);
    out
}

pub open spec fn scrape_failure_text() -> Seq<char> {
    "failed to get webpage"@
}

/// The scraper tool's reply: the fetched page text verbatim, or the fixed
/// failure text when the page could not be fetched.
pub fn page_text_result(fetched: Option<String>) -> (r: String)
    ensures
        r@ == (match fetched {
            Some(t) => t@,
            None => scrape_failure_text(),
        }),
{
    match fetched {
        Some(t) => t,
        None => String::from_str("failed to get webpage"),
    }
}

/// The four tool names differ pairwise; the dispatch proofs case on
/// them.
pub proof fn lemma_tool_names_distinct()
    ensures
        "helloWorld"@ != "getWeather"@,
        "helloWorld"@ != "scraper"@,
        "helloWorld"@ != "getTimeOfDay"@,
        "getWeather"@ != "scraper"@,
        "getWeather"@ != "getTimeOfDay"@,
        "scraper"@ != "getTimeOfDay"@,
{
    reveal_strlit("helloWorld");
    reveal_strlit("getWeather");
    reveal_strlit("scraper");
    reveal_strlit("getTimeOfDay");
    assert("helloWorld"@[0] != "getWeather"@[0]);
    assert("helloWorld"@.len() != "scraper"@.len());
    assert("helloWorld"@.len() != "getTimeOfDay"@.len());
    assert("getWeather"@.len() != "scraper"@.len());
    assert("getWeather"@.len() != "getTimeOfDay"@.len());
    assert("scraper"@.len() != "getTimeOfDay"@.len());
}

/// The tools whose leaf function takes an argument out of the payload.
pub open spec fn tool_needs_parse(name: Seq<char>) -> bool {
    ||| name == "helloWorld"@
    ||| name == "getWeather"@
    ||| name == "scraper"@
}

/// The single argument key each such tool requires.
pub open spec fn tool_required_key(name: Seq<char>) -> Seq<char> {
    if name == "helloWorld"@ {
        "appendString"@
    } else if name == "getWeather"@ {
        "city"@
    } else {
        "url"@
    }
}

/// A requested call that aborts the run: its tool parses the payload, and
/// the payload either is not a flat JSON object of strings or lacks the
/// required key.
pub open spec fn call_fails(c: ToolCall) -> bool {
    tool_needs_parse(c.name@) && match json_string_map_of(c.arguments@) {
        None => true,
        Some(m) => !m.dom().contains(tool_required_key(c.name@)),
    }
}

/// The required argument's value, for a call that does not fail.
pub open spec fn call_arg(c: ToolCall) -> Seq<char> {
    json_string_map_of(c.arguments@).unwrap()[tool_required_key(c.name@)]
}

/// A call whose tool must go out on the network before its result text
/// exists.
pub open spec fn call_blocks(c: ToolCall) -> bool {
    !call_fails(c) && (c.name@ == "getWeather"@ || c.name@ == "scraper"@)
}

/// A call answered on the spot: hello-world, time-of-day, or an
/// unrecognized tool name (which soft-fails to an empty result).
pub open spec fn call_immediate(c: ToolCall) -> bool {
    !call_fails(c) && !call_blocks(c)
}

/// What the result text of an immediately answered call must be.
pub open spec fn immediate_text_ok(c: ToolCall, text: Seq<char>) -> bool {
    if c.name@ == "helloWorld"@ {
        text == hello_prefix() + call_arg(c)
    } else if c.name@ == "getTimeOfDay"@ {
        is_rfc3339(text)
    } else {
        text == Seq::<char>::empty()
    }
}

} // verus!
