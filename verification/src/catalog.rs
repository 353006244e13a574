//! The fixed tool catalog advertised to the chat-completion provider.
//! Each entry's parameter schema names exactly the key its leaf function
//! extracts, so that a well-formed provider call can be dispatched.

use vstd::prelude::*;
use crate::tools::tool_required_key;

verus! {

/// One named parameter of a tool: all tool parameters in this catalog are
/// strings, so only the name, a description and the required flag remain.
pub struct ParamSpec {
    pub name: String,
    pub description: String,
    pub required: bool,
}

/// One catalog entry: a unique tool name, a human-readable description,
/// and the parameter schema.
pub struct ToolSpec {
    pub name: String,
    pub description: String,
    pub params: Vec<ParamSpec>,
}

/// The catalog: weather lookup, web-page scraping, time-of-day and
/// hello-world. Each entry that takes an argument declares, as required,
/// exactly the key its dispatch extracts.
pub fn default_catalog() -> (r: Vec<ToolSpec>)
    ensures
        r@.len() == 4,
        r@[0].name@ == "getWeather"@,
        r@[0].params@.len() == 1,
        r@[0].params@[0].name@ == tool_required_key("getWeather"@),
        r@[0].params@[0].required,
        r@[1].name@ == "scraper"@,
        r@[1].params@.len() == 1,
        r@[1].params@[0].name@ == tool_required_key("scraper"@),
        r@[1].params@[0].required,
        r@[2].name@ == "getTimeOfDay"@,
        r@[2].params@.len() == 0,
        r@[3].name@ == "helloWorld"@,
        r@[3].params@.len() == 1,
        r@[3].params@[0].name@ == tool_required_key("helloWorld"@),
        r@[3].params@[0].required,
{
    proof {
        reveal_strlit("helloWorld");
        reveal_strlit("getWeather");
        reveal_strlit("scraper");
        assert("getWeather"@ != "helloWorld"@) by {
            assert("getWeather"@[0] != "helloWorld"@[0]);
        }
        assert("scraper"@ != "helloWorld"@) by {
            assert("scraper"@.len() != "helloWorld"@.len());
        }
    }
    let mut r: Vec<ToolSpec> = Vec::new();
    let mut weather_params: Vec<ParamSpec> = Vec::new();
    weather_params.push(
        ParamSpec {
            name: String::from_str("city"),
            description: String::from_str("The city whose weather to look up"),
            required: true,
        },
    );
    r.push(
        ToolSpec {
            name: String::from_str("getWeather"),
            description: String::from_str("Get a short weather report for a city"),
            params: weather_params,
        },
    );
    let mut scraper_params: Vec<ParamSpec> = Vec::new();
    scraper_params.push(
        ParamSpec {
            name: String::from_str("url"),
            description: String::from_str("The url from which to fetch the content"),
            required: true,
        },
    );
    r.push(
        ToolSpec {
            name: String::from_str("scraper"),
            description: String::from_str("Get the text content of the webpage from the url passed to it"),
            params: scraper_params,
        },
    );
    r.push(
        ToolSpec {
            name: String::from_str("getTimeOfDay"),
            description: String::from_str("Get the time of day."),
            params: Vec::new(),
        },
    );
    let mut hello_params: Vec<ParamSpec> = Vec::new();
    hello_params.push(
        ParamSpec {
            name: String::from_str("appendString"),
            description: String::from_str("The string to append to the hello world message"),
            required: true,
        },
    );
    r.push(
        ToolSpec {
            name: String::from_str("helloWorld"),
            description: String::from_str("Prints hello world with the string passed to it"),
            params: hello_params,
        },
    );
    r
}

} // verus!
