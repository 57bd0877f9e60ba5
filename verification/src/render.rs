//! The page renderer's text building: decimal rendering of ids and page
//! numbers, a human-readable timestamp through chrono, and the markup for a
//! page of annotated event records.

use vstd::prelude::*;
use vstd::string::StringExecFns;
use vstd::pervasive::unreached;
use std::collections::HashMap;
use crate::record::EventRecord;

verus! {

broadcast use vstd::std_specs::hash::group_hash_axioms;

/// The decimal digit for a value below ten.
pub open spec fn digit_char(d: int) -> char {
    if d == 0 {
        '0'
    } else if d == 1 {
        '1'
    } else if d == 2 {
        '2'
    } else if d == 3 {
        '3'
    } else if d == 4 {
        '4'
    } else if d == 5 {
        '5'
    } else if d == 6 {
        '6'
    } else if d == 7 {
        '7'
    } else if d == 8 {
        '8'
    } else {
        '9'
    }
}

/// The decimal digits of `n`, most significant first, no leading zero
/// except for the value zero itself.
pub open spec fn spec_u64_digits(n: nat) -> Seq<char>
    decreases n,
{
    if n < 10 {
        seq![digit_char(n as int)]
    } else {
        spec_u64_digits(n / 10).push(digit_char((n % 10) as int))
    }
}

/// Append the digit for `d` to `s`.
fn push_digit(s: &mut String, d: u64)
    requires
        d < 10,
    ensures
        final(s)@ == old(s)@.push(digit_char(d as int)),
{
    let c: &str = if d == 0 {
        "0"
    } else if d == 1 {
        "1"
    } else if d == 2 {
        "2"
    } else if d == 3 {
        "3"
    } else if d == 4 {
        "4"
    } else if d == 5 {
        "5"
    } else if d == 6 {
        "6"
    } else if d == 7 {
        "7"
    } else if d == 8 {
        "8"
    } else {
        "9"
    };
    proof {
        reveal_strlit("0");
        reveal_strlit("1");
        reveal_strlit("2");
        reveal_strlit("3");
        reveal_strlit("4");
        reveal_strlit("5");
        reveal_strlit("6");
        reveal_strlit("7");
        reveal_strlit("8");
        reveal_strlit("9");
    }
    s.append(c);
    proof {
        assert(old(s)@ + c@ =~= old(s)@.push(digit_char(d as int)));
    }
}

/// Render `n` in decimal.
pub fn u64_to_string(n: u64) -> (r: String)
    ensures
        r@ == spec_u64_digits(n as nat),
    decreases n,
{
    if n < 10 {
        let mut s = String::new();
        push_digit(&mut s, n);
        proof {
            assert(Seq::<char>::empty().push(digit_char(n as int)) =~= seq![
                digit_char(n as int),
            ]);
        }
        s
    } else {
        let mut s = u64_to_string(n / 10);
        push_digit(&mut s, n % 10);
        s
    }
}

/// The text chrono renders for `t` seconds since the Unix epoch under the
/// fixed day/month/year at hour:minute:second pattern; a function of the
/// seconds value alone (UTC, fixed numeric fields).
pub uninterp spec fn time_text_of(t: i64) -> Seq<char>;

/// Seconds values up to this bound are within chrono's calendar range
/// (about year 255,000), so they always render.
pub const MAX_RENDER_TIME: u64 = 8_000_000_000_000;

/// Relies on chrono's `DateTime::<Utc>::from_timestamp` and its formatting
/// with `"%d/%m/%Y @ %H:%M:%S"`: the text depends on the seconds value
/// alone, and any seconds value between 0 and `MAX_RENDER_TIME` lies inside
/// chrono's calendar range, so it formats to `Some` text.
#[verifier::external_body]
fn readable_time(t: i64) -> (r: Option<String>)
    ensures
        r matches Some(s) ==> s@ == time_text_of(t),
        0 <= t <= MAX_RENDER_TIME ==> r is Some,
{
    match chrono::DateTime::<chrono::Utc>::from_timestamp(t, 0) {
        Some(d) => Some(d.format("%d/%m/%Y @ %H:%M:%S").to_string()),
        None => None,
    }
}

pub const BLOCK_A: &'static str = "\n        <article class=\"status ";

pub const BLOCK_B: &'static str = "\">\n            <h3><span data-userid=\"";

pub const BLOCK_C: &'static str = "\"  class=\"mention\">";

pub const BLOCK_D: &'static str = "</span></h3>\n            <h4>";

pub const BLOCK_E: &'static str = "</h4>\n            <hr>\n            <h5>";

pub const BLOCK_F: &'static str = " - ";

pub const BLOCK_G: &'static str = "</h5>\n        </article>\n      ";

/// The markup block for one record annotated with `name`.
pub open spec fn result_block(r: EventRecord, name: Seq<char>) -> Seq<char> {
    BLOCK_A@ + r.status@ + BLOCK_B@ + spec_u64_digits(r.user_id as nat) + BLOCK_C@ + name
        + BLOCK_D@ + time_text_of(r.time as i64) + BLOCK_E@ + r.activity@ + BLOCK_F@
        + r.activity_description@ + BLOCK_G@
}

/// A name table as a mathematical map to name text.
pub open spec fn text_map(names: Map<u64, String>) -> Map<u64, Seq<char>> {
    names.map_values(|s: String| s@)
}

/// The markup for all of `rs`, one block per record in order.
pub open spec fn results_html(rs: Seq<EventRecord>, names: Map<u64, Seq<char>>) -> Seq<char>
    decreases rs.len(),
{
    if rs.len() == 0 {
        Seq::empty()
    } else {
        results_html(rs.drop_last(), names) + result_block(
            rs.last(),
            names[rs.last().user_id],
        )
    }
}

/// Every record of `rs` can be rendered: its subject has an entry in the
/// name table, and its timestamp is within chrono's calendar range.
pub open spec fn renderable(rs: Seq<EventRecord>, names: Map<u64, Seq<char>>) -> bool {
    forall|i: int|
        0 <= i < rs.len() ==> names.contains_key((#[trigger] rs[i]).user_id) && rs[i].time
            <= MAX_RENDER_TIME
}

/// The markup for a page of records, each annotated with the display name
/// the table holds for its subject.
pub fn construct_results(data: &Vec<EventRecord>, names: &HashMap<u64, String>) -> (r: String)
    requires
        renderable(data@, text_map(names@)),
    ensures
        r@ == results_html(data@, text_map(names@)),
{
    let ghost nm = text_map(names@);
    let mut out = String::new();
    let n = data.len();
    let mut i: usize = 0;
    proof {
        assert(data@.subrange(0, 0) =~= Seq::<EventRecord>::empty());
    }
    while i < n
        invariant
            n == data@.len(),
            0 <= i <= n,
            nm == text_map(names@),
            renderable(data@, nm),
            out@ == results_html(data@.subrange(0, i as int), nm),
        decreases n - i,
    {
        let ghost prev = out@;
        let rec = &data[i];
        let name = match names.get(&rec.user_id) {
            Some(name) => name,
            None => unreached(),
        };
        proof {
            assert(nm[rec.user_id] == name@);
        }
        let time_text = match readable_time(rec.time as i64) {
            Some(t) => t,
            None => unreached(),
        };
        let digits = u64_to_string(rec.user_id);
        out.append(BLOCK_A);
        out.append(rec.status.as_str());
        out.append(BLOCK_B);
        out.append(digits.as_str());
        out.append(BLOCK_C);
        out.append(name.as_str());
        out.append(BLOCK_D);
        out.append(time_text.as_str());
        out.append(BLOCK_E);
        out.append(rec.activity.as_str());
        out.append(BLOCK_F);
        out.append(rec.activity_description.as_str());
        out.append(BLOCK_G);
        proof {
            assert(out@ =~= prev + result_block(data@[i as int], nm[data@[i as int].user_id]));
            let post = data@.subrange(0, (i + 1) as int);
            assert(post.drop_last() =~= data@.subrange(0, i as int));
            assert(post.last() == data@[i as int]);
        }
        i += 1;
    }
    proof {
        assert(data@.subrange(0, n as int) =~= data@);
    }
    out
}

pub const PAGE_HEAD: &'static str = "\n<html>\n<head>\n    <link rel=\"stylesheet\" href=\"https://unpkg.com/@picocss/pico@latest/css/pico.min.css\" />\n\n    <style>\n    :root {\n    --pico-font-family-sans-serif: Inter, system-ui, \"Segoe UI\", Roboto, Oxygen, Ubuntu, Cantarell, Helvetica, Arial, \"Helvetica Neue\", sans-serif, var(--pico-font-family-emoji);\n    --pico-font-size: 87.5%;\n    /* Original: 100% */\n    --pico-line-height: 1.25;\n    /* Original: 1.5 */\n    --pico-form-element-spacing-vertical: 0.5rem;\n    /* Original: 1rem */\n    --pico-form-element-spacing-horizontal: 1.0rem;\n    /* Original: 1.25rem */\n    --pico-border-radius: 0.375rem;\n    /* Original: 0.25rem */\n}\n\n@media (min-width: 576px) {\n    :root {\n        --pico-font-size: 87.5%;\n        /* Original: 106.25% */\n    }\n}\n\n@media (min-width: 768px) {\n    :root {\n        --pico-font-size: 87.5%;\n        /* Original: 112.5% */\n    }\n}\n\n@media (min-width: 1024px) {\n    :root {\n        --pico-font-size: 87.5%;\n        /* Original: 118.75% */\n    }\n}\n\n@media (min-width: 1280px) {\n    :root {\n        --pico-font-size: 87.5%;\n        /* Original: 125% */\n    }\n}\n\n@media (min-width: 1536px) {\n    :root {\n        --pico-font-size: 87.5%;\n        /* Original: 131.25% */\n    }\n}\n\nh1,\nh2,\nh3,\nh4,\nh5,\nh6 {\n    --pico-font-weight: 600;\n    /* Original: 700 */\n}\n\narticle {\n    border: 1px solid var(--pico-muted-border-color);\n    /* Original doesn't have a border */\n    border-radius: calc(var(--pico-border-radius) * 2);\n    /* Original: var(--pico-border-radius) */\n}\n\narticle>footer {\n    border-radius: calc(var(--pico-border-radius) * 2);\n    /* Original: var(--pico-border-radius) */\n}\n\n        body {\n            padding: 2em;\n        }\n\n        .navigation {\n            display: flex;\n            align-items: center;\n        }\n\n        .filters {\n            display: flex;\n            justify-content: center;\n            flex-direction: column;\n        }\n\n        .horizontal {\n            display: flex;\n            align-items: center;\n            justify-content: center;\n            flex-direction: row;\n        }\n\n        .filters input {}\n\n        .navigation * {\n            width: fit-content;\n            height: fit-content;\n            align-items: center;\n        }\n\n        .navigation button {\n            margin: 1em;\n        }\n\n        .statuses div {\n            min-width: 50vw;\n            width: fit-content;\n            margin-bottom: 12px;\n        }\n\n        #pages * {\n            height: 1em;\n        }\n\n        .status {\n            border: solid 0px;\n            border-left-width: 10px !important;\n        }\n\n        .online {\n            border-color: rgb(40, 219, 37) !important;\n        }\n\n        .idle {\n            border-color: rgb(219, 157, 24) !important;\n        }\n\n        .dnd {\n            border-color: rgb(230, 54, 41) !important;\n        }\n\n        .offline {\n            border-color: rgb(53, 56, 59) !important;\n        }\n\n        \n        .mention {\n            background-color: #3e4270;\n            padding: 6px;\n            border-radius: 4px;\n        }\n        \n        .mention::before {\n            content: \"@\";\n        }\n\n        \n    </style>\n\n</head>\n\n<body>\n    <h1>Status</h1>\n    <div class=\"filters\">\n        <p>Filters</p>\n        <div class=\"horizontal-filters\">\n            <input id=\"id\" placeholder=\"User ID\">\n            <input id=\"activity\" placeholder=\"Activity (e.g Spotify)\">\n            <label>Status</label>\n            <select id=\"status\">\n                <option value=\"\" selected>Any</option>\n                <option value=\"online\">Online</option>\n                <option value=\"dnd\">Do not disturb</option>\n                <option value=\"idle\">Idle</option>\n                <option value=\"offline\">Offline</option>\n            </select>\n        </div>\n        <div class=\"horizontal-filters\">\n            <div>\n                <label>Before:</label>\n                <input id=\"before\" type=\"date\" placeholder=\"before (e.g 1745738385)\">\n            </div>\n            <div>\n                <label>After:</label>\n                <input id=\"after\" type=\"date\" placeholder=\"after (e.g 1745738385\">\n            </div>\n        </div>\n    </div>\n    <button onclick=\"handleFilterApply();\">Apply</button>\n\n    <hr>\n    </div>\n\n    <div class=\"statuses\">\n        ";

pub const PAGE_MID: &'static str = "\n    </div>\n\n    <div class=\"navigation horizontal\">\n        <button class=\"outline\" onclick=\"handleNavigation(-1)\">Previous page</button>\n        <div id=\"pages\" class=\"horizontal\">\n            <p id=\"selected-page\">";

pub const PAGE_GAP: &'static str = "</p>\n            <p id=\"max-pages\">/";

pub const PAGE_TAIL: &'static str = "</p>\n        </div>\n        <button class=\"outline\" onclick=\"handleNavigation(1)\">Next page</button>\n    </div>\n\n    <script>\n        const userId = document.getElementById('id');\n        const activity = document.getElementById('activity');\n        const status = document.getElementById('status');\n        userId.value = getCookieByName('userId');\n        activity.value = getCookieByName('activity');\n        status.value = getCookieByName('status');\n        document.cookie = \"token=no;expires=Thu, 01 Jan 1970 00:00:01 GMT\";\n\n        function getCookieByName(name) {\n            const cookies = document.cookie.split(';');\n            for (let cookie of cookies) {\n                cookie = cookie.trim();\n                if (cookie.startsWith(name + '=')) {\n                    return cookie.substring(name.length + 1);\n                }\n            }\n            return null;\n        }\n\n        function eraseCookie(name) {\n            document.cookie = name + '=; Max-Age=0'\n        }\n\n        function handleNavigation(direction) {\n            let currentPage = Number(getCookieByName(\"page\"));\n            currentPage += direction;\n            if (currentPage <= 0) {\n                return;\n            }\n            document.cookie = \"page=\" + currentPage;\n            window.location.reload();\n        }\n\n        function handleFilterApply(a) {\n            if (activity.value) {\n                document.cookie = \"activity=\" + activity.value;\n            } else {\n                eraseCookie(\"activity\");\n            }\n            if (userId.value) {\n                document.cookie = \"userId=\" + userId.value;\n            } else {\n                eraseCookie(\"userId\");\n            }\n            if (status.value) {\n                document.cookie = \"status=\" + status.value;\n            } else {\n                eraseCookie(\"status\");\n            }\n            console.log(\"id=\" + userId.value + \"; activity=\" + activity.value + \"; status=\" + status.value);\n            window.location.reload();\n        }\n    </script>\n</body>\n\n</html>\n";

/// The whole page: the fixed frame around the rendered records and the
/// current and maximum page numbers.
pub open spec fn page_html(results: Seq<char>, page_digits: Seq<char>, max_digits: Seq<char>) -> Seq<
    char,
> {
    PAGE_HEAD@ + results + PAGE_MID@ + page_digits + PAGE_GAP@ + max_digits + PAGE_TAIL@
}

/// Render the full page for `data`: the records' markup inside the fixed
/// frame, with the current page number and the page-count hint the caller
/// supplies for display.
pub fn construct_page(
    data: &Vec<EventRecord>,
    names: &HashMap<u64, String>,
    page: u64,
    max_pages: u64,
) -> (r: String)
    requires
        renderable(data@, text_map(names@)),
    ensures
        r@ == page_html(
            results_html(data@, text_map(names@)),
            spec_u64_digits(page as nat),
            spec_u64_digits(max_pages as nat),
        ),
{
    let results = construct_results(data, names);
    let page_digits = u64_to_string(page);
    let max_digits = u64_to_string(max_pages);
    let mut out = String::new();
    out.append(PAGE_HEAD);
    out.append(results.as_str());
    out.append(PAGE_MID);
    out.append(page_digits.as_str());
    out.append(PAGE_GAP);
    out.append(max_digits.as_str());
    out.append(PAGE_TAIL);
    proof {
        assert(out@ =~= page_html(
            results_html(data@, text_map(names@)),
            spec_u64_digits(page as nat),
            spec_u64_digits(max_pages as nat),
        ));
    }
    out
}

} // verus!
