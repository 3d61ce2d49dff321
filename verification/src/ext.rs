//! Trusted wrappers around the outside crates that the library leans on.

use vstd::prelude::*;

use chrono::Datelike;
use chrono::TimeZone;
use chrono::Timelike;

use crate::flow_project::TimeParts;
use crate::package::named_strings_view;

verus! {

/// Relies on chrono: `Local.timestamp_opt` maps a unix timestamp to the
/// machine's local calendar time, and the `Datelike`/`Timelike` accessors
/// keep their documented ranges. The Some/None split is a pure range check
/// on the seconds (about ±262,000 years around the epoch), so every
/// timestamp within the strictly smaller promised bounds converts; which
/// fields come back depends on the machine's time zone, so of the fields
/// only the ranges are promised.
#[verifier::external_body]
pub(crate) fn local_time_parts(secs: i64) -> (r: Option<TimeParts>)
    ensures
        r matches Option::Some(p) ==> 1 <= p.month <= 12 && 1 <= p.day <= 31 && p.hour < 24
            && p.minute < 60 && p.second < 60,
        crate::flow_project::TIMESTAMP_SECS_MIN <= secs
            <= crate::flow_project::TIMESTAMP_SECS_MAX ==> r is Some,
{
    match chrono::Local.timestamp_opt(secs, 0) {
        chrono::LocalResult::None => Option::None,
        chrono::LocalResult::Single(dt) | chrono::LocalResult::Ambiguous(dt, _) => Option::Some(
            TimeParts {
                year: dt.year(),
                month: dt.month() as u8,
                day: dt.day() as u8,
                hour: dt.hour() as u8,
                minute: dt.minute() as u8,
                second: dt.second() as u8,
            },
        ),
    }
}

/// What the template engine produces for a template and a data mapping, or
/// `None` where registering or rendering the template fails. The outcome is a
/// function of the template text and the data alone.
pub uninterp spec fn hb_render(template: Seq<char>, data: Map<Seq<char>, Seq<char>>) -> Option<
    Seq<char>,
>;

/// The mapping built up by a sequence of key-value pairs; a later pair wins
/// over an earlier one with the same key.
pub open spec fn pairs_map(pairs: Seq<(Seq<char>, Seq<char>)>) -> Map<Seq<char>, Seq<char>>
    decreases pairs.len(),
{
    if pairs.len() == 0 {
        Map::empty()
    } else {
        pairs_map(pairs.drop_last()).insert(pairs.last().0, pairs.last().1)
    }
}

/// Relies on handlebars' `Handlebars::render_template`: registering and
/// rendering a template is a function of the template text and the data
/// handed over; a missing placeholder renders empty, a malformed template
/// fails. Templates using partial or decorator syntax are kept out by the
/// precondition: the engine does not bound the recursion of mutually
/// inclusive inline partials, so the call is not guaranteed to return on
/// such input.
#[verifier::external_body]
pub(crate) fn render_template(template: &str, data: &Vec<(String, String)>) -> (r: Result<
    String,
    String,
>)
    requires
        !crate::text::uses_partials(template@),
    ensures
        match r {
            Result::Ok(s) => hb_render(template@, pairs_map(named_strings_view(data@)))
                == Option::Some(s@),
            Result::Err(_) => hb_render(template@, pairs_map(named_strings_view(data@))) is None,
        },
{
    let registry = handlebars::Handlebars::new();
    let map: std::collections::HashMap<String, String> = data.iter().cloned().collect();
    match registry.render_template(template, &map) {
        Result::Ok(s) => Result::Ok(s),
        Result::Err(e) => Result::Err(e.to_string()),
    }
}

/// What rendering yields behind the partial guard: a template using partial
/// or decorator syntax is refused outright, anything else is the engine's
/// own outcome.
pub open spec fn guarded_render(template: Seq<char>, data: Map<Seq<char>, Seq<char>>) -> Option<
    Seq<char>,
> {
    if crate::text::uses_partials(template) {
        Option::None
    } else {
        hb_render(template, data)
    }
}

/// Renders a template after checking it for partial syntax, which the
/// engine's contract keeps out.
pub(crate) fn render_template_guarded(template: &str, data: &Vec<(String, String)>) -> (r: Result<
    String,
    String,
>)
    ensures
        match r {
            Result::Ok(s) => guarded_render(template@, pairs_map(named_strings_view(data@)))
                == Option::Some(s@),
            Result::Err(_) => guarded_render(
                template@,
                pairs_map(named_strings_view(data@)),
            ) is None,
        },
{
    if crate::text::template_uses_partials(template) {
        return Result::Err(
            "the template uses partials, which this renderer does not support".to_owned(),
        );
    }
    render_template(template, data)
}

} // verus!
