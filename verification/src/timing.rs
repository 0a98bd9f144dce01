//! Writing a metric into the `server-timing` header of a response.

use crate::entry::{
    entry_text, format_entry, lemma_entry_with_description, lemma_entry_without_description, merge,
    merged_text, text_of,
};
use crate::http_model::{
    first_value, header_values, is_name_char, is_static_name, is_visible_byte, name_text,
    replace_values,
};
use crate::layer::{MetricDescriptor, ServerTimingLayer};
use crate::text::{
    is_legal_value, is_value_char, is_visible_text, lemma_legal_value_bytes,
    lemma_legal_value_concat, lemma_visible_bytes_text, lemma_visible_text_bytes, visible_text,
};
use http::header::{HeaderMap, HeaderName, HeaderValue, MaxSizeReached};
use vstd::prelude::*;
use vstd::string::StringSliceAdditionalSpecFns;
use vstd::utf8::encode_utf8;

verus! {

/// The name of the header that carries the metrics.
pub const SERVER_TIMING: &'static str = "server-timing";

/// Why a header value was not written. Neither reason is an error of the
/// request: the response goes out without the new metric.
#[derive(Debug, Clone, Copy, PartialEq, Eq, Structural)]
pub enum HeaderWriteRejected {
    /// The text holds a character that no header value may hold.
    IllegalValue,
    /// The header map has reached its limit and took nothing more.
    CapacityExceeded,
}

/// The text of the `server-timing` header in what a header map holds: that of
/// the first value stored under the name, where there is one and it reads as
/// text.
pub open spec fn existing_text(values: Map<Seq<char>, Seq<Seq<u8>>>) -> Option<Seq<char>> {
    if values.contains_key(SERVER_TIMING@) {
        visible_text(values[SERVER_TIMING@][0])
    } else {
        None
    }
}

/// What a header map holds once `text` has been written as its
/// `server-timing` header: the text is the only value under that name, and
/// every other header is as it was.
pub open spec fn with_header(values: Map<Seq<char>, Seq<Seq<u8>>>, text: Seq<char>) -> Map<
    Seq<char>,
    Seq<Seq<u8>>,
> {
    values.insert(SERVER_TIMING@, seq![encode_utf8(text)])
}

/// How an attempt to write `text` has ended, with what the header map held
/// `before` and holds `after`. A text that no header value can hold is always
/// rejected as illegal; a text that can be held is either written or refused
/// for want of room, as the map decides. Unless it is written, the map holds
/// what it held.
pub open spec fn write_outcome(
    before: Map<Seq<char>, Seq<Seq<u8>>>,
    after: Map<Seq<char>, Seq<Seq<u8>>>,
    text: Seq<char>,
    written: Result<(), HeaderWriteRejected>,
) -> bool {
    match written {
        Ok(()) => is_legal_value(text) && after == with_header(before, text),
        Err(HeaderWriteRejected::IllegalValue) => !is_legal_value(text) && after == before,
        Err(HeaderWriteRejected::CapacityExceeded) => is_legal_value(text) && after == before,
    }
}

/// The header value that a metric is reported with on a response that holds
/// `values`: its entry, followed by what the response already carries.
pub open spec fn timing_text(
    metric: MetricDescriptor,
    dur: Seq<char>,
    values: Map<Seq<char>, Seq<Seq<u8>>>,
) -> Seq<char> {
    merged_text(entry_text(metric.name, metric.description, dur), existing_text(values))
}

/// The header name is one that `http` takes as a static name.
pub proof fn lemma_server_timing_name()
    ensures
        is_static_name(SERVER_TIMING@),
{
    reveal_strlit("server-timing");
    assert(SERVER_TIMING@.len() == 13);
    assert forall|i: int| 0 <= i < 13 implies is_name_char(#[trigger] SERVER_TIMING@[i]) by {}
}

/// The header name, as the header map takes it.
fn server_timing_name() -> (name: HeaderName)
    ensures
        name_text(name) == SERVER_TIMING@,
{
    proof {
        lemma_server_timing_name();
    }
    HeaderName::from_static(SERVER_TIMING)
}

/// Reads the `server-timing` header that the response already carries. A
/// value that is not visible ASCII has no text and counts as absent.
pub fn read_existing<'a>(headers: &'a HeaderMap<HeaderValue>) -> (existing: Option<&'a str>)
    ensures
        text_of(existing) == existing_text(header_values(*headers)),
{
    let name = server_timing_name();
    match first_value(headers, &name) {
        Some(value) => match value.to_str() {
            Ok(text) => {
                proof {
                    lemma_visible_bytes_text(text@);
                }
                Some(text)
            },
            Err(_) => None,
        },
        None => None,
    }
}

/// What a write has come to, given what the header map answered when it was
/// asked to store the value.
pub fn stored_outcome(stored: Result<Option<HeaderValue>, MaxSizeReached>) -> (written: Result<
    (),
    HeaderWriteRejected,
>)
    ensures
        stored is Ok ==> written is Ok,
        stored is Err ==> written matches Err(HeaderWriteRejected::CapacityExceeded),
{
    match stored {
        Ok(_) => Ok(()),
        Err(_) => Err(HeaderWriteRejected::CapacityExceeded),
    }
}

/// Writes `text` as the `server-timing` header, in place of every value that
/// was stored under that name. A text that no header value can hold is
/// rejected; so is any text when the map has reached its limit. Either way
/// the map then holds what it held before.
pub fn write_header(headers: &mut HeaderMap<HeaderValue>, text: &str) -> (written: Result<
    (),
    HeaderWriteRejected,
>)
    ensures
        write_outcome(
            header_values(*old(headers)),
            header_values(*final(headers)),
            text@,
            written,
        ),
{
    proof {
        lemma_legal_value_bytes(text@);
    }
    match HeaderValue::from_str(text) {
        Ok(value) => {
            let name = server_timing_name();
            stored_outcome(replace_values(headers, name, value))
        },
        Err(_) => Err(HeaderWriteRejected::IllegalValue),
    }
}

/// Reports a metric on a response: formats the entry, puts it in front of the
/// `server-timing` header that the response already carries, and writes the
/// result back. `dur` is the elapsed time in milliseconds as a decimal.
///
/// Where the value cannot be written the headers stay as they were, and the
/// reason is returned for the caller to log or to drop.
pub fn record(
    headers: &mut HeaderMap<HeaderValue>,
    metric: &ServerTimingLayer<'_>,
    dur: &str,
) -> (written: Result<(), HeaderWriteRejected>)
    ensures
        write_outcome(
            header_values(*old(headers)),
            header_values(*final(headers)),
            timing_text(metric@, dur@, header_values(*old(headers))),
            written,
        ),
{
    let entry = format_entry(metric.app(), metric.description(), dur);
    let text = merge(entry, read_existing(headers));
    write_header(headers, text.as_str())
}

/// On a response that carries no `server-timing` text yet, the header is the
/// entry alone: `name;dur=<decimal>`, or `name;desc="description";dur=<decimal>`
/// where the metric has a description.
pub proof fn lemma_first_metric(
    metric: MetricDescriptor,
    dur: Seq<char>,
    values: Map<Seq<char>, Seq<Seq<u8>>>,
)
    requires
        existing_text(values) is None,
    ensures
        metric.description is None ==> timing_text(metric, dur, values) == metric.name + ";dur="@
            + dur,
        metric.description matches Some(description) ==> timing_text(metric, dur, values)
            == metric.name + ";desc=\""@ + description + "\";dur="@ + dur,
{
    lemma_entry_without_description(metric.name, dur);
    if let Some(description) = metric.description {
        lemma_entry_with_description(metric.name, description, dur);
    }
}

/// On a response that carries the text `old`, the header is the entry, a
/// comma, a space, and `old` as it was.
pub proof fn lemma_later_metric(
    metric: MetricDescriptor,
    dur: Seq<char>,
    values: Map<Seq<char>, Seq<Seq<u8>>>,
    old: Seq<char>,
)
    requires
        existing_text(values) == Some(old),
    ensures
        timing_text(metric, dur, values) == entry_text(metric.name, metric.description, dur)
            + ", "@ + old,
{
}

/// A header is rejected as illegal exactly when the name, the description or
/// the duration holds a control character other than a tab. What the response
/// already carries never causes it.
pub proof fn lemma_legal_timing_text(
    metric: MetricDescriptor,
    dur: Seq<char>,
    values: Map<Seq<char>, Seq<Seq<u8>>>,
)
    ensures
        is_legal_value(timing_text(metric, dur, values)) <==> {
            &&& is_legal_value(metric.name)
            &&& metric.description matches Some(description) ==> is_legal_value(description)
            &&& is_legal_value(dur)
        },
{
    reveal_strlit(";");
    reveal_strlit("desc=\"");
    reveal_strlit("\";");
    reveal_strlit("dur=");
    reveal_strlit(", ");
    assert(is_legal_value(";"@));
    assert(is_legal_value("desc=\""@));
    assert(is_legal_value("\";"@));
    assert(is_legal_value("dur="@));
    assert(is_legal_value(", "@));
    assert(is_legal_value(Seq::<char>::empty()));
    let desc = match metric.description {
        Some(d) => "desc=\""@ + d + "\";"@,
        None => Seq::<char>::empty(),
    };
    if let Some(d) = metric.description {
        lemma_legal_value_concat("desc=\""@, d);
        lemma_legal_value_concat("desc=\""@ + d, "\";"@);
    }
    let entry = entry_text(metric.name, metric.description, dur);
    lemma_legal_value_concat(metric.name, ";"@);
    lemma_legal_value_concat(metric.name + ";"@, desc);
    lemma_legal_value_concat(metric.name + ";"@ + desc, "dur="@);
    lemma_legal_value_concat(metric.name + ";"@ + desc + "dur="@, dur);
    if let Some(old) = existing_text(values) {
        let bytes = values[SERVER_TIMING@][0];
        assert forall|i: int| 0 <= i < old.len() implies is_value_char(#[trigger] old[i]) by {
            assert(is_visible_byte(bytes[i]));
        }
        lemma_legal_value_concat(entry, ", "@);
        lemma_legal_value_concat(entry + ", "@, old);
    }
}

/// A written header is read back as it was written: where `text` is visible
/// ASCII, a map that holds it as its `server-timing` header reads as `text`.
/// So the metric of an outer layer comes to stand in front of the metric that
/// an inner layer wrote.
pub proof fn lemma_written_header_reads_back(
    values: Map<Seq<char>, Seq<Seq<u8>>>,
    text: Seq<char>,
    outer: MetricDescriptor,
    dur: Seq<char>,
)
    requires
        is_visible_text(text),
    ensures
        existing_text(with_header(values, text)) == Some(text),
        timing_text(outer, dur, with_header(values, text)) == entry_text(
            outer.name,
            outer.description,
            dur,
        ) + ", "@ + text,
{
    lemma_visible_text_bytes(text);
}

} // verus!
