//! The text of a `server-timing` header value.
//!
//! ```text
//! metric-entry = name [";" "desc=" DQUOTE description DQUOTE] ";" "dur=" decimal
//! header-value = metric-entry ["," SP existing-header-value]
//! ```

use vstd::prelude::*;

verus! {

/// The characters of an optional string.
pub open spec fn text_of(s: Option<&str>) -> Option<Seq<char>> {
    match s {
        Some(t) => Some(t@),
        None => None,
    }
}

/// One metric entry: the name, the quoted description if there is one, and the
/// duration, separated by semicolons.
pub open spec fn entry_text(name: Seq<char>, description: Option<Seq<char>>, dur: Seq<char>) -> Seq<
    char,
> {
    let desc = match description {
        Some(d) => "desc=\""@ + d + "\";"@,
        None => Seq::<char>::empty(),
    };
    name + ";"@ + desc + "dur="@ + dur
}

/// The header value that carries `entry` when the response already holds
/// `existing`: the new entry comes first, and what was there follows it
/// unchanged after a comma and a space.
pub open spec fn merged_text(entry: Seq<char>, existing: Option<Seq<char>>) -> Seq<char> {
    match existing {
        Some(old) => entry + ", "@ + old,
        None => entry,
    }
}

/// Writes one metric entry. `dur` is the elapsed time in milliseconds, already
/// rendered as a decimal; `name` and `description` are written as they are.
pub fn format_entry(name: &str, description: Option<&str>, dur: &str) -> (out: String)
    ensures
        out@ == entry_text(name@, text_of(description), dur@),
{
    let mut out = String::from_str(name);
    out.append(";");
    if let Some(d) = description {
        out.append("desc=\"");
        out.append(d);
        out.append("\";");
    }
    out.append("dur=");
    out.append(dur);
    out
}

/// Puts `entry` in front of the header value that is already there, if any.
/// The existing value is never looked into.
pub fn merge(entry: String, existing: Option<&str>) -> (out: String)
    ensures
        out@ == merged_text(entry@, text_of(existing)),
{
    match existing {
        Some(old) => {
            let mut out = entry;
            out.append(", ");
            out.append(old);
            out
        },
        None => entry,
    }
}

/// Without a description an entry reads `name;dur=<decimal>`.
pub proof fn lemma_entry_without_description(name: Seq<char>, dur: Seq<char>)
    ensures
        entry_text(name, None, dur) == name + ";dur="@ + dur,
{
    reveal_strlit(";");
    reveal_strlit("dur=");
    reveal_strlit(";dur=");
    assert(";"@ + Seq::<char>::empty() + "dur="@ =~= ";dur="@);
    assert(entry_text(name, None, dur) =~= name + (";"@ + Seq::<char>::empty() + "dur="@) + dur);
}

/// With a description an entry reads `name;desc="description";dur=<decimal>`.
pub proof fn lemma_entry_with_description(name: Seq<char>, description: Seq<char>, dur: Seq<char>)
    ensures
        entry_text(name, Some(description), dur) == name + ";desc=\""@ + description + "\";dur="@
            + dur,
{
    reveal_strlit(";");
    reveal_strlit("desc=\"");
    reveal_strlit("\";");
    reveal_strlit("dur=");
    reveal_strlit(";desc=\"");
    reveal_strlit("\";dur=");
    assert(";"@ + "desc=\""@ =~= ";desc=\""@);
    assert("\";"@ + "dur="@ =~= "\";dur="@);
    assert(entry_text(name, Some(description), dur) =~= name + (";"@ + "desc=\""@) + description
        + ("\";"@ + "dur="@) + dur);
}

/// Merging puts the new entry first and leaves the old value as it is, after
/// a comma and a space: nothing of the old value is moved, dropped or looked
/// into, and an empty old value still gets its separator.
pub proof fn lemma_merge_prepends(entry: Seq<char>, old: Seq<char>)
    ensures
        merged_text(entry, Some(old)) == entry + ", "@ + old,
        merged_text(entry, Some(old)).subrange(0, entry.len() as int) == entry,
        merged_text(entry, Some(old)).skip(entry.len() as int + 2) == old,
        merged_text(entry, Some(old)).len() == entry.len() + 2 + old.len(),
        merged_text(entry, Some(Seq::<char>::empty())) == entry + ", "@,
        merged_text(entry, None) == entry,
{
    reveal_strlit(", ");
    assert(merged_text(entry, Some(old)).subrange(0, entry.len() as int) =~= entry);
    assert(merged_text(entry, Some(old)).skip(entry.len() as int + 2) =~= old);
    assert(merged_text(entry, Some(Seq::<char>::empty())) =~= entry + ", "@);
}

} // verus!
