//! The article value type the inbox holds, and its two display lines.

use vstd::prelude::*;

verus! {

/// Seconds either side of the Unix epoch within which a timestamp is shown
/// as a calendar date. The bound lies well inside the range chrono's
/// `DateTime` can represent (about 262,000 years each way), so rendering a
/// timestamp inside it cannot fail.
pub const DISPLAY_TS_BOUND: i64 = 8_000_000_000_000;

/// One feed item, as the fetch side hands it over. `published` is seconds
/// since the Unix epoch; items without one sort after all dated items.
#[derive(Debug, Clone)]
pub struct Article {
    pub id: String,
    pub source: String,
    pub title: String,
    pub summary: String,
    pub link: String,
    pub published: Option<i64>,
}

/// A timestamp the date line can render as a calendar date.
pub open spec fn displayable(t: i64) -> bool {
    -DISPLAY_TS_BOUND <= t <= DISPLAY_TS_BOUND
}

/// The text `"%Y-%m-%d %H:%M"` formatting gives a timestamp, as chrono
/// renders it. The result is a function of the timestamp alone, so it is
/// only named here, never spelled out.
pub uninterp spec fn date_display_of(t: int) -> Seq<char>;

/// Relies on chrono's `DateTime::<Utc>::from_timestamp` (total on the
/// required range) and on formatting the result with `"%Y-%m-%d %H:%M"`:
/// purely numeric output, a function of the timestamp alone.
#[verifier::external_body]
fn format_timestamp(t: i64) -> (r: String)
    requires
        displayable(t),
    ensures
        r@ == date_display_of(t as int),
{
    match chrono::DateTime::from_timestamp(t, 0) {
        Some(dt) => dt.format("%Y-%m-%d %H:%M").to_string(),
        None => String::new(),
    }
}

/// What the date line shows for a given publication field: the formatted
/// date for a displayable timestamp, an em dash otherwise.
pub open spec fn date_line_of(p: Option<i64>) -> Seq<char> {
    match p {
        Some(t) => if displayable(t) {
            date_display_of(t as int)
        } else {
            "—"@
        },
        None => "—"@,
    }
}

impl Article {
    /// The sender column of the inbox row: the feed's display name.
    pub fn sender_line(&self) -> (r: String)
        ensures
            r@ == self.source@,
    {
        self.source.clone()
    }

    /// The date column of the inbox row.
    pub fn date_line(&self) -> (r: String)
        ensures
            r@ == date_line_of(self.published),
    {
        match self.published {
            Some(t) => {
                if -DISPLAY_TS_BOUND <= t && t <= DISPLAY_TS_BOUND {
                    format_timestamp(t)
                } else {
                    "—".to_owned()
                }
            },
            None => "—".to_owned(),
        }
    }
}

} // verus!
