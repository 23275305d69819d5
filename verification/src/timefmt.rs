use vstd::prelude::*;

verus! {

/// The calendar rendering of a capture time: what chrono prints for the
/// given seconds since the Unix epoch under "%Y-%m-%d %H:%M:%S", in UTC.
/// The rendering depends on the seconds alone.
pub uninterp spec fn timestamp_text(secs: int) -> Seq<char>;

/// The capture times this library undertakes to render: comfortably
/// inside the roughly 262,000 years around the common era that chrono's
/// calendar covers.
pub open spec fn ts_renderable(secs: int) -> bool {
    -7_000_000_000_000 <= secs <= 7_000_000_000_000
}

/// Relies on chrono's DateTime::from_timestamp and the "%Y-%m-%d
/// %H:%M:%S" formatting of the resulting UTC date: the rendering is a
/// function of the seconds alone, and None comes only of seconds outside
/// chrono's calendar range, which is wider than `ts_renderable`.
#[verifier::external_body]
pub(crate) fn fmt_utc_seconds(secs: i64) -> (r: Option<String>)
    ensures
        r matches Some(s) ==> s@ == timestamp_text(secs as int),
        ts_renderable(secs as int) ==> r is Some,
{
    chrono::DateTime::from_timestamp(secs, 0).map(|dt| dt.format("%Y-%m-%d %H:%M:%S").to_string())
}

} // verus!
