//! Names the file of a recording after the time at which it starts.

use crate::config::Container;
use vstd::prelude::*;
use vstd::string::{StrSliceExecFns, StringExecFns};

verus! {

/// The file name of the recording that starts at `stamp`.
pub open spec fn recording_name(stamp: Seq<char>, format: Container) -> Seq<char> {
    "recording_"@ + stamp + "."@ + format.extension_text()
}

/// The path of `name` inside `dir`. The two are joined by one slash, unless
/// `dir` is empty or ends with a slash already.
pub open spec fn in_directory(dir: Seq<char>, name: Seq<char>) -> Seq<char> {
    if dir.len() == 0 || dir.last() == '/' {
        dir + name
    } else {
        dir + "/"@ + name
    }
}

/// The pattern of a stamp: year, month and day, then hour, minute and second.
pub open spec fn stamp_pattern() -> Seq<char> {
    "%Y-%m-%d_%H-%M-%S"@
}

/// True for the decimal digits.
pub open spec fn is_digit_char(c: char) -> bool {
    '0' <= c <= '9'
}

/// The shape of a stamp. It ends with the month, the day, the hour, the
/// minute and the second, two digits each, with their separators. Before
/// them stands the year: four digits or more, behind a sign where the year
/// lies outside 0 to 9999.
pub open spec fn is_stamp(text: Seq<char>) -> bool {
    let year = text.len() - 15;
    &&& text.len() >= 19
    &&& forall|i: int|
        0 <= i < year ==> is_digit_char(#[trigger] text[i]) || (i == 0 && (text[i] == '+'
            || text[i] == '-'))
    &&& text[year] == '-'
    &&& is_digit_char(text[year + 1])
    &&& is_digit_char(text[year + 2])
    &&& text[year + 3] == '-'
    &&& is_digit_char(text[year + 4])
    &&& is_digit_char(text[year + 5])
    &&& text[year + 6] == '_'
    &&& is_digit_char(text[year + 7])
    &&& is_digit_char(text[year + 8])
    &&& text[year + 9] == '-'
    &&& is_digit_char(text[year + 10])
    &&& is_digit_char(text[year + 11])
    &&& text[year + 12] == '-'
    &&& is_digit_char(text[year + 13])
    &&& is_digit_char(text[year + 14])
}

/// The local time of the call, as `chrono::Local::now` gives it, formatted by
/// `chrono` with `pattern`. Which time it is depends on the clock and on the
/// time zone of the machine; what is claimed is the shape that `chrono` gives
/// to every time under the stamp pattern: the year padded with zeros to four
/// digits, or signed, and every other field padded to two. Formatting panics
/// on a pattern that `chrono` cannot read, so the stamp pattern alone is
/// admitted. `chrono` also panics where the clock stands before 1970.
#[verifier::external_body]
fn local_time_text(pattern: &str) -> (text: String)
    requires
        pattern@ == stamp_pattern(),
    ensures
        is_stamp(text@),
{
    chrono::Local::now().format(pattern).to_string()
}

/// The file name of the recording that starts at `stamp`.
pub fn recording_file_name(stamp: &str, format: Container) -> (name: String)
    ensures
        name@ == recording_name(stamp@, format),
{
    let mut name = String::from_str("recording_");
    name.append(stamp);
    name.append(".");
    name.append(format.extension());
    name
}

/// The path of the recording that starts at `stamp`, inside `out_dir`.
pub fn recording_path(out_dir: &str, stamp: &str, format: Container) -> (path: String)
    ensures
        path@ == in_directory(out_dir@, recording_name(stamp@, format)),
{
    let name = recording_file_name(stamp, format);
    let mut path = String::from_str(out_dir);
    let len = out_dir.unicode_len();
    if len > 0 && out_dir.get_char(len - 1) != '/' {
        path.append("/");
    }
    path.append(name.as_str());
    path
}

/// A fresh path inside `out_dir` for a recording that starts now: the name is
/// made of the local time, to the second, and of the extension of `format`.
pub fn next_filename(out_dir: &str, format: Container) -> (path: String)
    ensures
        exists|stamp: Seq<char>|
            is_stamp(stamp) && path@ == in_directory(
                out_dir@,
                #[trigger] recording_name(stamp, format),
            ),
{
    let stamp = local_time_text("%Y-%m-%d_%H-%M-%S");
    recording_path(out_dir, stamp.as_str(), format)
}

} // verus!
