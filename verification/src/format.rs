use vstd::prelude::*;
use vstd::string::StringExecFns;

use crate::EntryKind;

verus! {

/// The character of one decimal digit.
pub open spec fn digit_char(d: nat) -> char {
    if d == 0 {
        '0'
    } else if d == 1 {
        '1'
    } else if d == 2 {
        '2'
    } else if d == 3 {
        '3'
    } else if d == 4 {
        '4'
    } else if d == 5 {
        '5'
    } else if d == 6 {
        '6'
    } else if d == 7 {
        '7'
    } else if d == 8 {
        '8'
    } else {
        '9'
    }
}

/// The plain decimal rendering of a number: no sign, no separators, no
/// leading zero except for zero itself.
pub open spec fn dec_string(n: nat) -> Seq<char>
    decreases n,
{
    if n < 10 {
        seq![digit_char(n)]
    } else {
        dec_string(n / 10) + seq![digit_char(n % 10)]
    }
}

/// One decimal digit as a string slice.
fn digit_str(d: u64) -> (r: &'static str)
    requires
        d < 10,
    ensures
        r@ == seq![digit_char(d as nat)],
{
    proof {
        reveal_strlit("0");
        reveal_strlit("1");
        reveal_strlit("2");
        reveal_strlit("3");
        reveal_strlit("4");
        reveal_strlit("5");
        reveal_strlit("6");
        reveal_strlit("7");
        reveal_strlit("8");
        reveal_strlit("9");
        assert("0"@ =~= seq!['0']);
        assert("1"@ =~= seq!['1']);
        assert("2"@ =~= seq!['2']);
        assert("3"@ =~= seq!['3']);
        assert("4"@ =~= seq!['4']);
        assert("5"@ =~= seq!['5']);
        assert("6"@ =~= seq!['6']);
        assert("7"@ =~= seq!['7']);
        assert("8"@ =~= seq!['8']);
        assert("9"@ =~= seq!['9']);
    }
    match d {
        0 => "0",
        1 => "1",
        2 => "2",
        3 => "3",
        4 => "4",
        5 => "5",
        6 => "6",
        7 => "7",
        8 => "8",
        _ => "9",
    }
}

/// Formats a byte count (or any other number) as a plain decimal integer,
/// with no unit scaling.
pub fn format_size(n: u64) -> (r: String)
    ensures
        r@ == dec_string(n as nat),
    decreases n,
{
    if n < 10 {
        String::from_str(digit_str(n))
    } else {
        let mut s = format_size(n / 10);
        s.append(digit_str(n % 10));
        proof {
            assert(s@ =~= dec_string(n as nat));
        }
        s
    }
}

/// One slot of the permission string: the flag's letter when its bit is
/// set, `-` otherwise.
pub open spec fn perm_char(set: bool, c: char) -> char {
    if set {
        c
    } else {
        '-'
    }
}

/// The stable rendering of POSIX mode bits: nine characters, rwx for
/// owner, group and others.
pub open spec fn perm_string(mode: u32) -> Seq<char> {
    seq![
        perm_char(mode & 0x100 != 0, 'r'),
        perm_char(mode & 0x80 != 0, 'w'),
        perm_char(mode & 0x40 != 0, 'x'),
        perm_char(mode & 0x20 != 0, 'r'),
        perm_char(mode & 0x10 != 0, 'w'),
        perm_char(mode & 0x8 != 0, 'x'),
        perm_char(mode & 0x4 != 0, 'r'),
        perm_char(mode & 0x2 != 0, 'w'),
        perm_char(mode & 0x1 != 0, 'x'),
    ]
}

/// One slot of the permission string as a string slice.
fn perm_str(set: bool, letter: &'static str) -> (r: &'static str)
    requires
        letter@.len() == 1,
    ensures
        r@ == seq![perm_char(set, letter@[0])],
{
    proof {
        reveal_strlit("-");
        assert("-"@ =~= seq!['-']);
    }
    if set {
        proof {
            assert(letter@ =~= seq![letter@[0]]);
        }
        letter
    } else {
        "-"
    }
}

/// The marker used where the platform reports no permission bits.
pub open spec fn unsupported_marker() -> Seq<char> {
    "unsupported"@
}

/// Formats a permission descriptor: the nine rwx characters of the mode
/// bits where the platform supplies them, a fixed marker otherwise.
pub fn format_permissions(mode: Option<u32>) -> (r: String)
    ensures
        mode matches Some(m) ==> r@ == perm_string(m),
        mode is None ==> r@ == unsupported_marker(),
{
    proof {
        reveal_strlit("r");
        reveal_strlit("w");
        reveal_strlit("x");
        assert("r"@ =~= seq!['r']);
        assert("w"@ =~= seq!['w']);
        assert("x"@ =~= seq!['x']);
    }
    match mode {
        Some(m) => {
            let mut s = String::new();
            s.append(perm_str(m & 0x100 != 0, "r"));
            s.append(perm_str(m & 0x80 != 0, "w"));
            s.append(perm_str(m & 0x40 != 0, "x"));
            s.append(perm_str(m & 0x20 != 0, "r"));
            s.append(perm_str(m & 0x10 != 0, "w"));
            s.append(perm_str(m & 0x8 != 0, "x"));
            s.append(perm_str(m & 0x4 != 0, "r"));
            s.append(perm_str(m & 0x2 != 0, "w"));
            s.append(perm_str(m & 0x1 != 0, "x"));
            proof {
                assert(s@ =~= perm_string(m));
            }
            s
        },
        None => String::from_str("unsupported"),
    }
}

/// The display label of an entry kind.
pub open spec fn kind_label_spec(kind: EntryKind) -> Seq<char> {
    match kind {
        EntryKind::Directory => "Directory"@,
        EntryKind::File => "File"@,
        EntryKind::Symlink => "Symlink"@,
        EntryKind::Unknown => "Unknown"@,
    }
}

/// Names an entry kind for display.
pub fn kind_label(kind: EntryKind) -> (r: String)
    ensures
        r@ == kind_label_spec(kind),
{
    match kind {
        EntryKind::Directory => String::from_str("Directory"),
        EntryKind::File => String::from_str("File"),
        EntryKind::Symlink => String::from_str("Symlink"),
        EntryKind::Unknown => String::from_str("Unknown"),
    }
}

/// The sentinel shown where a timestamp could not be retrieved.
pub open spec fn time_error_message() -> Seq<char> {
    "Error fetching time"@
}

/// A decimal digit character.
pub open spec fn is_dec_digit(c: char) -> bool {
    '0' <= c && c <= '9'
}

/// The shape of a rendered timestamp with a four-digit year:
/// `MM/DD/YYYY hh:mm` followed by `AM` or `PM`, every other position a
/// digit.
pub open spec fn stamp_shape(s: Seq<char>) -> bool {
    &&& s.len() == 19
    &&& is_dec_digit(s[0]) && is_dec_digit(s[1]) && s[2] == '/'
    &&& is_dec_digit(s[3]) && is_dec_digit(s[4]) && s[5] == '/'
    &&& is_dec_digit(s[6]) && is_dec_digit(s[7]) && is_dec_digit(s[8]) && is_dec_digit(s[9])
    &&& s[10] == ' '
    &&& is_dec_digit(s[11]) && is_dec_digit(s[12]) && s[13] == ':'
    &&& is_dec_digit(s[14]) && is_dec_digit(s[15]) && s[16] == ' '
    &&& (s[17] == 'A' || s[17] == 'P') && s[18] == 'M'
}

/// Relies on chrono: `DateTime::from_timestamp` returns `Some` for every
/// in-range number of seconds and `None` otherwise (the stated range is
/// well inside the documented one), and a `DateTime` renders through
/// `with_timezone(&Local)` and `format` with `%m/%d/%Y %I:%M %p`. Which
/// stamp comes out depends on the machine's time zone, but its shape does
/// not: `%m`, `%d`, `%I` and `%M` are zero-padded pairs of digits, `%Y`
/// is exactly four digits for years 1000 through 9999, `%p` is the fixed
/// `AM`/`PM` pair, and a local offset is under a day, so every second
/// count from the year 1020 up to the year 5000 and beyond renders in
/// that shape — and no rendering, whatever the year, begins with
/// anything but a digit, so none equals the sentinel.
#[verifier::external_body]
fn chrono_local_stamp(secs: i64) -> (r: Option<String>)
    ensures
        -1000000000000 <= secs <= 1000000000000 ==> r is Some,
        r matches Some(s) ==> s@ != time_error_message(),
        -30000000000 <= secs <= 100000000000 ==> (r matches Some(s) ==> stamp_shape(s@)),
{
    match chrono::DateTime::from_timestamp(secs, 0) {
        Some(utc) => Some(
            utc.with_timezone(&chrono::Local).format("%m/%d/%Y %I:%M %p").to_string(),
        ),
        None => None,
    }
}

/// Formats a modification (or creation, or access) time, given as seconds
/// since the Unix epoch, as month/day/year and a 12-hour clock in the
/// local time zone; where the timestamp is absent or out of range, the
/// fixed sentinel takes its place. For any timestamp within some thirty
/// millennia of the epoch the rendering is owed and is never
/// the sentinel; from roughly the year 1020 up past the year 5000 it has
/// the full `MM/DD/YYYY hh:mm AM|PM` shape (outside that band the year
/// is not four digits, so the shape is not promised).
pub fn format_timestamp(t: Option<i64>) -> (r: String)
    ensures
        t is None ==> r@ == time_error_message(),
        t matches Some(secs) && -1000000000000 <= secs <= 1000000000000 ==> r@
            != time_error_message(),
        t matches Some(secs) && -30000000000 <= secs <= 100000000000 ==> stamp_shape(r@),
{
    match t {
        Some(secs) => {
            match chrono_local_stamp(secs) {
                Some(s) => s,
                None => String::from_str("Error fetching time"),
            }
        },
        None => String::from_str("Error fetching time"),
    }
}

} // verus!
