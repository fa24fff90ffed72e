//! The version that a metadata location carries.
//!
//! The metadata of a table lies at `<table>/metadata/<version>-<id>.metadata.json`.
//! A commit writes the new metadata under the next version. The version is a
//! signed 32-bit number, so a location that carries the greatest of them has
//! no next one.

use vstd::prelude::*;
use vstd::string::StrSliceExecFns;

verus! {

/// The greatest version, as it is written.
pub open spec fn last_version_digits() -> Seq<char> {
    seq!['2', '1', '4', '7', '4', '8', '3', '6', '4', '7']
}

/// Where the file name of a location begins: after its last slash, or at the
/// start where it has none.
pub open spec fn file_name_start(location: Seq<char>) -> int
    decreases location.len(),
{
    if location.len() == 0 {
        0
    } else if location.last() == '/' {
        location.len() as int
    } else {
        file_name_start(location.drop_last())
    }
}

/// Where the version of a file name that begins at `from` ends: at the first
/// hyphen, or at the end of the location where there is none.
pub open spec fn version_end(location: Seq<char>, from: int) -> int
    decreases location.len() - from,
{
    if from < 0 || from >= location.len() {
        location.len() as int
    } else if location[from] == '-' {
        from
    } else {
        version_end(location, from + 1)
    }
}

/// The version of a location, as it is written there.
pub open spec fn version_text(location: Seq<char>) -> Seq<char> {
    location.subrange(file_name_start(location), version_end(location, file_name_start(location)))
}

/// The digits of a number as written, without the plus sign that may stand
/// before them.
pub open spec fn unsigned(text: Seq<char>) -> Seq<char> {
    if text.len() > 0 && text[0] == '+' {
        text.skip(1)
    } else {
        text
    }
}

/// Whether `text` is read as the greatest version: its digits, with any
/// number of zeros before them and a plus sign before those or none.
pub open spec fn reads_as_last_version(text: Seq<char>) -> bool {
    let digits = unsigned(text);
    &&& digits.len() >= 10
    &&& digits.skip(digits.len() - 10) == last_version_digits()
    &&& forall|i: int| 0 <= i < digits.len() - 10 ==> digits[i] == '0'
}

/// Whether a location carries the greatest version, so that no location
/// comes after it: it has a slash, a hyphen follows in its file name, and
/// what stands between the last slash and that hyphen is read as the
/// greatest version. Whether the rest of the location is well formed is of
/// no account.
pub open spec fn carries_last_version(location: Seq<char>) -> bool {
    &&& file_name_start(location) > 0
    &&& version_end(location, file_name_start(location)) < location.len()
    &&& reads_as_last_version(version_text(location))
}

/// One digit of the greatest version.
fn last_version_digit(index: usize) -> (digit: char)
    requires
        index < 10,
    ensures
        digit == last_version_digits()[index as int],
{
    match index {
        0 => '2',
        1 => '1',
        2 => '4',
        3 => '7',
        4 => '4',
        5 => '8',
        6 => '3',
        7 => '6',
        8 => '4',
        _ => '7',
    }
}

/// Whether the part of a location from `from` to `to` is read as the
/// greatest version.
fn part_reads_as_last_version(location: &str, from: usize, to: usize) -> (last: bool)
    requires
        from <= to <= location@.len(),
    ensures
        last == reads_as_last_version(location@.subrange(from as int, to as int)),
{
    let ghost text = location@.subrange(from as int, to as int);
    let mut start: usize = from;
    if start < to && location.get_char(start) == '+' {
        start += 1;
    }
    let ghost digits = unsigned(text);
    proof {
        assert(digits =~= location@.subrange(start as int, to as int));
    }
    if to - start < 10 {
        return false;
    }
    let zeros_end: usize = to - 10;
    let mut k: usize = start;
    while k < zeros_end
        invariant
            start <= k <= zeros_end,
            zeros_end + 10 == to,
            from <= to <= location@.len(),
            digits == unsigned(location@.subrange(from as int, to as int)),
            digits == location@.subrange(start as int, to as int),
            forall|j: int| 0 <= j < k - start ==> digits[j] == '0',
        decreases zeros_end - k,
    {
        if location.get_char(k) != '0' {
            proof {
                assert(digits[k - start] != '0');
            }
            return false;
        }
        k += 1;
    }
    let mut m: usize = 0;
    while m < 10
        invariant
            m <= 10,
            start <= zeros_end,
            zeros_end + 10 == to,
            from <= to <= location@.len(),
            digits == unsigned(location@.subrange(from as int, to as int)),
            digits == location@.subrange(start as int, to as int),
            forall|j: int| 0 <= j < zeros_end - start ==> digits[j] == '0',
            forall|j: int|
                0 <= j < m ==> #[trigger] digits[zeros_end - start + j] == last_version_digits()[j],
        decreases 10 - m,
    {
        if location.get_char(zeros_end + m) != last_version_digit(m) {
            proof {
                assert(digits.skip(digits.len() - 10)[m as int] == digits[zeros_end - start + m]);
                assert(digits.skip(digits.len() - 10) != last_version_digits());
            }
            return false;
        }
        m += 1;
    }
    proof {
        assert(digits.skip(digits.len() - 10) =~= last_version_digits()) by {
            assert forall|j: int| 0 <= j < 10 implies digits.skip(digits.len() - 10)[j]
                == last_version_digits()[j] by {
                assert(digits[zeros_end - start + j] == last_version_digits()[j]);
            }
        }
    }
    true
}

/// Whether a location carries the greatest version.
pub fn has_last_version(location: &str) -> (last: bool)
    ensures
        last == carries_last_version(location@),
{
    let n = location.unicode_len();
    let mut from: usize = 0;
    let mut i: usize = 0;
    while i < n
        invariant
            i <= n,
            n == location@.len(),
            from <= i,
            from == file_name_start(location@.take(i as int)),
        decreases n - i,
    {
        proof {
            assert(location@.take(i + 1).drop_last() =~= location@.take(i as int));
        }
        if location.get_char(i) == '/' {
            from = i + 1;
        }
        i += 1;
    }
    proof {
        assert(location@.take(n as int) =~= location@);
    }
    let mut to: usize = from;
    while to < n && location.get_char(to) != '-'
        invariant
            from <= to <= n,
            n == location@.len(),
            version_end(location@, from as int) == version_end(location@, to as int),
        decreases n - to,
    {
        to += 1;
    }
    if from == 0 || to >= n {
        return false;
    }
    part_reads_as_last_version(location, from, to)
}

} // verus!
