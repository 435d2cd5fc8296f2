//! Opening the SQLite database: the connection URL and the journal-mode
//! check made after switching to WAL.
use vstd::prelude::*;

use crate::text::{chars_of, push_all};

verus! {

/// The SQLite URL for a database path: `sqlite::memory:` for `:memory:`,
/// otherwise the file URL opened read-write and created when missing.
pub fn connection_url(path: &str) -> (url: String)
    ensures
        path@ == ":memory:"@ ==> url@ == "sqlite::memory:"@,
        path@ != ":memory:"@ ==> url@ == "sqlite://"@ + path@ + "?mode=rwc"@,
{
    let memory = String::from_str(":memory:");
    let p = String::from_str(path);
    if p == memory {
        String::from_str("sqlite::memory:")
    } else {
        let mut url = String::new();
        push_all(&mut url, "sqlite://");
        push_all(&mut url, path);
        push_all(&mut url, "?mode=rwc");
        url
    }
}

/// `c` is one of the two cases of a letter.
pub open spec fn either_case(c: char, lower: char, upper: char) -> bool {
    c == lower || c == upper
}

/// The journal mode SQLite reports is WAL, compared case-insensitively.
pub fn journal_mode_is_wal(mode: &str) -> (b: bool)
    ensures
        b == (mode@.len() == 3 && either_case(mode@[0], 'w', 'W') && either_case(mode@[1], 'a', 'A')
            && either_case(mode@[2], 'l', 'L')),
{
    let cs = chars_of(mode);
    cs.len() == 3 && (cs[0] == 'w' || cs[0] == 'W') && (cs[1] == 'a' || cs[1] == 'A') && (cs[2]
        == 'l' || cs[2] == 'L')
}

} // verus!
