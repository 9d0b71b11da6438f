//! The statuses of a doge and the defaults of a doge.

use vstd::prelude::*;

use super::error::Error;
use crate::text::{str_equals, to_lowercase};

#[allow(unused_imports)]
use crate::text::{ascii_lower, lowercase};

verus! {

/// The defaults that the mutating webhook fills into a `Doge`.
pub struct DogeConfig {
    /// The image given to a doge that names none.
    pub default_image: String,
    /// The number every doge is given.
    pub default_number: u64,
    /// The status of a doge by default.
    pub default_status: DogeStatus,
}

impl Clone for DogeConfig {
    fn clone(&self) -> (res: Self)
        ensures
            res == *self,
    {
        DogeConfig {
            default_image: self.default_image.clone(),
            default_number: self.default_number,
            default_status: self.default_status,
        }
    }
}

/// The status of a doge.
#[derive(Clone, Copy, Debug, PartialEq, Eq, Structural, PartialOrd, Ord)]
pub enum DogeStatus {
    Normal,
    Crying,
    Raged,
    Buffed,
    Parrot,
    Kachitoritai,
}

/// The name under which a status is written.
pub open spec fn status_name(status: DogeStatus) -> Seq<char> {
    match status {
        DogeStatus::Normal => "Normal"@,
        DogeStatus::Crying => "Crying"@,
        DogeStatus::Raged => "Raged"@,
        DogeStatus::Buffed => "Buffed"@,
        DogeStatus::Parrot => "Parrot"@,
        DogeStatus::Kachitoritai => "Kachitoritai"@,
    }
}

/// The name of a status in lower case, as a lower-cased text must read to
/// name it.
pub open spec fn status_lower_name(status: DogeStatus) -> Seq<char> {
    match status {
        DogeStatus::Normal => "normal"@,
        DogeStatus::Crying => "crying"@,
        DogeStatus::Raged => "raged"@,
        DogeStatus::Buffed => "buffed"@,
        DogeStatus::Parrot => "parrot"@,
        DogeStatus::Kachitoritai => "kachitoritai"@,
    }
}

/// The status that a lower-cased text names, if any.
pub open spec fn status_of_lower_name(lowered: Seq<char>) -> Option<DogeStatus> {
    if lowered == "normal"@ {
        Some(DogeStatus::Normal)
    } else if lowered == "crying"@ {
        Some(DogeStatus::Crying)
    } else if lowered == "raged"@ {
        Some(DogeStatus::Raged)
    } else if lowered == "buffed"@ {
        Some(DogeStatus::Buffed)
    } else if lowered == "parrot"@ {
        Some(DogeStatus::Parrot)
    } else if lowered == "kachitoritai"@ {
        Some(DogeStatus::Kachitoritai)
    } else {
        None
    }
}

/// What reading a status from a text gives, once the text has been
/// lower-cased: the status it names, or the error that carries the text as it
/// was given.
pub open spec fn parse_result(lowered: Seq<char>, value: Seq<char>) -> Result<
    DogeStatus,
    Seq<char>,
> {
    match status_of_lower_name(lowered) {
        Some(status) => Ok(status),
        None => Err(value),
    }
}

impl Default for DogeStatus {
    /// The status of a doge that has been given none.
    fn default() -> (res: DogeStatus)
        ensures
            res == DogeStatus::Normal,
    {
        DogeStatus::Normal
    }
}

impl DogeStatus {
    /// The name under which the status is written.
    pub fn as_str(&self) -> (res: &'static str)
        ensures
            res@ == status_name(*self),
    {
        match self {
            DogeStatus::Normal => "Normal",
            DogeStatus::Crying => "Crying",
            DogeStatus::Raged => "Raged",
            DogeStatus::Buffed => "Buffed",
            DogeStatus::Parrot => "Parrot",
            DogeStatus::Kachitoritai => "Kachitoritai",
        }
    }

    /// The status as its display shows it: its name.
    pub fn to_string(&self) -> (res: String)
        ensures
            res@ == status_name(*self),
    {
        String::from_str(self.as_str())
    }

    /// Reads a status from a text that has already been lower-cased.
    /// `value` is the text as it was given, which an error carries.
    pub fn from_lowercased(lowered: &str, value: &str) -> (res: Result<DogeStatus, Error>)
        ensures
            res matches Ok(status) ==> lowered@ == status_lower_name(status),
            forall|status: DogeStatus| #[trigger] status_lower_name(status) == lowered@
                ==> res == Ok::<DogeStatus, Error>(status),
            (forall|status: DogeStatus| #[trigger] status_lower_name(status) != lowered@)
                ==> (res matches Err(Error::InvalidDogeStatus { value: v }) && v@ == value@),
            match res {
                Ok(status) => parse_result(lowered@, value@) == Ok::<DogeStatus, Seq<char>>(
                    status,
                ),
                Err(Error::InvalidDogeStatus { value: v }) => parse_result(lowered@, value@)
                    == Err::<DogeStatus, Seq<char>>(v@),
            },
    {
        proof {
            reveal_strlit("normal");
            reveal_strlit("crying");
            reveal_strlit("raged");
            reveal_strlit("buffed");
            reveal_strlit("parrot");
            reveal_strlit("kachitoritai");
            assert forall|status: DogeStatus| #[trigger] status_lower_name(status) == lowered@
                <==> status_of_lower_name(lowered@) == Some(status) by {
                lemma_lower_name_is_exact(lowered@, status);
            }
            if let Some(status) = status_of_lower_name(lowered@) {
                lemma_lower_name_is_exact(lowered@, status);
                assert(status_lower_name(status) == lowered@);
            }
        }
        if str_equals(lowered, "normal") {
            Ok(DogeStatus::Normal)
        } else if str_equals(lowered, "crying") {
            Ok(DogeStatus::Crying)
        } else if str_equals(lowered, "raged") {
            Ok(DogeStatus::Raged)
        } else if str_equals(lowered, "buffed") {
            Ok(DogeStatus::Buffed)
        } else if str_equals(lowered, "parrot") {
            Ok(DogeStatus::Parrot)
        } else if str_equals(lowered, "kachitoritai") {
            Ok(DogeStatus::Kachitoritai)
        } else {
            Err(Error::InvalidDogeStatus { value: String::from_str(value) })
        }
    }

    /// Reads a status from a text, whatever the case of its letters: the text
    /// is lower-cased and must then read as the lower-case name of a status.
    pub fn parse(s: &str) -> (res: Result<DogeStatus, Error>)
        ensures
            match res {
                Ok(status) => parse_result(lowercase(s@), s@) == Ok::<DogeStatus, Seq<char>>(
                    status,
                ),
                Err(Error::InvalidDogeStatus { value: v }) => parse_result(lowercase(s@), s@)
                    == Err::<DogeStatus, Seq<char>>(v@),
            },
            forall|status: DogeStatus|
                vstd::utf8::is_ascii_chars(s@) && #[trigger] status_lower_name(status)
                    == ascii_lower(s@) ==> res == Ok::<DogeStatus, Error>(status),
            forall|status: DogeStatus|
                #[trigger] status_name(status) == s@ ==> res == Ok::<DogeStatus, Error>(status),
            vstd::utf8::is_ascii_chars(s@) && status_of_lower_name(ascii_lower(s@)) is None
                ==> (res matches Err(Error::InvalidDogeStatus { value }) && value@ == s@),
    {
        let lowered = to_lowercase(s);
        proof {
            assert forall|status: DogeStatus| #[trigger] status_name(status) == s@ implies
                vstd::utf8::is_ascii_chars(s@) && status_lower_name(status) == ascii_lower(s@) by {
                lemma_name_lowers_to_lower_name(status);
            }
            assert forall|status: DogeStatus|
                vstd::utf8::is_ascii_chars(s@) && #[trigger] status_lower_name(status)
                    == ascii_lower(s@) implies status_of_lower_name(ascii_lower(s@)) == Some(
                status,
            ) by {
                lemma_lower_name_reads_back(status);
            }
        }
        DogeStatus::from_lowercased(lowered.as_str(), s)
    }
}

impl std::str::FromStr for DogeStatus {
    type Err = Error;

    fn from_str(s: &str) -> (res: Result<DogeStatus, Error>)
        ensures
            match res {
                Ok(status) => parse_result(lowercase(s@), s@) == Ok::<DogeStatus, Seq<char>>(
                    status,
                ),
                Err(Error::InvalidDogeStatus { value: v }) => parse_result(lowercase(s@), s@)
                    == Err::<DogeStatus, Seq<char>>(v@),
            },
            forall|status: DogeStatus|
                vstd::utf8::is_ascii_chars(s@) && #[trigger] status_lower_name(status)
                    == ascii_lower(s@) ==> res == Ok::<DogeStatus, Error>(status),
            forall|status: DogeStatus|
                #[trigger] status_name(status) == s@ ==> res == Ok::<DogeStatus, Error>(status),
            vstd::utf8::is_ascii_chars(s@) && status_of_lower_name(ascii_lower(s@)) is None
                ==> (res matches Err(Error::InvalidDogeStatus { value }) && value@ == s@),
    {
        DogeStatus::parse(s)
    }
}

/// Each status, written under its name in lower case, reads back as itself.
pub proof fn lemma_lower_name_reads_back(status: DogeStatus)
    ensures
        status_of_lower_name(status_lower_name(status)) == Some(status),
{
    reveal_strlit("normal");
    reveal_strlit("crying");
    reveal_strlit("raged");
    reveal_strlit("buffed");
    reveal_strlit("parrot");
    reveal_strlit("kachitoritai");
    // The six names differ in their first or second character.
    assert("normal"@[0] == 'n' && "crying"@[0] == 'c' && "raged"@[0] == 'r');
    assert("buffed"@[0] == 'b' && "parrot"@[0] == 'p' && "kachitoritai"@[0] == 'k');
}

/// The name under which a status is written is made of ASCII characters,
/// and turns, with its ASCII capitals made small, into the lower-case name
/// of the status, which names that status alone.
pub proof fn lemma_name_lowers_to_lower_name(status: DogeStatus)
    ensures
        vstd::utf8::is_ascii_chars(status_name(status)),
        ascii_lower(status_name(status)) == status_lower_name(status),
        status_of_lower_name(ascii_lower(status_name(status))) == Some(status),
{
    reveal_strlit("Normal");
    reveal_strlit("Crying");
    reveal_strlit("Raged");
    reveal_strlit("Buffed");
    reveal_strlit("Parrot");
    reveal_strlit("Kachitoritai");
    reveal_strlit("normal");
    reveal_strlit("crying");
    reveal_strlit("raged");
    reveal_strlit("buffed");
    reveal_strlit("parrot");
    reveal_strlit("kachitoritai");
    assert(ascii_lower(status_name(status)) =~= status_lower_name(status));
    lemma_lower_name_reads_back(status);
}

/// A lower-cased text names a status exactly when it is that status's name
/// in lower case: one of the six words `normal`, `crying`, `raged`,
/// `buffed`, `parrot`, `kachitoritai`, whole, and nothing shorter or longer.
pub proof fn lemma_lower_name_is_exact(lowered: Seq<char>, status: DogeStatus)
    ensures
        status_of_lower_name(lowered) == Some(status) <==> lowered == status_lower_name(status),
        status_of_lower_name(lowered) is Some <==> (lowered == "normal"@ || lowered == "crying"@
            || lowered == "raged"@ || lowered == "buffed"@ || lowered == "parrot"@ || lowered
            == "kachitoritai"@),
        status_lower_name(status) == match status {
            DogeStatus::Normal => "normal"@,
            DogeStatus::Crying => "crying"@,
            DogeStatus::Raged => "raged"@,
            DogeStatus::Buffed => "buffed"@,
            DogeStatus::Parrot => "parrot"@,
            DogeStatus::Kachitoritai => "kachitoritai"@,
        },
{
    lemma_lower_name_reads_back(status);
}

} // verus!
