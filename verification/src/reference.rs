//! Commit references: 160-bit object identifiers written in hexadecimal.

use crate::error::{failure_with, ErrorKind, Failure, FailureView, Step};
use vstd::prelude::*;
use vstd::string::*;

verus! {

/// The number of bytes of an object identifier.
pub const ID_BYTES: usize = 20;

/// The number of hexadecimal digits of an object identifier.
pub const ID_HEX_DIGITS: usize = 40;

/// Whether `c` is one of `0`-`9`, `a`-`f`, `A`-`F`.
pub open spec fn is_hex_digit(c: char) -> bool {
    ||| '0' <= c <= '9'
    ||| 'a' <= c <= 'f'
    ||| 'A' <= c <= 'F'
}

/// The value of a hexadecimal digit, 0 for any other character.
pub open spec fn hex_value(c: char) -> int {
    if '0' <= c <= '9' {
        c as int - '0' as int
    } else if 'a' <= c <= 'f' {
        c as int - 'a' as int + 10
    } else if 'A' <= c <= 'F' {
        c as int - 'A' as int + 10
    } else {
        0
    }
}

/// Whether every character of `text` is a hexadecimal digit.
pub open spec fn all_hex(text: Seq<char>) -> bool {
    forall|i: int| 0 <= i < text.len() ==> is_hex_digit(#[trigger] text[i])
}

/// A well-formed commit reference: exactly forty characters, all of them
/// hexadecimal digits.
pub open spec fn well_formed_id(text: Seq<char>) -> bool {
    &&& text.len() == ID_HEX_DIGITS
    &&& all_hex(text)
}

/// What git takes for an identifier: between one and forty hexadecimal
/// digits. Git reads fewer than forty as the start of an identifier.
pub open spec fn git_accepts(text: Seq<char>) -> bool {
    &&& 1 <= text.len() <= ID_HEX_DIGITS
    &&& all_hex(text)
}

/// The value of the digit at `position`, 0 past the end of the text.
pub open spec fn nibble_at(text: Seq<char>, position: int) -> int {
    if 0 <= position < text.len() {
        hex_value(text[position])
    } else {
        0
    }
}

/// Byte `k` of the identifier that `text` spells: two digits a byte, the
/// first of them in the high half. Where digits are missing, as git puts
/// up with, they read as zero.
pub open spec fn id_byte(text: Seq<char>, k: int) -> int {
    16 * nibble_at(text, 2 * k) + nibble_at(text, 2 * k + 1)
}

/// The twenty bytes of the identifier that `text` spells.
pub open spec fn id_bytes(text: Seq<char>) -> Seq<u8> {
    Seq::new(ID_BYTES as nat, |k: int| id_byte(text, k) as u8)
}

/// The text with which git rejects `text` as an object identifier.
pub uninterp spec fn id_parse_report(text: Seq<char>) -> Seq<char>;

/// Calls `git2::Oid::from_str` and hands back the identifier's raw bytes, or
/// the text of git's error.
///
/// Trusted: git accepts exactly one to forty hexadecimal digits; the bytes
/// are those that the digits spell, padded with zero digits; the text of a
/// rejection depends on the reference alone.
#[verifier::external_body]
fn oid_from_hex(text: &str) -> (parsed: Result<Vec<u8>, String>)
    ensures
        parsed is Ok <==> git_accepts(text@),
        parsed matches Ok(bytes) ==> bytes@ == id_bytes(text@),
        parsed matches Err(report) ==> report@ == id_parse_report(text@),
{
    match git2::Oid::from_str(text) {
        Ok(oid) => Ok(oid.as_bytes().to_vec()),
        Err(error) => Err(error.to_string()),
    }
}

/// A resolved commit reference: the twenty raw bytes of an object
/// identifier. It cannot be changed once made.
#[derive(Debug, PartialEq, Eq)]
pub struct CommitId {
    bytes: Vec<u8>,
}

impl View for CommitId {
    type V = Seq<u8>;

    closed spec fn view(&self) -> Seq<u8> {
        self.bytes@
    }
}

impl CommitId {
    #[verifier::type_invariant]
    spec fn has_id_length(&self) -> bool {
        self.bytes@.len() == ID_BYTES
    }

    /// The identifier with the given raw bytes, if there are twenty of them.
    pub fn from_bytes(bytes: Vec<u8>) -> (id: Option<CommitId>)
        ensures
            id is Some <==> bytes@.len() == ID_BYTES,
            id matches Some(made) ==> made@ == bytes@,
    {
        if bytes.len() == ID_BYTES {
            Some(CommitId { bytes })
        } else {
            None
        }
    }

    /// The raw bytes of the identifier.
    pub fn as_bytes(&self) -> (bytes: &Vec<u8>)
        ensures
            bytes@ == self@,
            bytes@.len() == ID_BYTES,
    {
        proof {
            use_type_invariant(self);
        }
        &self.bytes
    }
}

impl Clone for CommitId {
    fn clone(&self) -> (copy: CommitId)
        ensures
            copy@ == self@,
    {
        proof {
            use_type_invariant(self);
        }
        CommitId { bytes: self.bytes.clone() }
    }
}

/// The report on a reference that git would take but that does not spell a
/// whole identifier.
pub open spec fn incomplete_report() -> Seq<char> {
    "a commit id has 40 hexadecimal digits"@
}

/// What resolving `text` as a commit reference gives: its identifier where
/// it is well-formed, else a `ReferenceInvalid` failure. The failure carries
/// git's report, or the report on an incomplete identifier where git would
/// have taken the text.
pub open spec fn resolved(text: Seq<char>) -> Result<Seq<u8>, FailureView> {
    if well_formed_id(text) {
        Ok(id_bytes(text))
    } else if git_accepts(text) {
        Err(failure_with(Step::ParseCommitId, incomplete_report()))
    } else {
        Err(failure_with(Step::ParseCommitId, id_parse_report(text)))
    }
}

/// What a parse result becomes for a reference of `digits` characters: the
/// identifier with the parsed bytes where the reference has forty characters
/// and the bytes make an identifier, else a `ReferenceInvalid` failure, with
/// the report of the parse or the report on an incomplete identifier.
pub open spec fn resolution(parsed: Result<Seq<u8>, Seq<char>>, digits: nat) -> Result<
    Seq<u8>,
    FailureView,
> {
    match parsed {
        Ok(bytes) => if digits == ID_HEX_DIGITS && bytes.len() == ID_BYTES {
            Ok(bytes)
        } else {
            Err(failure_with(Step::ParseCommitId, incomplete_report()))
        },
        Err(report) => Err(failure_with(Step::ParseCommitId, report)),
    }
}

/// The mathematical value of a parse result.
pub open spec fn parsed_view(parsed: Result<Vec<u8>, String>) -> Result<Seq<u8>, Seq<char>> {
    match parsed {
        Ok(bytes) => Ok(bytes@),
        Err(report) => Err(report@),
    }
}

/// The mathematical value of a resolution.
pub open spec fn resolution_view(outcome: Result<CommitId, Failure>) -> Result<
    Seq<u8>,
    FailureView,
> {
    match outcome {
        Ok(id) => Ok(id@),
        Err(failure) => Err(failure@),
    }
}

/// Turns the result of parsing a commit reference of `digits` characters
/// into an identifier or a structured failure.
pub fn resolve_parsed(parsed: Result<Vec<u8>, String>, digits: usize) -> (outcome: Result<
    CommitId,
    Failure,
>)
    ensures
        resolution_view(outcome) == resolution(parsed_view(parsed), digits as nat),
{
    match parsed {
        Ok(bytes) => {
            if digits == ID_HEX_DIGITS {
                if let Some(id) = CommitId::from_bytes(bytes) {
                    return Ok(id);
                }
            }
            Err(
                Failure::with_detail(
                    Step::ParseCommitId,
                    String::from_str("a commit id has 40 hexadecimal digits"),
                ),
            )
        },
        Err(report) => Err(Failure::with_detail(Step::ParseCommitId, report)),
    }
}

/// Resolves a commit reference written in hexadecimal.
///
/// Succeeds exactly on well-formed references: forty hexadecimal digits.
/// Every other text is a `ReferenceInvalid` failure at the parsing step,
/// also where git would have read it as the start of an identifier.
pub fn parse_commit_id(text: &str) -> (outcome: Result<CommitId, Failure>)
    ensures
        resolution_view(outcome) == resolved(text@),
        outcome is Ok <==> well_formed_id(text@),
        outcome matches Ok(id) ==> id@.len() == ID_BYTES,
        outcome matches Err(failure) ==> failure.kind == ErrorKind::ReferenceInvalid
            && failure.step == Step::ParseCommitId,
{
    let digits = text.unicode_len();
    resolve_parsed(oid_from_hex(text), digits)
}

} // verus!
