//! Decoding of the entries of the player directory.

use crate::records::{PlayerEntry, PlayerEntryView};
use bitbuffer::{BitReadBuffer, BitReadStream, LittleEndian};
use vstd::prelude::*;

verus! {

/// Why an entry of the player directory could not be read.
#[derive(Clone, Copy, Debug, PartialEq, Eq, Structural)]
pub enum UserInfoError {
    /// The entry's data is too short or not of the expected form.
    Malformed,
    /// The entry's text names an entity handle beyond the last one.
    EntityOutOfRange,
}

/// The error of the bit reader that the demo parser reads with. Nothing is
/// known of what it holds.
#[verifier::external_type_specification]
#[verifier::external_body]
pub struct ExBitError(bitbuffer::BitError);

/// What `str::parse::<u32>` makes of a text.
pub uninterp spec fn parsed_u32(text: Seq<char>) -> Option<u32>;

/// What the demo parser's `UserInfo::parse_from_string_table` makes of an
/// entry with the index `index`, the text `text` and the data `data`: nothing
/// where it fails, else the participant that the entry describes, if it
/// describes one.
pub uninterp spec fn decoded_entry(
    index: u16,
    text: Option<Seq<char>>,
    data: Option<Seq<u8>>,
) -> Option<Option<PlayerEntryView>>;

/// View of an optional text.
pub open spec fn opt_str(text: Option<&str>) -> Option<Seq<char>> {
    match text {
        Some(t) => Some(t@),
        None => None,
    }
}

/// View of optional data.
pub open spec fn opt_bytes(data: Option<&Vec<u8>>) -> Option<Seq<u8>> {
    match data {
        Some(d) => Some(d@),
        None => None,
    }
}

/// What a decoding gave, without the error's detail.
pub open spec fn decoding(r: Result<Option<PlayerEntry>, bitbuffer::BitError>) -> Option<
    Option<PlayerEntryView>,
> {
    match r {
        Ok(Some(entry)) => Some(Some(entry@)),
        Ok(None) => Some(None),
        Err(_) => None,
    }
}

/// The text names the last entity handle, which has no successor.
pub open spec fn names_last_entity(text: Option<Seq<char>>) -> bool {
    text matches Some(t) && parsed_u32(t) == Some(u32::MAX)
}

/// What reading an entry of the player directory gives: the participant it
/// describes, if it describes one, or the reason why it cannot be read. An
/// entry without data describes nobody, whatever its text; one with data
/// whose text names the last entity handle is out of range.
pub open spec fn entry_outcome(
    index: u16,
    text: Option<Seq<char>>,
    data: Option<Seq<u8>>,
) -> Result<Option<PlayerEntryView>, UserInfoError> {
    if data is None {
        Ok(None)
    } else if names_last_entity(text) {
        Err(UserInfoError::EntityOutOfRange)
    } else {
        match decoded_entry(index, text, data) {
            Some(entry) => Ok(entry),
            None => Err(UserInfoError::Malformed),
        }
    }
}

/// Reads a number with `str::parse::<u32>`.
#[verifier::external_body]
fn parse_u32(text: &str) -> (r: Option<u32>)
    ensures
        r == parsed_u32(text@),
{
    match text.parse::<u32>() {
        Ok(number) => Some(number),
        Err(_) => None,
    }
}

/// Decodes an entry of the player directory with
/// `UserInfo::parse_from_string_table` of the demo parser. Without data the
/// parser reads nothing and finds nobody. With data it adds one to the
/// number that the text holds, so the text must then not hold the greatest
/// one.
#[verifier::external_body]
fn decode_entry(index: u16, text: Option<&str>, data: Option<&Vec<u8>>) -> (r: Result<
    Option<PlayerEntry>,
    bitbuffer::BitError,
>)
    requires
        data is Some ==> !names_last_entity(opt_str(text)),
    ensures
        decoding(r) == decoded_entry(index, opt_str(text), opt_bytes(data)),
        data is None ==> decoding(r) == Some(None::<PlayerEntryView>),
{
    let stream = match data {
        Some(d) => Some(BitReadStream::new(BitReadBuffer::new(d, LittleEndian))),
        None => None,
    };
    match tf_demo_parser::demo::data::UserInfo::parse_from_string_table(index, text, stream)? {
        Some(info) => Ok(Some(PlayerEntry {
            name: info.player_info.name,
            user_id: info.player_info.user_id.into(),
            steam_id: info.player_info.steam_id,
            entity_id: info.entity_id.into(),
        })),
        None => Ok(None),
    }
}

/// View of what reading an entry gave.
pub open spec fn outcome_view(r: Result<Option<PlayerEntry>, UserInfoError>) -> Result<
    Option<PlayerEntryView>,
    UserInfoError,
> {
    match r {
        Ok(Some(entry)) => Ok(Some(entry@)),
        Ok(None) => Ok(None),
        Err(e) => Err(e),
    }
}

/// Reads an entry of the player directory.
pub fn read_entry(index: u16, text: Option<&str>, data: Option<&Vec<u8>>) -> (r: Result<
    Option<PlayerEntry>,
    UserInfoError,
>)
    ensures
        outcome_view(r) == entry_outcome(index, opt_str(text), opt_bytes(data)),
{
    let last = match (data, text) {
        (Some(_), Some(t)) => match parse_u32(t) {
            Some(number) => number == u32::MAX,
            None => false,
        },
        _ => false,
    };
    if last {
        return Err(UserInfoError::EntityOutOfRange);
    }
    match decode_entry(index, text, data) {
        Ok(entry) => Ok(entry),
        Err(_) => Err(UserInfoError::Malformed),
    }
}

} // verus!
