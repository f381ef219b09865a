use demoplayer::analyser::Analyser;
use demoplayer::directory::{read_entry, UserInfoError};
use demoplayer::records::PlayerEntry;

fn padded(text: &str, len: usize) -> Vec<u8> {
    let mut bytes = text.as_bytes().to_vec();
    bytes.resize(len, 0);
    bytes
}

fn raw_entry(name: &str, user_id: u32, steam_id: &str) -> Vec<u8> {
    let mut data = padded(name, 32);
    data.extend_from_slice(&user_id.to_le_bytes());
    data.extend_from_slice(&padded(steam_id, 32));
    data.extend_from_slice(&[0; 4]);
    data.extend_from_slice(&[0; 4]);
    data.extend_from_slice(&[0; 32]);
    data.extend_from_slice(&[0; 4]);
    data.extend_from_slice(&[0; 16]);
    data.extend_from_slice(&[0; 4]);
    assert_eq!(data.len(), 132);
    data
}

#[test]
fn entry_is_decoded() {
    let data = raw_entry("Hal", 7, "[U:1:321]");
    let entry = read_entry(3, Some("5"), Some(&data));
    assert_eq!(
        entry,
        Ok(Some(PlayerEntry {
            name: "Hal".to_string(),
            user_id: 7,
            steam_id: "[U:1:321]".to_string(),
            entity_id: 6,
        }))
    );
}

#[test]
fn entry_without_text_takes_the_handle_from_the_index() {
    let data = raw_entry("Hal", 7, "[U:1:321]");
    let entry = read_entry(3, None, Some(&data)).unwrap().unwrap();
    assert_eq!(entry.entity_id, 4);
}

#[test]
fn entry_without_data_describes_nobody() {
    assert_eq!(read_entry(3, Some("5"), None), Ok(None));
}

#[test]
fn entry_without_data_describes_nobody_whatever_its_text() {
    assert_eq!(read_entry(3, Some("4294967295"), None), Ok(None));
    assert_eq!(read_entry(3, Some("no number"), None), Ok(None));
    assert_eq!(read_entry(3, None, None), Ok(None));
}

#[test]
fn entry_without_account_describes_nobody() {
    let data = raw_entry("Hal", 7, "");
    assert_eq!(read_entry(3, Some("5"), Some(&data)), Ok(None));
}

#[test]
fn entry_with_unreadable_text_describes_nobody() {
    let data = raw_entry("Hal", 7, "[U:1:321]");
    assert_eq!(read_entry(3, Some("five"), Some(&data)), Ok(None));
}

#[test]
fn short_entry_is_malformed() {
    let data = raw_entry("Hal", 7, "[U:1:321]");
    let short = data[..40].to_vec();
    assert_eq!(read_entry(3, Some("5"), Some(&short)), Err(UserInfoError::Malformed));
    assert_eq!(read_entry(3, Some("5"), Some(&Vec::new())), Err(UserInfoError::Malformed));
}

#[test]
fn last_entity_handle_is_out_of_range() {
    let data = raw_entry("Hal", 7, "[U:1:321]");
    assert_eq!(
        read_entry(3, Some("4294967295"), Some(&data)),
        Err(UserInfoError::EntityOutOfRange)
    );
    assert_eq!(
        read_entry(3, Some("+4294967295"), Some(&data)),
        Err(UserInfoError::EntityOutOfRange)
    );
    assert_eq!(
        read_entry(3, Some("4294967295"), Some(&Vec::new())),
        Err(UserInfoError::EntityOutOfRange)
    );
    let entry = read_entry(3, Some("4294967294"), Some(&data)).unwrap().unwrap();
    assert_eq!(entry.entity_id, 4294967295);
}

#[test]
fn parse_user_info_folds_the_participant_in() {
    let mut analyser = Analyser::new();
    let data = raw_entry("Ivy", 12, "[U:1:900]");
    assert_eq!(analyser.parse_user_info(0, Some("1"), Some(&data)), Ok(()));
    let state = analyser.borrow_output();
    assert_eq!(state.users.len(), 1);
    assert_eq!(state.users[0].name.as_deref(), Some("Ivy"));
    assert_eq!(state.users[0].steam_id.as_deref(), Some("[U:1:900]"));
    assert_eq!(state.users[0].user_id, 12);
    assert_eq!(state.users[0].entity_id, Some(2));
}

#[test]
fn parse_user_info_reports_what_it_cannot_read() {
    let mut analyser = Analyser::new();
    assert_eq!(
        analyser.parse_user_info(0, Some("1"), Some(&vec![1, 2, 3])),
        Err(UserInfoError::Malformed)
    );
    assert_eq!(
        analyser.parse_user_info(0, Some("4294967295"), Some(&vec![1, 2, 3])),
        Err(UserInfoError::EntityOutOfRange)
    );
    assert_eq!(analyser.parse_user_info(0, Some("4294967295"), None), Ok(()));
    assert_eq!(analyser.parse_user_info(0, Some("1"), None), Ok(()));
    assert!(analyser.borrow_output().users.is_empty());
}

#[test]
fn index_is_taken_by_its_low_sixteen_bits() {
    let mut analyser = Analyser::new();
    let data = raw_entry("Ivy", 12, "[U:1:900]");
    assert_eq!(analyser.parse_user_info(65536 + 9, None, Some(&data)), Ok(()));
    assert_eq!(analyser.borrow_output().users[0].entity_id, Some(10));
}

#[test]
fn only_the_player_directory_is_read() {
    let mut analyser = Analyser::new();
    let data = raw_entry("Jon", 2, "BOT");
    analyser.handle_string_entry("modelprecache", 0, Some("1"), Some(&data));
    analyser.handle_string_entry("userinfos", 0, Some("1"), Some(&data));
    assert!(analyser.borrow_output().users.is_empty());
    analyser.handle_string_entry("userinfo", 0, Some("1"), Some(&data));
    assert_eq!(analyser.borrow_output().users.len(), 1);
    assert_eq!(analyser.borrow_output().users[0].steam_id.as_deref(), Some("BOT"));
    analyser.handle_string_entry("userinfo", 0, Some("1"), Some(&vec![0; 10]));
    analyser.handle_string_entry("userinfo", 0, Some("4294967295"), Some(&data));
    assert_eq!(analyser.borrow_output().users.len(), 1);
    assert_eq!(analyser.borrow_output().users[0].entity_id, Some(2));
}
