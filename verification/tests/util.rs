use demoplayer::util::steamid_32_to_64;

#[test]
fn short_identifier_is_converted() {
    assert_eq!(steamid_32_to_64("[U:1:1234567]").as_deref(), Some("76561197961500295"));
    assert_eq!(steamid_32_to_64("U:0:1").as_deref(), Some("76561197960265729"));
    assert_eq!(steamid_32_to_64("[U:1:0]").as_deref(), Some("76561197960265728"));
    assert_eq!(steamid_32_to_64("[U:1:22202]").as_deref(), Some("76561197960287930"));
}

#[test]
fn number_may_have_a_sign_and_leading_zeros() {
    assert_eq!(steamid_32_to_64("[U:1:+5]").as_deref(), Some("76561197960265733"));
    assert_eq!(steamid_32_to_64("[U:1:0005]").as_deref(), Some("76561197960265733"));
}

#[test]
fn all_closing_brackets_are_trimmed() {
    assert_eq!(steamid_32_to_64("[U:1:5]]]").as_deref(), Some("76561197960265733"));
    assert_eq!(steamid_32_to_64("a:b:5:rest]").as_deref(), Some("76561197960265733"));
}

#[test]
fn identifier_without_a_third_segment_has_no_long_form() {
    assert_eq!(steamid_32_to_64(""), None);
    assert_eq!(steamid_32_to_64("BOT"), None);
    assert_eq!(steamid_32_to_64("[U:1]"), None);
    assert_eq!(steamid_32_to_64("]]]"), None);
}

#[test]
fn third_segment_must_be_a_number() {
    assert_eq!(steamid_32_to_64("[U:1:]"), None);
    assert_eq!(steamid_32_to_64("[U:1:+]"), None);
    assert_eq!(steamid_32_to_64("[U:1:-5]"), None);
    assert_eq!(steamid_32_to_64("[U:1:12a]"), None);
    assert_eq!(steamid_32_to_64("[U:1: 12]"), None);
    assert_eq!(steamid_32_to_64("[U:1:5]x"), None);
    assert_eq!(steamid_32_to_64("[U:1:99999999999999999999999]"), None);
}

#[test]
fn sum_beyond_64_bits_has_no_long_form() {
    assert_eq!(
        steamid_32_to_64("[U:1:18370182875749285887]").as_deref(),
        Some("18446744073709551615")
    );
    assert_eq!(steamid_32_to_64("[U:1:18370182875749285888]"), None);
    assert_eq!(steamid_32_to_64("[U:1:18446744073709551615]"), None);
    assert_eq!(steamid_32_to_64("[U:1:18446744073709551616]"), None);
}
