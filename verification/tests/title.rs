use ticket_title::{TicketTitle, TitleParseError};

#[test]
fn test_try_from_string() {
    let title = TicketTitle::try_from("A title".to_string()).unwrap();
    assert_eq!(title.as_str(), "A title");
}

#[test]
fn test_try_from_empty_string() {
    let err = TicketTitle::try_from("".to_string()).unwrap_err();
    assert_eq!(err.message(), "The title cannot be empty");
}

#[test]
fn test_try_from_long_string() {
    let title =
        "A title that's definitely longer than what should be allowed in a development ticket"
            .to_string();
    let err = TicketTitle::try_from(title).unwrap_err();
    assert_eq!(err.message(), "The title cannot be longer than 50 bytes");
}

#[test]
fn test_try_from_str() {
    let title = TicketTitle::try_from("A title").unwrap();
    assert_eq!(title.as_str(), "A title");
}

#[test]
fn empty_str_is_rejected() {
    let err = TicketTitle::try_from("").unwrap_err();
    assert_eq!(err, TitleParseError::TitleEmpty);
    assert_eq!(err.message(), "The title cannot be empty");
}

#[test]
fn single_byte_is_accepted() {
    let title = TicketTitle::try_from("x").unwrap();
    assert_eq!(title.as_str(), "x");
}

#[test]
fn exactly_fifty_bytes_is_accepted() {
    let input = "a".repeat(50);
    let title = TicketTitle::try_from(input.as_str()).unwrap();
    assert_eq!(title.as_str(), input);
}

#[test]
fn fifty_one_bytes_is_rejected() {
    let input = "a".repeat(51);
    let err = TicketTitle::try_from(input).unwrap_err();
    assert_eq!(err, TitleParseError::TitleTooLong);
    assert_eq!(err.message(), "The title cannot be longer than 50 bytes");
}

#[test]
fn length_is_measured_in_bytes_not_chars() {
    // Twenty-six two-byte characters: 26 chars but 52 bytes.
    let input = "\u{e9}".repeat(26);
    assert_eq!(input.chars().count(), 26);
    let err = TicketTitle::try_from(input).unwrap_err();
    assert_eq!(err, TitleParseError::TitleTooLong);
}

#[test]
fn text_is_kept_exactly() {
    let input = "  Spaced  Title  ";
    let title = TicketTitle::try_from(input).unwrap();
    assert_eq!(title.as_str(), input);
}

#[test]
fn revalidating_a_title_round_trips() {
    let first = TicketTitle::try_from("A title").unwrap();
    let again = TicketTitle::try_from(first.as_str()).unwrap();
    assert_eq!(first, again);
}

#[test]
fn equality_follows_the_text() {
    let a = TicketTitle::try_from("A title").unwrap();
    let b = TicketTitle::try_from("A title".to_string()).unwrap();
    let c = TicketTitle::try_from("Another title").unwrap();
    assert_eq!(a, b);
    assert_ne!(a, c);
}

#[test]
fn owned_and_borrowed_input_agree() {
    let from_str = TicketTitle::try_from("A title").unwrap();
    let from_string = TicketTitle::try_from("A title".to_string()).unwrap();
    assert_eq!(from_str, from_string);
}

#[test]
fn cloning_keeps_the_text() {
    let title = TicketTitle::try_from("A title").unwrap();
    let copy = title.clone();
    assert_eq!(copy, title);
    assert_eq!(copy.as_str(), "A title");
}
