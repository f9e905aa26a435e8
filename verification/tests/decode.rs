use trello_tui::decode::{decode_entries, entries_of, entry_of};
use trello_tui::document::{find, parsable, parse_document, Json, Member, FRACTION_LIMIT};
use trello_tui::entry::Entry;
use trello_tui::error::ErrorKind;
use trello_tui::source::Reply;

fn entry(id: &str, name: &str) -> Entry {
    Entry::new(id.to_string(), name.to_string())
}

fn text(value: &str) -> Json {
    Json::Text(value.to_string())
}

fn member(key: &str, value: Json) -> Member {
    Member { key: key.to_string(), value }
}

fn object(id: &str, name: &str) -> Json {
    Json::Object(vec![member("id", text(id)), member("name", text(name))])
}

#[test]
fn well_formed_array_keeps_ids_names_and_order() {
    let payload = r#"[{"id":"b1","name":"Work"},{"id":"b2","name":"Home"},{"id":"b0","name":"Attic"}]"#;
    assert_eq!(
        decode_entries(payload),
        Ok(vec![entry("b1", "Work"), entry("b2", "Home"), entry("b0", "Attic")])
    );
}

#[test]
fn extra_fields_are_passed_over() {
    let payload = r#"[{"closed":false,"name":"Todo","pos":16384,"id":"c1","labels":["a",{"id":"x"}]}]"#;
    assert_eq!(decode_entries(payload), Ok(vec![entry("c1", "Todo")]));
}

#[test]
fn names_are_kept_exactly() {
    let payload = "[{\"id\":\"k1\",\"name\":\"  Buy \\\"milk\\\" \\u00e9t\\u00e9 \\n caf\u{e9} \"}]";
    assert_eq!(
        decode_entries(payload),
        Ok(vec![entry("k1", "  Buy \"milk\" \u{e9}t\u{e9} \n caf\u{e9} ")])
    );
}

#[test]
fn whitespace_around_the_array_is_fine() {
    let payload = " \n[ { \"id\" : \"b1\" ,\n \"name\" : \"Work\" } ]\n";
    assert_eq!(decode_entries(payload), Ok(vec![entry("b1", "Work")]));
}

#[test]
fn empty_array_gives_no_entries() {
    assert_eq!(decode_entries("[]"), Ok(Vec::new()));
}

#[test]
fn malformed_json_is_a_decode_error() {
    for payload in [
        "",
        "{",
        "[{\"id\":\"b1\",\"name\":\"Work\"}",
        "[{\"id\":\"b1\",\"name\":\"Work\"},]",
        "[{\"id\":\"b1\" \"name\":\"Work\"}]",
        "[{id:\"b1\",name:\"Work\"}]",
        "[] []",
        "not json",
        "[{\"id\":\"b1\",\"name\":\"Wo\u{1}rk\"}]",
    ] {
        assert_eq!(decode_entries(payload), Err(ErrorKind::DecodeError), "{payload:?}");
    }
}

#[test]
fn one_bad_member_fails_the_whole_payload() {
    let payload = r#"[{"id":"b1","name":"Work"},{"id":"b2"},{"id":"b3","name":"Garden"}]"#;
    assert_eq!(decode_entries(payload), Err(ErrorKind::DecodeError));
}

#[test]
fn documents_of_another_shape_are_decode_errors() {
    for payload in [
        "null",
        "42",
        "\"boards\"",
        r#"{"id":"b1","name":"Work"}"#,
        r#"["b1","b2"]"#,
        r#"[[{"id":"b1","name":"Work"}]]"#,
        r#"[{"name":"Work"}]"#,
        r#"[{"id":"b1"}]"#,
        r#"[{"id":7,"name":"Work"}]"#,
        r#"[{"id":"b1","name":null}]"#,
        r#"[{"id":"b1","name":["Work"]}]"#,
        r#"[{"Id":"b1","Name":"Work"}]"#,
    ] {
        assert_eq!(decode_entries(payload), Err(ErrorKind::DecodeError), "{payload:?}");
    }
}

#[test]
fn parser_gives_each_kind_of_value() {
    let document = parse_document(r#"{"a":[1,-25,2.50,1e3,true,false,null,"x"],"b":{},"":[]}"#);
    assert_eq!(
        document,
        Ok(Json::Object(vec![
            member(
                "a",
                Json::Array(vec![
                    Json::Number { positive: true, mantissa: 1, exponent: 0 },
                    Json::Number { positive: false, mantissa: 25, exponent: 0 },
                    Json::Number { positive: true, mantissa: 250, exponent: -2 },
                    Json::Number { positive: true, mantissa: 1, exponent: 3 },
                    Json::Bool(true),
                    Json::Bool(false),
                    Json::Null,
                    text("x"),
                ])
            ),
            member("b", Json::Object(Vec::new())),
            member("", Json::Array(Vec::new())),
        ]))
    );
}

#[test]
fn parser_keeps_short_and_long_strings() {
    let long = "a name that is certainly longer than thirty bytes, to be sure";
    let document = parse_document(&format!("[\"short\",\"{long}\"]"));
    assert_eq!(document, Ok(Json::Array(vec![text("short"), text(long)])));
}

#[test]
fn parser_keeps_the_last_value_of_a_repeated_key() {
    let document = parse_document(r#"{"id":"first","name":"n","id":"second"}"#);
    assert_eq!(
        document,
        Ok(Json::Object(vec![member("id", text("second")), member("name", text("n"))]))
    );
}

#[test]
fn parser_rejects_what_is_not_json() {
    assert_eq!(parse_document("[1,]"), Err(ErrorKind::DecodeError));
    assert_eq!(parse_document("{\"a\"}"), Err(ErrorKind::DecodeError));
    assert_eq!(parse_document("tru"), Err(ErrorKind::DecodeError));
    assert_eq!(parse_document("\u{e9}"), Err(ErrorKind::DecodeError));
}

#[test]
fn parser_stops_at_its_depth_limit() {
    let deep = format!("{}{}", "[".repeat(600), "]".repeat(600));
    assert_eq!(parse_document(&deep), Err(ErrorKind::DecodeError));
    let shallow = format!("{}{}", "[".repeat(40), "]".repeat(40));
    assert!(parse_document(&shallow).is_ok());
}

#[test]
fn entries_of_a_document_built_by_hand() {
    let document = Json::Array(vec![object("c1", "Todo"), object("c2", "Done")]);
    assert_eq!(entries_of(&document), Ok(vec![entry("c1", "Todo"), entry("c2", "Done")]));
    assert_eq!(entries_of(&Json::Array(Vec::new())), Ok(Vec::new()));
    assert_eq!(entries_of(&object("c1", "Todo")), Err(ErrorKind::DecodeError));
    assert_eq!(entries_of(&Json::Null), Err(ErrorKind::DecodeError));
    let broken = Json::Array(vec![object("c1", "Todo"), Json::Bool(true)]);
    assert_eq!(entries_of(&broken), Err(ErrorKind::DecodeError));
}

#[test]
fn entry_of_reads_id_and_name() {
    assert_eq!(entry_of(&object("k1", "Buy milk")), Some(entry("k1", "Buy milk")));
    let swapped = Json::Object(vec![member("name", text("Buy milk")), member("id", text("k1"))]);
    assert_eq!(entry_of(&swapped), Some(entry("k1", "Buy milk")));
    let numeric = Json::Object(vec![
        member("id", Json::Number { positive: true, mantissa: 1, exponent: 0 }),
        member("name", text("Buy milk")),
    ]);
    assert_eq!(entry_of(&numeric), None);
    assert_eq!(entry_of(&text("k1")), None);
    assert_eq!(entry_of(&Json::Object(Vec::new())), None);
}

#[test]
fn first_member_with_a_key_wins() {
    let members = vec![member("id", text("one")), member("x", Json::Null), member("id", text("two"))];
    assert_eq!(find(&members, &"id".to_string()), Some(&text("one")));
    assert_eq!(find(&members, &"x".to_string()), Some(&Json::Null));
    assert_eq!(find(&members, &"name".to_string()), None);
    assert_eq!(find(&Vec::new(), &"id".to_string()), None);
}

#[test]
fn accessors_tell_the_kinds_apart() {
    let list = Json::Array(vec![Json::Null]);
    assert_eq!(list.items(), Some(&vec![Json::Null]));
    assert_eq!(list.text(), None);
    assert_eq!(list.member(&"id".to_string()), None);
    assert_eq!(text("x").text(), Some(&"x".to_string()));
    assert_eq!(text("x").items(), None);
    let card = object("k1", "Buy milk");
    assert_eq!(card.member(&"name".to_string()), Some(&text("Buy milk")));
    assert_eq!(card.text_member(&"name".to_string()), Some(&"Buy milk".to_string()));
    assert_eq!(card.text_member(&"pos".to_string()), None);
    let odd = Json::Object(vec![member("name", Json::Bool(false))]);
    assert_eq!(odd.text_member(&"name".to_string()), None);
}

#[test]
fn missing_source_is_source_unavailable() {
    assert_eq!(Reply::Unavailable.entries(), Err(ErrorKind::SourceUnavailable));
}

#[test]
fn payload_reply_is_decoded() {
    let reply = Reply::Payload(r#"[{"id":"k1","name":"Buy milk"}]"#.to_string());
    assert_eq!(reply.entries(), Ok(vec![entry("k1", "Buy milk")]));
    assert_eq!(Reply::Payload("<html>".to_string()).entries(), Err(ErrorKind::DecodeError));
}

fn zeros(count: usize) -> String {
    "0".repeat(count)
}

fn number(positive: bool, mantissa: u64, exponent: i16) -> Json {
    Json::Number { positive, mantissa, exponent }
}

#[test]
fn fraction_limit_is_what_a_sixteen_bit_exponent_counts_down_to() {
    assert_eq!(FRACTION_LIMIT, 32768);
    assert_eq!(-(FRACTION_LIMIT as i32), i16::MIN as i32);
}

#[test]
fn fraction_of_zeros_is_read_up_to_the_limit() {
    let text = format!("0.{}", zeros(FRACTION_LIMIT));
    assert!(parsable(&text));
    assert_eq!(parse_document(&text), Ok(number(true, 0, i16::MIN)));
    let text = format!("[-0.{}]", zeros(FRACTION_LIMIT - 1));
    assert_eq!(parse_document(&text), Ok(Json::Array(vec![number(false, 0, -32767)])));
}

#[test]
fn fraction_of_too_many_zeros_is_turned_away_unread() {
    let fraction = format!("0.{}", zeros(FRACTION_LIMIT + 1));
    assert!(!parsable(&fraction));
    assert_eq!(parse_document(&fraction), Err(ErrorKind::DecodeError));
    let payload = format!(r#"[{{"id":"b1","name":"Work","pos":0.{}}}]"#, zeros(40000));
    assert_eq!(decode_entries(&payload), Err(ErrorKind::DecodeError));
    assert_eq!(Reply::Payload(payload).entries(), Err(ErrorKind::DecodeError));
    let negative = format!("[ -0.{}1]", zeros(70000));
    assert_eq!(parse_document(&negative), Err(ErrorKind::DecodeError));
    let cut_off = format!("[0.{}", zeros(FRACTION_LIMIT + 1));
    assert_eq!(parse_document(&cut_off), Err(ErrorKind::DecodeError));
}

#[test]
fn digits_after_the_zeros_count_while_the_mantissa_takes_them() {
    // Eight digits after 32760 zeros come to the limit exactly.
    let text = format!("0.{}12345678", zeros(32760));
    assert_eq!(parse_document(&text), Ok(number(true, 12345678, i16::MIN)));
    let text = format!("0.{}123456789", zeros(32760));
    assert_eq!(parse_document(&text), Err(ErrorKind::DecodeError));
    // Of a long row of nines the mantissa takes nineteen.
    let text = format!("0.{}{}", zeros(FRACTION_LIMIT - 19), "9".repeat(500));
    assert_eq!(parse_document(&text), Ok(number(true, 9999999999999999999, i16::MIN)));
    let text = format!("0.{}{}", zeros(FRACTION_LIMIT - 18), "9".repeat(500));
    assert_eq!(parse_document(&text), Err(ErrorKind::DecodeError));
    // Of a long row of ones it takes twenty.
    let text = format!("0.{}{}", zeros(FRACTION_LIMIT - 20), "1".repeat(500));
    assert_eq!(parse_document(&text), Ok(number(true, 11111111111111111111, i16::MIN)));
    let text = format!("0.{}{}", zeros(FRACTION_LIMIT - 19), "1".repeat(500));
    assert_eq!(parse_document(&text), Err(ErrorKind::DecodeError));
    // The largest mantissa of all, and one digit that no longer fits.
    let text = format!("0.{}18446744073709551615", zeros(FRACTION_LIMIT - 20));
    assert_eq!(parse_document(&text), Ok(number(true, u64::MAX, i16::MIN)));
    let text = format!("0.{}18446744073709551616", zeros(FRACTION_LIMIT - 20));
    assert_eq!(parse_document(&text), Ok(number(true, 1844674407370955161, -32767)));
}

#[test]
fn long_fractions_of_other_numbers_are_read() {
    let text = format!("1.{}", zeros(40000));
    assert!(parsable(&text));
    assert_eq!(parse_document(&text), Ok(number(true, 10000000000000000000, -19)));
    let text = format!("[10.{}5, 20.{}]", zeros(40000), "7".repeat(40000));
    assert_eq!(
        parse_document(&text),
        Ok(Json::Array(vec![
            number(true, 10000000000000000000, -18),
            number(true, 2077777777777777777, -17),
        ]))
    );
    let text = format!("0.5{}", zeros(40000));
    assert_eq!(parse_document(&text), Ok(number(true, 5000000000000000000, -19)));
}

#[test]
fn long_digit_runs_in_names_and_ids_are_kept() {
    let sevens = "7".repeat(32768);
    let payload = format!(r#"[{{"id":"b1","name":"{sevens}"}}]"#);
    assert_eq!(decode_entries(&payload), Ok(vec![entry("b1", &sevens)]));
    let digits = "1234567890".repeat(10000);
    let payload = format!(r#"[{{"id":"{digits}","name":"{digits}"}}]"#);
    assert_eq!(decode_entries(&payload), Ok(vec![entry(&digits, &digits)]));
}

#[test]
fn long_fractions_inside_strings_are_kept() {
    let fraction = format!("0.{}", zeros(40000));
    let payload = format!(r#"[{{"id":"{fraction}","name":"pi is {fraction}"}}]"#);
    assert!(parsable(&payload));
    assert_eq!(
        decode_entries(&payload),
        Ok(vec![entry(&fraction, &format!("pi is {fraction}"))])
    );
    let payload = format!(r#"[{{"id":"k1","name":"say \"{fraction}\" \\"}}]"#);
    assert_eq!(
        decode_entries(&payload),
        Ok(vec![entry("k1", &format!("say \"{fraction}\" \\"))])
    );
    let payload = format!(r#"[{{"{fraction}":0.5,"id":"k1","name":"0.{}"}}]"#, zeros(40000));
    assert_eq!(decode_entries(&payload), Ok(vec![entry("k1", &fraction)]));
}

#[test]
fn fraction_after_a_string_is_followed_again() {
    let fraction = format!("0.{}", zeros(40000));
    let payload = format!(r#"[{{"id":"k1","name":"a \" b","pos":{fraction}}}]"#);
    assert!(!parsable(&payload));
    assert_eq!(decode_entries(&payload), Err(ErrorKind::DecodeError));
    let payload = format!(r#"[{{"id":"k1","name":"a\\","pos":{fraction}}}]"#);
    assert_eq!(decode_entries(&payload), Err(ErrorKind::DecodeError));
}

#[test]
fn long_integers_are_left_to_the_parser() {
    let text = "7".repeat(32768);
    assert!(parsable(&text));
    assert_eq!(parse_document(&text), Ok(number(true, 7777777777777777777, 32749)));
    let text = format!("[{}]", vec!["12345"; 20000].join(","));
    assert!(parse_document(&text).is_ok());
    assert!(parsable(""));
    assert!(parsable("0."));
    assert!(parsable("\"0."));
}
