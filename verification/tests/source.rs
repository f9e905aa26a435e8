use trello_tui::config::Config;
use trello_tui::document::{Json, Member};
use trello_tui::entry::Entry;
use trello_tui::error::ErrorKind;
use trello_tui::source::{DataSource, Reply, Request, TrelloRest, TrelloRestLocal};

fn config() -> Config {
    Config {
        base_url: "https://api.trello.com/1".to_string(),
        key: "KEY".to_string(),
        token: "TOKEN".to_string(),
    }
}

fn remote() -> TrelloRest {
    TrelloRest::new("https://api.trello.com/1".to_string(), "KEY".to_string(), "TOKEN".to_string())
}

fn local() -> TrelloRestLocal {
    TrelloRestLocal::new("https://api.trello.com/1".to_string(), "KEY".to_string(), "TOKEN".to_string())
}

fn get(url: &str) -> Request {
    Request::Get { url: url.to_string() }
}

fn read(path: &str) -> Request {
    Request::Read { path: path.to_string() }
}

#[test]
fn remote_boards_url() {
    assert_eq!(
        remote().get_boards(),
        get("https://api.trello.com/1/members/me/boards?key=KEY&token=TOKEN")
    );
}

#[test]
fn remote_columns_url() {
    assert_eq!(
        remote().get_board("b1".to_string()),
        get("https://api.trello.com/1/boards/b1/lists?key=KEY&token=TOKEN")
    );
}

#[test]
fn remote_cards_url() {
    assert_eq!(
        remote().get_cards("c1".to_string()),
        get("https://api.trello.com/1/lists/c1/cards?key=KEY&token=TOKEN")
    );
}

#[test]
fn remote_url_takes_the_parts_as_they_are() {
    let source = TrelloRest::new(String::new(), "a b".to_string(), "t&x=1".to_string());
    assert_eq!(source.get_board("5f/..?".to_string()), get("/boards/5f/..?/lists?key=a b&token=t&x=1"));
    assert_eq!(source.get_cards(String::new()), get("/lists//cards?key=a b&token=t&x=1"));
}

#[test]
fn fixture_paths() {
    assert_eq!(local().get_boards(), read("test_data/boards.json"));
    assert_eq!(local().get_board("b1".to_string()), read("test_data/b1/lists/lists.json"));
    assert_eq!(local().get_cards("c1".to_string()), read("test_data/c1.json"));
    assert_eq!(local().get_cards(String::new()), read("test_data/.json"));
}

#[test]
fn data_source_asks_where_its_kind_looks() {
    let source = DataSource::Remote(remote());
    assert_eq!(source.list_boards(), remote().get_boards());
    assert_eq!(source.list_columns("b2".to_string()), remote().get_board("b2".to_string()));
    assert_eq!(source.list_cards("c9".to_string()), remote().get_cards("c9".to_string()));
    let source = DataSource::Fixture(local());
    assert_eq!(source.list_boards(), read("test_data/boards.json"));
    assert_eq!(source.list_columns("b2".to_string()), read("test_data/b2/lists/lists.json"));
    assert_eq!(source.list_cards("c9".to_string()), read("test_data/c9.json"));
}

#[test]
fn configuration_is_read_from_json() {
    let text = r#"{"base_url":"https://api.trello.com/1","key":"KEY","token":"TOKEN","note":1}"#;
    assert_eq!(Config::from_text(text), Ok(config()));
}

#[test]
fn configuration_needs_all_three_strings() {
    for text in [
        r#"{"base_url":"u","key":"k"}"#,
        r#"{"base_url":"u","token":"t"}"#,
        r#"{"key":"k","token":"t"}"#,
        r#"{"base_url":"u","key":1,"token":"t"}"#,
        r#"{"base_url":null,"key":"k","token":"t"}"#,
        r#"["u","k","t"]"#,
        "{}",
        "",
        r#"{"base_url":"u","key":"k","token":"t""#,
    ] {
        assert_eq!(Config::from_text(text), Err(ErrorKind::DecodeError), "{text:?}");
    }
}

#[test]
fn configuration_from_a_document_built_by_hand() {
    let field = |key: &str, value: &str| Member {
        key: key.to_string(),
        value: Json::Text(value.to_string()),
    };
    let document = Json::Object(vec![
        field("token", "TOKEN"),
        field("key", "KEY"),
        field("base_url", "https://api.trello.com/1"),
    ]);
    assert_eq!(Config::from_document(&document), Ok(config()));
    let document = Json::Object(vec![field("token", "TOKEN"), field("key", "KEY")]);
    assert_eq!(Config::from_document(&document), Err(ErrorKind::DecodeError));
    assert_eq!(Config::from_document(&Json::Null), Err(ErrorKind::DecodeError));
}

#[test]
fn sources_are_built_from_the_configuration() {
    assert_eq!(DataSource::remote(config()), DataSource::Remote(remote()));
    assert_eq!(DataSource::fixture(config()), DataSource::Fixture(local()));
    assert_eq!(
        DataSource::remote(config()).list_boards(),
        get("https://api.trello.com/1/members/me/boards?key=KEY&token=TOKEN")
    );
}

fn file(text: &str) -> Reply {
    Reply::Payload(text.to_string())
}

fn entry(id: &str, name: &str) -> Entry {
    Entry::new(id.to_string(), name.to_string())
}

#[test]
fn fixture_file_gives_its_entries_in_order() {
    let text = r#"[{"id":"k3","name":"Pay rent"},{"id":"k1","name":"Buy milk"},{"id":"k2","name":"Buy milk"}]"#;
    assert_eq!(
        TrelloRestLocal::read_file(&file(text)),
        Ok(vec![entry("k3", "Pay rent"), entry("k1", "Buy milk"), entry("k2", "Buy milk")])
    );
}

#[test]
fn fixture_file_with_an_empty_array_gives_no_entries() {
    assert_eq!(TrelloRestLocal::read_file(&file("[]")), Ok(Vec::new()));
    assert_eq!(TrelloRestLocal::read_file(&file(" [\n] ")), Ok(Vec::new()));
}

#[test]
fn fixture_file_that_is_not_json_is_a_decode_error() {
    for text in ["", "[{\"id\":\"b1\",\"name\":\"Work\"}", "[{\"id\":\"b1\",\"name\":\"Work\"},]", "[,]"] {
        assert_eq!(TrelloRestLocal::read_file(&file(text)), Err(ErrorKind::DecodeError), "{text:?}");
    }
}

#[test]
fn fixture_file_that_cannot_be_read_is_source_unavailable() {
    assert_eq!(TrelloRestLocal::read_file(&Reply::Unavailable), Err(ErrorKind::SourceUnavailable));
}

#[test]
fn send_request_puts_the_path_between_base_and_credentials() {
    assert_eq!(
        remote().send_request("members/me/boards".to_string()),
        get("https://api.trello.com/1/members/me/boards?key=KEY&token=TOKEN")
    );
    assert_eq!(
        remote().send_request(String::new()),
        get("https://api.trello.com/1/?key=KEY&token=TOKEN")
    );
    assert_eq!(remote().send_request("a/b?c".to_string()), get("https://api.trello.com/1/a/b?c?key=KEY&token=TOKEN"));
}
