//! The data sources. A source says where the answer to a question is to be
//! fetched, and what came back is decoded here; the fetching itself is the
//! caller's part.

use vstd::prelude::*;
use vstd::string::*;
use crate::decode::{
    decode_entries, is_collection, lemma_collection_keeps_ids_names_and_order,
    lemma_only_collections_decode, lemma_payload_decodes_whole_or_fails, outcome_view,
    spec_decode,
};
use crate::document::{json_parse, spec_parsable};
use crate::config::{Config, ConfigView};
use crate::entry::{Entry, EntryView};
use crate::error::ErrorKind;

verus! {

/// What a data source asks its transport to fetch.
#[derive(Debug, PartialEq, Eq)]
pub enum Request {
    /// Retrieve the body found at a URL.
    Get { url: String },
    /// Read the file at a path relative to the working directory.
    Read { path: String },
}

/// The mathematical content of a [`Request`].
pub ghost enum RequestView {
    Get { url: Seq<char> },
    Read { path: Seq<char> },
}

impl View for Request {
    type V = RequestView;

    open spec fn view(&self) -> RequestView {
        match self {
            Request::Get { url } => RequestView::Get { url: url@ },
            Request::Read { path } => RequestView::Read { path: path@ },
        }
    }
}

/// What the transport came back with.
#[derive(Debug, PartialEq, Eq)]
pub enum Reply {
    /// The backend could not be reached, or the file could not be opened or read.
    Unavailable,
    /// The text that was retrieved.
    Payload(String),
}

/// The entries that a reply stands for: `SourceUnavailable` where nothing
/// came back, else what the payload decodes to.
pub open spec fn spec_reply_entries(reply: Reply) -> Result<Seq<EntryView>, ErrorKind> {
    match reply {
        Reply::Unavailable => Err(ErrorKind::SourceUnavailable),
        Reply::Payload(text) => spec_decode(text@),
    }
}

impl Reply {
    /// The boards, columns or cards that the reply lists.
    pub fn entries(&self) -> (outcome: Result<Vec<Entry>, ErrorKind>)
        ensures
            outcome_view(outcome) == spec_reply_entries(*self),
    {
        match self {
            Reply::Unavailable => Err(ErrorKind::SourceUnavailable),
            Reply::Payload(text) => decode_entries(text.as_str()),
        }
    }
}

/// A reply without a payload is `SourceUnavailable`, and only such a reply
/// is: what did come back can at worst fail to decode.
pub proof fn lemma_unavailable_means_no_payload(reply: Reply)
    ensures
        spec_reply_entries(reply) == Err::<Seq<EntryView>, ErrorKind>(
            ErrorKind::SourceUnavailable,
        ) <==> reply is Unavailable,
        reply matches Reply::Payload(text) ==> spec_reply_entries(reply) == spec_decode(text@),
{
    if let Reply::Payload(text) = reply {
        lemma_payload_decodes_whole_or_fails(text@);
    }
}

/// A payload that may be handed to the parser, and that the parser reads
/// as a collection, gives as many entries as the collection has members,
/// none for an empty one, in the same order, each with exactly the id and
/// the name of its member. The one bound is [`spec_parsable`]: outside its
/// strings the payload holds no number `0.…` whose fraction the parser
/// cannot count. Names, ids and integers may be of any length.
pub proof fn lemma_collection_payload_round_trips(reply: Reply)
    requires
        reply is Payload,
        spec_parsable(reply->Payload_0@),
        json_parse(reply->Payload_0@) is Some,
        is_collection(json_parse(reply->Payload_0@)->0),
    ensures
        ({
            let members = json_parse(reply->Payload_0@)->0.spec_items()->0;
            &&& spec_reply_entries(reply) is Ok
            &&& spec_reply_entries(reply)->Ok_0.len() == members.len()
            &&& forall|i: int|
                0 <= i < members.len() ==> {
                    &&& Some((#[trigger] spec_reply_entries(reply)->Ok_0[i]).id)
                        == members[i].spec_text_member("id"@)
                    &&& Some(spec_reply_entries(reply)->Ok_0[i].name)
                        == members[i].spec_text_member("name"@)
                }
        }),
{
    lemma_collection_keeps_ids_names_and_order(json_parse(reply->Payload_0@)->0);
}

/// A payload is a `DecodeError`, and gives no entries at all, where it may
/// not be handed to the parser, where the parser rejects it, and where what
/// the parser reads is no collection.
pub proof fn lemma_malformed_payload_is_decode_error(reply: Reply)
    requires
        reply is Payload,
        !spec_parsable(reply->Payload_0@) || json_parse(reply->Payload_0@) is None
            || !is_collection(json_parse(reply->Payload_0@)->0),
    ensures
        spec_reply_entries(reply) == Err::<Seq<EntryView>, ErrorKind>(ErrorKind::DecodeError),
{
    if json_parse(reply->Payload_0@) is Some {
        lemma_only_collections_decode(json_parse(reply->Payload_0@)->0);
    }
}

/// The path of the request for all boards of the configured identity.
pub open spec fn spec_boards_path() -> Seq<char> {
    "members/me/boards"@
}

/// The path of the request for the columns of a board.
pub open spec fn spec_columns_path(board_id: Seq<char>) -> Seq<char> {
    "boards/"@ + board_id + "/lists"@
}

/// The path of the request for the cards of a column.
pub open spec fn spec_cards_path(column_id: Seq<char>) -> Seq<char> {
    "lists/"@ + column_id + "/cards"@
}

/// The URL for a path: the base, the path, and the credentials as query.
pub open spec fn spec_request_url(
    base: Seq<char>,
    path: Seq<char>,
    key: Seq<char>,
    token: Seq<char>,
) -> Seq<char> {
    base + "/"@ + path + "?key="@ + key + "&token="@ + token
}

/// The fixture file that lists all boards.
pub open spec fn spec_boards_file() -> Seq<char> {
    "test_data/boards.json"@
}

/// The fixture file that lists the columns of a board.
pub open spec fn spec_columns_file(board_id: Seq<char>) -> Seq<char> {
    "test_data/"@ + board_id + "/lists/lists.json"@
}

/// The fixture file that lists the cards of a column.
pub open spec fn spec_cards_file(column_id: Seq<char>) -> Seq<char> {
    "test_data/"@ + column_id + ".json"@
}

/// The remote data source: a base URL and the credentials of an identity.
#[derive(Debug, PartialEq, Eq)]
pub struct TrelloRest {
    url: String,
    key: String,
    token: String,
}

impl View for TrelloRest {
    type V = ConfigView;

    closed spec fn view(&self) -> ConfigView {
        ConfigView { base_url: self.url@, key: self.key@, token: self.token@ }
    }
}

impl TrelloRest {
    /// The source for a base URL and the key and token of an identity.
    pub fn new(url: String, key: String, token: String) -> (source: TrelloRest)
        ensures
            source@ == (ConfigView { base_url: url@, key: key@, token: token@ }),
    {
        TrelloRest { url: url, key: key, token: token }
    }

    /// The request for a path below the base URL, with the credentials.
    /// What comes back for it is read by [`Reply::entries`].
    pub fn send_request(&self, path: String) -> (request: Request)
        ensures
            request@ == (RequestView::Get {
                url: spec_request_url(self@.base_url, path@, self@.key, self@.token),
            }),
    {
        let mut url = self.url.clone();
        url.append("/");
        url.append(path.as_str());
        url.append("?key=");
        url.append(self.key.as_str());
        url.append("&token=");
        url.append(self.token.as_str());
        Request::Get { url }
    }

    /// The request for all boards.
    pub fn get_boards(&self) -> (request: Request)
        ensures
            request@ == (RequestView::Get {
                url: spec_request_url(self@.base_url, spec_boards_path(), self@.key, self@.token),
            }),
    {
        self.send_request(String::from_str("members/me/boards"))
    }

    /// The request for the columns of a board.
    pub fn get_board(&self, id: String) -> (request: Request)
        ensures
            request@ == (RequestView::Get {
                url: spec_request_url(self@.base_url, spec_columns_path(id@), self@.key, self@.token),
            }),
    {
        let mut path = String::from_str("boards/");
        path.append(id.as_str());
        path.append("/lists");
        self.send_request(path)
    }

    /// The request for the cards of a column.
    pub fn get_cards(&self, id: String) -> (request: Request)
        ensures
            request@ == (RequestView::Get {
                url: spec_request_url(self@.base_url, spec_cards_path(id@), self@.key, self@.token),
            }),
    {
        let mut path = String::from_str("lists/");
        path.append(id.as_str());
        path.append("/cards");
        self.send_request(path)
    }
}

/// The fixture-backed data source: it answers from a tree of files under
/// `test_data`. It is built from the same configuration as the remote
/// source and uses none of it.
#[allow(dead_code)]
#[derive(Debug, PartialEq, Eq)]
pub struct TrelloRestLocal {
    url: String,
    key: String,
    token: String,
}

impl View for TrelloRestLocal {
    type V = ConfigView;

    closed spec fn view(&self) -> ConfigView {
        ConfigView { base_url: self.url@, key: self.key@, token: self.token@ }
    }
}

impl TrelloRestLocal {
    /// The source for the fixture files. The three values are kept and not
    /// used.
    pub fn new(url: String, key: String, token: String) -> (source: TrelloRestLocal)
        ensures
            source@ == (ConfigView { base_url: url@, key: key@, token: token@ }),
    {
        TrelloRestLocal { url: url, key: key, token: token }
    }

    /// The entries of a fixture file, from what reading it gave: a file
    /// that could not be opened or read is `SourceUnavailable`; a file that
    /// was read gives the entries that its text lists, or `DecodeError`.
    pub fn read_file(read: &Reply) -> (outcome: Result<Vec<Entry>, ErrorKind>)
        ensures
            outcome_view(outcome) == spec_reply_entries(*read),
    {
        read.entries()
    }

    /// The request for all boards.
    pub fn get_boards(&self) -> (request: Request)
        ensures
            request@ == (RequestView::Read { path: spec_boards_file() }),
    {
        Request::Read { path: String::from_str("test_data/boards.json") }
    }

    /// The request for the columns of a board.
    pub fn get_board(&self, id: String) -> (request: Request)
        ensures
            request@ == (RequestView::Read { path: spec_columns_file(id@) }),
    {
        let mut path = String::from_str("test_data/");
        path.append(id.as_str());
        path.append("/lists/lists.json");
        Request::Read { path }
    }

    /// The request for the cards of a column.
    pub fn get_cards(&self, id: String) -> (request: Request)
        ensures
            request@ == (RequestView::Read { path: spec_cards_file(id@) }),
    {
        let mut path = String::from_str("test_data/");
        path.append(id.as_str());
        path.append(".json");
        Request::Read { path }
    }
}

/// A data source of either kind, chosen when it is built. Both kinds answer
/// the same three questions and differ only in where the answer is fetched.
#[derive(Debug, PartialEq, Eq)]
pub enum DataSource {
    Remote(TrelloRest),
    Fixture(TrelloRestLocal),
}

impl DataSource {
    /// The remote source for a configuration.
    pub fn remote(config: Config) -> (source: DataSource)
        ensures
            source matches DataSource::Remote(inner) && inner@ == config@,
    {
        DataSource::Remote(TrelloRest::new(config.base_url, config.key, config.token))
    }

    /// The fixture-backed source for a configuration.
    pub fn fixture(config: Config) -> (source: DataSource)
        ensures
            source matches DataSource::Fixture(inner) && inner@ == config@,
    {
        DataSource::Fixture(TrelloRestLocal::new(config.base_url, config.key, config.token))
    }

    /// Where the list of all boards is found.
    pub open spec fn spec_list_boards(self) -> RequestView {
        match self {
            DataSource::Remote(source) => RequestView::Get {
                url: spec_request_url(source@.base_url, spec_boards_path(), source@.key, source@.token),
            },
            DataSource::Fixture(_) => RequestView::Read { path: spec_boards_file() },
        }
    }

    /// Where the columns of a board are found.
    pub open spec fn spec_list_columns(self, board_id: Seq<char>) -> RequestView {
        match self {
            DataSource::Remote(source) => RequestView::Get {
                url: spec_request_url(
                    source@.base_url,
                    spec_columns_path(board_id),
                    source@.key,
                    source@.token,
                ),
            },
            DataSource::Fixture(_) => RequestView::Read { path: spec_columns_file(board_id) },
        }
    }

    /// Where the cards of a column are found.
    pub open spec fn spec_list_cards(self, column_id: Seq<char>) -> RequestView {
        match self {
            DataSource::Remote(source) => RequestView::Get {
                url: spec_request_url(
                    source@.base_url,
                    spec_cards_path(column_id),
                    source@.key,
                    source@.token,
                ),
            },
            DataSource::Fixture(_) => RequestView::Read { path: spec_cards_file(column_id) },
        }
    }

    /// The request for all boards visible to the configured identity.
    pub fn list_boards(&self) -> (request: Request)
        ensures
            request@ == self.spec_list_boards(),
    {
        match self {
            DataSource::Remote(source) => source.get_boards(),
            DataSource::Fixture(source) => source.get_boards(),
        }
    }

    /// The request for the columns of a board.
    pub fn list_columns(&self, board_id: String) -> (request: Request)
        ensures
            request@ == self.spec_list_columns(board_id@),
    {
        match self {
            DataSource::Remote(source) => source.get_board(board_id),
            DataSource::Fixture(source) => source.get_board(board_id),
        }
    }

    /// The request for the cards of a column.
    pub fn list_cards(&self, column_id: String) -> (request: Request)
        ensures
            request@ == self.spec_list_cards(column_id@),
    {
        match self {
            DataSource::Remote(source) => source.get_cards(column_id),
            DataSource::Fixture(source) => source.get_cards(column_id),
        }
    }
}

} // verus!
