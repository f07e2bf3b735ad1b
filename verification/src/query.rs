//! The request for the list of articles: what it holds, how it is made from
//! flags and credentials, and how it is written for the wire. A field that
//! was not given is left out of the wire form altogether.

use vstd::prelude::*;
use crate::error::ListError;
use crate::json::{all_text, members_of, new_object, object_text, print, put_text, Json, Members};
use crate::options::{sort_of_every_flag, state_of_every_flag, DetailType, Sort, State};

verus! {

/// The flags of the subcommand as the user gave them.
#[derive(Clone, Debug, PartialEq, Eq)]
pub struct ListFlags {
    pub details: bool,
    pub tag: Option<String>,
    pub state: Option<String>,
    pub sort: Option<String>,
    pub search: Option<String>,
}

/// The characters that some [`ListFlags`] hold.
pub struct ListFlagsView {
    pub details: bool,
    pub tag: Option<Seq<char>>,
    pub state: Option<Seq<char>>,
    pub sort: Option<Seq<char>>,
    pub search: Option<Seq<char>>,
}

/// The characters of a string that may be absent.
pub open spec fn text_of(value: Option<String>) -> Option<Seq<char>> {
    match value {
        Some(text) => Some(text@),
        None => None,
    }
}

impl View for ListFlags {
    type V = ListFlagsView;

    open spec fn view(&self) -> ListFlagsView {
        ListFlagsView {
            details: self.details,
            tag: text_of(self.tag),
            state: text_of(self.state),
            sort: text_of(self.sort),
            search: text_of(self.search),
        }
    }
}

/// What the service knows the caller by.
#[derive(Clone, Debug, PartialEq, Eq)]
pub struct Credentials {
    pub consumer_key: String,
    /// Absent until the user has signed in.
    pub access_token: Option<String>,
}

/// The request for the list of articles.
#[derive(Clone, Debug, PartialEq, Eq)]
pub struct ArticleQuery {
    pub consumer_key: String,
    pub access_token: String,
    pub state: Option<State>,
    pub tag: Option<String>,
    pub sort: Option<Sort>,
    pub detail_type: DetailType,
    pub search: Option<String>,
}

/// The characters and options that an [`ArticleQuery`] holds.
pub struct ArticleQueryView {
    pub consumer_key: Seq<char>,
    pub access_token: Seq<char>,
    pub state: Option<State>,
    pub tag: Option<Seq<char>>,
    pub sort: Option<Sort>,
    pub detail_type: DetailType,
    pub search: Option<Seq<char>>,
}

impl View for ArticleQuery {
    type V = ArticleQueryView;

    open spec fn view(&self) -> ArticleQueryView {
        ArticleQueryView {
            consumer_key: self.consumer_key@,
            access_token: self.access_token@,
            state: self.state,
            tag: text_of(self.tag),
            sort: self.sort,
            detail_type: self.detail_type,
            search: text_of(self.search),
        }
    }
}

/// The request that flags and credentials ask for. State and order are
/// always set, to the default where the flag names no other; tag and search
/// text are set where they were given.
pub open spec fn query_of(
    flags: ListFlagsView,
    consumer_key: Seq<char>,
    access_token: Seq<char>,
) -> ArticleQueryView {
    ArticleQueryView {
        consumer_key,
        access_token,
        state: Some(State::of_flag(flags.state)),
        tag: flags.tag,
        sort: Some(Sort::of_flag(flags.sort)),
        detail_type: DetailType::of_flag(flags.details),
        search: flags.search,
    }
}

/// Whatever the flags hold, the request that they ask for has a state and an
/// order: the one that the flag names, and the default where the flag is
/// absent or names none.
pub proof fn every_flag_combination_resolves(
    flags: ListFlagsView,
    consumer_key: Seq<char>,
    access_token: Seq<char>,
)
    ensures
        ({
            let state = query_of(flags, consumer_key, access_token).state;
            &&& state is Some
            &&& state == Some(State::Archive) <==> flags.state == Some("archive"@)
            &&& state == Some(State::All) <==> flags.state == Some("all"@)
            &&& state == Some(State::Unread) <==> flags.state != Some("archive"@)
                && flags.state != Some("all"@)
        }),
        ({
            let sort = query_of(flags, consumer_key, access_token).sort;
            &&& sort is Some
            &&& sort == Some(Sort::Oldest) <==> flags.sort == Some("oldest"@)
            &&& sort == Some(Sort::Title) <==> flags.sort == Some("title"@)
            &&& sort == Some(Sort::Site) <==> flags.sort == Some("site"@)
            &&& sort == Some(Sort::Newest) <==> flags.sort != Some("oldest"@)
                && flags.sort != Some("title"@) && flags.sort != Some("site"@)
        }),
{
    state_of_every_flag(flags.state);
    sort_of_every_flag(flags.sort);
}

/// The string that the wire form of a request holds under a key, where it
/// holds one.
pub open spec fn wire_value(query: ArticleQueryView, key: Seq<char>) -> Option<Seq<char>> {
    if key == "consumer_key"@ {
        Some(query.consumer_key)
    } else if key == "access_token"@ {
        Some(query.access_token)
    } else if key == "state"@ {
        match query.state {
            Some(state) => Some(state.name_spec()),
            None => None,
        }
    } else if key == "tag"@ {
        query.tag
    } else if key == "sort"@ {
        match query.sort {
            Some(sort) => Some(sort.name_spec()),
            None => None,
        }
    } else if key == "detailType"@ {
        Some(query.detail_type.name_spec())
    } else if key == "search"@ {
        query.search
    } else {
        None
    }
}

/// The wire form of a request: a JSON object of strings.
pub open spec fn wire_members(query: ArticleQueryView) -> Members {
    Map::new(
        |key: Seq<char>| wire_value(query, key) is Some,
        |key: Seq<char>| Json::Text(wire_value(query, key)->0),
    )
}

/// The keys of the wire form differ from one another.
proof fn wire_keys_differ()
    ensures
        "consumer_key"@ != "access_token"@,
        "consumer_key"@ != "state"@,
        "consumer_key"@ != "tag"@,
        "consumer_key"@ != "sort"@,
        "consumer_key"@ != "detailType"@,
        "consumer_key"@ != "search"@,
        "access_token"@ != "state"@,
        "access_token"@ != "tag"@,
        "access_token"@ != "sort"@,
        "access_token"@ != "detailType"@,
        "access_token"@ != "search"@,
        "state"@ != "tag"@,
        "state"@ != "sort"@,
        "state"@ != "detailType"@,
        "state"@ != "search"@,
        "tag"@ != "sort"@,
        "tag"@ != "detailType"@,
        "tag"@ != "search"@,
        "sort"@ != "detailType"@,
        "sort"@ != "search"@,
        "detailType"@ != "search"@,
{
    reveal_strlit("consumer_key");
    reveal_strlit("access_token");
    reveal_strlit("state");
    reveal_strlit("tag");
    reveal_strlit("sort");
    reveal_strlit("detailType");
    reveal_strlit("search");
    assert("consumer_key"@.len() == 12 && "consumer_key"@[0] == 'c');
    assert("access_token"@.len() == 12 && "access_token"@[0] == 'a');
    assert("state"@.len() == 5);
    assert("tag"@.len() == 3);
    assert("sort"@.len() == 4);
    assert("detailType"@.len() == 10);
    assert("search"@.len() == 6);
}

/// The wire form holds the credentials and the detail level whatever the
/// request, and each other field if and only if the request holds it: a
/// field that is absent has no key.
pub proof fn wire_form_omits_what_is_absent(query: ArticleQueryView)
    ensures
        wire_members(query).contains_pair("consumer_key"@, Json::Text(query.consumer_key)),
        wire_members(query).contains_pair("access_token"@, Json::Text(query.access_token)),
        wire_members(query).contains_pair("detailType"@, Json::Text(query.detail_type.name_spec())),
        wire_members(query).contains_key("state"@) <==> query.state is Some,
        wire_members(query).contains_key("tag"@) <==> query.tag is Some,
        wire_members(query).contains_key("sort"@) <==> query.sort is Some,
        wire_members(query).contains_key("search"@) <==> query.search is Some,
        query.state matches Some(state) ==> wire_members(query)["state"@] == Json::Text(state.name_spec()),
        query.tag matches Some(tag) ==> wire_members(query)["tag"@] == Json::Text(tag),
        query.sort matches Some(sort) ==> wire_members(query)["sort"@] == Json::Text(sort.name_spec()),
        query.search matches Some(search) ==> wire_members(query)["search"@] == Json::Text(search),
        forall|key: Seq<char>| #[trigger] wire_members(query).contains_key(key) ==> key == "consumer_key"@
            || key == "access_token"@ || key == "state"@ || key == "tag"@ || key == "sort"@
            || key == "detailType"@ || key == "search"@,
{
    wire_keys_differ();
}

/// The wire form of the request that flags and credentials ask for: the
/// credentials, the detail level, and the state and the order, named or
/// default, are always there; the tag and the search text are there exactly
/// where they were given, unchanged, the empty string too.
pub proof fn wire_form_of_flags(
    flags: ListFlagsView,
    consumer_key: Seq<char>,
    access_token: Seq<char>,
)
    ensures
        ({
            let members = wire_members(query_of(flags, consumer_key, access_token));
            &&& members.contains_pair("consumer_key"@, Json::Text(consumer_key))
            &&& members.contains_pair("access_token"@, Json::Text(access_token))
            &&& members.contains_pair(
                "state"@,
                Json::Text(State::of_flag(flags.state).name_spec()),
            )
            &&& members.contains_pair("sort"@, Json::Text(Sort::of_flag(flags.sort).name_spec()))
            &&& members.contains_pair(
                "detailType"@,
                Json::Text(DetailType::of_flag(flags.details).name_spec()),
            )
            &&& members.contains_key("tag"@) <==> flags.tag is Some
            &&& members.contains_key("search"@) <==> flags.search is Some
            &&& flags.tag matches Some(tag) ==> members["tag"@] == Json::Text(tag)
            &&& flags.search matches Some(search) ==> members["search"@] == Json::Text(search)
            &&& all_text(members)
        }),
{
    wire_form_omits_what_is_absent(query_of(flags, consumer_key, access_token));
}

/// Two requests that differ in the access token alone have wire forms that
/// differ under `access_token` alone.
pub proof fn token_shows_under_its_key_alone(
    flags: ListFlagsView,
    consumer_key: Seq<char>,
    first_token: Seq<char>,
    second_token: Seq<char>,
)
    ensures
        wire_members(query_of(flags, consumer_key, first_token)).remove("access_token"@)
            == wire_members(query_of(flags, consumer_key, second_token)).remove("access_token"@),
{
    wire_keys_differ();
    assert(wire_members(query_of(flags, consumer_key, first_token)).remove("access_token"@)
        =~= wire_members(query_of(flags, consumer_key, second_token)).remove("access_token"@));
}

/// What the printing of a request comes to: the text, or that the request
/// could not be written.
pub fn payload_of(printed: Result<String, serde_json::Error>) -> (payload: Result<String, ListError>)
    ensures
        match printed {
            Ok(text) => payload == Ok::<String, ListError>(text),
            Err(_) => payload == Err::<String, ListError>(ListError::Serialization),
        },
{
    match printed {
        Ok(text) => Ok(text),
        Err(_) => Err(ListError::Serialization),
    }
}

impl ArticleQuery {
    /// Makes the request that flags and credentials ask for. Without an
    /// access token there is no request.
    pub fn from_flags(
        flags: &ListFlags,
        credentials: &Credentials,
    ) -> (query: Result<ArticleQuery, ListError>)
        ensures
            match credentials.access_token {
                Some(token) => query matches Ok(q)
                    && q@ == query_of(flags@, credentials.consumer_key@, token@),
                None => query == Err::<ArticleQuery, ListError>(ListError::MissingAccessToken),
            },
    {
        let access_token = match &credentials.access_token {
            Some(token) => token.clone(),
            None => {
                return Err(ListError::MissingAccessToken);
            },
        };
        let state = match &flags.state {
            Some(name) => State::resolve(Some(name.as_str())),
            None => State::resolve(None),
        };
        let sort = match &flags.sort {
            Some(name) => Sort::resolve(Some(name.as_str())),
            None => Sort::resolve(None),
        };
        let tag = match &flags.tag {
            Some(text) => Some(text.clone()),
            None => None,
        };
        let search = match &flags.search {
            Some(text) => Some(text.clone()),
            None => None,
        };
        Ok(
            ArticleQuery {
                consumer_key: credentials.consumer_key.clone(),
                access_token,
                state: Some(state),
                tag,
                sort: Some(sort),
                detail_type: DetailType::from(flags.details),
                search,
            },
        )
    }

    /// Writes the request as the JSON text that goes over the wire. Every
    /// request can be written: its wire form holds strings under strings.
    pub fn to_json(&self) -> (payload: Result<String, ListError>)
        ensures
            payload matches Ok(text) && text@ == object_text(wire_members(self@)),
    {
        let mut object = new_object();
        put_text(&mut object, "consumer_key".to_owned(), self.consumer_key.clone());
        put_text(&mut object, "access_token".to_owned(), self.access_token.clone());
        if let Some(state) = self.state {
            put_text(&mut object, "state".to_owned(), state.name().to_owned());
        }
        if let Some(tag) = &self.tag {
            put_text(&mut object, "tag".to_owned(), tag.clone());
        }
        if let Some(sort) = self.sort {
            put_text(&mut object, "sort".to_owned(), sort.name().to_owned());
        }
        put_text(&mut object, "detailType".to_owned(), self.detail_type.name().to_owned());
        if let Some(search) = &self.search {
            put_text(&mut object, "search".to_owned(), search.clone());
        }
        proof {
            wire_keys_differ();
            assert(members_of(object) =~= wire_members(self@));
            assert(all_text(members_of(object)));
        }
        payload_of(print(&object))
    }
}

} // verus!
