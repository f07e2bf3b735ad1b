//! The reply of the service: a status, a completeness flag and the articles,
//! each under its identifier.

use vstd::prelude::*;
use crate::error::ListError;
use crate::json::{
    document_of, entries, holds_each_once, json_of, member, members_of, pairs_of, parse, Json, Members,
};

verus! {

/// A saved article.
#[derive(Clone, Debug, PartialEq, Eq)]
pub struct Article {
    pub item_id: String,
    pub resolved_title: String,
    pub resolved_url: String,
}

/// The characters that an [`Article`] holds.
pub struct ArticleView {
    pub item_id: Seq<char>,
    pub resolved_title: Seq<char>,
    pub resolved_url: Seq<char>,
}

impl View for Article {
    type V = ArticleView;

    open spec fn view(&self) -> ArticleView {
        ArticleView {
            item_id: self.item_id@,
            resolved_title: self.resolved_title@,
            resolved_url: self.resolved_url@,
        }
    }
}

/// What the service answers when asked for the articles.
#[derive(Clone, Debug, PartialEq, Eq)]
pub struct ArticleListResult {
    /// 1 where the service did what it was asked.
    pub status: i32,
    pub complete: i32,
    /// The articles with their identifiers, each identifier once.
    pub list: Vec<(String, Article)>,
}

/// The characters and numbers that an [`ArticleListResult`] holds.
pub struct ArticleListView {
    pub status: int,
    pub complete: int,
    pub list: Seq<(Seq<char>, ArticleView)>,
}

impl View for ArticleListResult {
    type V = ArticleListView;

    open spec fn view(&self) -> ArticleListView {
        ArticleListView {
            status: self.status as int,
            complete: self.complete as int,
            list: entries_of(self.list@),
        }
    }
}

/// A reply as the JSON document states it: the articles by identifier, in no
/// order.
pub struct Listing {
    pub status: int,
    pub complete: int,
    pub articles: Map<Seq<char>, ArticleView>,
}

/// The string under a key of an object, where there is one.
pub open spec fn text_member(members: Members, key: Seq<char>) -> Option<Seq<char>> {
    if members.contains_key(key) {
        match members[key] {
            Json::Text(text) => Some(text),
            _ => None,
        }
    } else {
        None
    }
}

/// The integer under a key of an object, where there is one that an `i32`
/// holds.
pub open spec fn number_member(members: Members, key: Seq<char>) -> Option<int> {
    if members.contains_key(key) {
        match members[key] {
            Json::Int(n) => if i32::MIN <= n <= i32::MAX {
                Some(n)
            } else {
                None
            },
            _ => None,
        }
    } else {
        None
    }
}

/// The article that a JSON value states: an object with the strings
/// `item_id`, `resolved_title` and `resolved_url`, and whatever else.
pub open spec fn article_of(json: Json) -> Option<ArticleView> {
    match json {
        Json::Object(members) => {
            if text_member(members, "item_id"@) is Some
                && text_member(members, "resolved_title"@) is Some
                && text_member(members, "resolved_url"@) is Some {
                Some(
                    ArticleView {
                        item_id: text_member(members, "item_id"@)->0,
                        resolved_title: text_member(members, "resolved_title"@)->0,
                        resolved_url: text_member(members, "resolved_url"@)->0,
                    },
                )
            } else {
                None
            }
        },
        _ => None,
    }
}

/// Whether every member of an object states an article.
pub open spec fn all_articles(members: Members) -> bool {
    forall|key: Seq<char>| #[trigger] members.contains_key(key) ==> article_of(members[key]) is Some
}

/// The articles that a JSON value states: an object whose every member
/// states one.
pub open spec fn articles_of(json: Json) -> Option<Map<Seq<char>, ArticleView>> {
    match json {
        Json::Object(members) => {
            if all_articles(members) {
                Some(
                    Map::new(
                        |key: Seq<char>| members.contains_key(key),
                        |key: Seq<char>| article_of(members[key])->0,
                    ),
                )
            } else {
                None
            }
        },
        _ => None,
    }
}

/// The reply that a JSON document states: an object with the integers
/// `status` and `complete`, the articles under `list`, and whatever else.
pub open spec fn listing_of(document: Json) -> Option<Listing> {
    match document {
        Json::Object(members) => {
            if number_member(members, "status"@) is Some
                && number_member(members, "complete"@) is Some
                && members.contains_key("list"@)
                && articles_of(members["list"@]) is Some {
                Some(
                    Listing {
                        status: number_member(members, "status"@)->0,
                        complete: number_member(members, "complete"@)->0,
                        articles: articles_of(members["list"@])->0,
                    },
                )
            } else {
                None
            }
        },
        _ => None,
    }
}

/// The reply that the text of a JSON document states, where the text is
/// JSON and states one.
pub open spec fn stated_reply(text: Seq<char>) -> Option<Listing> {
    match document_of(text) {
        Some(document) => listing_of(document),
        None => None,
    }
}

/// Whether a reply is the one that a listing states, with its articles in
/// some order.
pub open spec fn states(reply: ArticleListView, listing: Listing) -> bool {
    &&& reply.status == listing.status
    &&& reply.complete == listing.complete
    &&& holds_each_once(reply.list, listing.articles)
}

/// Reads the string under a key of an object.
fn text_field(object: &serde_json::Map<String, serde_json::Value>, key: &str) -> (text: Option<String>)
    ensures
        match text_member(members_of(*object), key@) {
            Some(chars) => text matches Some(t) && t@ == chars,
            None => text is None,
        },
{
    let text = member(object, key)?.as_str()?;
    Some(text.to_owned())
}

/// Reads the integer under a key of an object.
fn number_field(object: &serde_json::Map<String, serde_json::Value>, key: &str) -> (number: Option<i32>)
    ensures
        match number_member(members_of(*object), key@) {
            Some(n) => number == Some(n as i32),
            None => number is None,
        },
{
    let n = member(object, key)?.as_i64()?;
    if i32::MIN as i64 <= n && n <= i32::MAX as i64 {
        Some(n as i32)
    } else {
        None
    }
}

impl Article {
    /// Reads an article from a JSON value.
    pub fn from_value(value: &serde_json::Value) -> (article: Option<Article>)
        ensures
            match article_of(json_of(*value)) {
                Some(stated) => article matches Some(a) && a@ == stated,
                None => article is None,
            },
    {
        let object = value.as_object()?;
        let item_id = text_field(object, "item_id")?;
        let resolved_title = text_field(object, "resolved_title")?;
        let resolved_url = text_field(object, "resolved_url")?;
        Some(Article { item_id, resolved_title, resolved_url })
    }
}

/// What some articles with their identifiers hold.
pub open spec fn entries_of(list: Seq<(String, Article)>) -> Seq<(Seq<char>, ArticleView)> {
    Seq::new(list.len(), |i: int| (list[i].0@, list[i].1@))
}

/// Reads the articles from a JSON value, in the order in which the object
/// hands them out.
fn articles_from(value: &serde_json::Value) -> (list: Option<Vec<(String, Article)>>)
    ensures
        match articles_of(json_of(*value)) {
            Some(articles) => list matches Some(l) && holds_each_once(entries_of(l@), articles),
            None => list is None,
        },
{
    let object = value.as_object()?;
    let ghost members = members_of(*object);
    let pairs = entries(object);
    let ghost stated = pairs_of(pairs@);
    let mut list: Vec<(String, Article)> = Vec::new();
    let mut i: usize = 0;
    while i < pairs.len()
        invariant
            i <= pairs@.len(),
            list@.len() == i,
            json_of(*value) == Json::Object(members),
            stated == pairs_of(pairs@),
            holds_each_once(stated, members),
            forall|k: int| 0 <= k < i ==> (#[trigger] entries_of(list@)[k]).0 == stated[k].0
                && article_of(stated[k].1) == Some(entries_of(list@)[k].1),
        decreases pairs@.len() - i,
    {
        let ghost before = entries_of(list@);
        let key: &String = pairs[i].0;
        let member: &serde_json::Value = pairs[i].1;
        match Article::from_value(member) {
            Some(article) => {
                list.push((key.clone(), article));
            },
            None => {
                proof {
                    let k = stated[i as int].0;
                    assert(members.contains_pair(k, stated[i as int].1));
                    assert(members.contains_key(k) && article_of(members[k]) is None);
                }
                return None;
            },
        }
        proof {
            assert(entries_of(list@)[i as int].0 == stated[i as int].0);
            assert forall|k: int| 0 <= k < i + 1 implies (#[trigger] entries_of(list@)[k]).0
                == stated[k].0 && article_of(stated[k].1) == Some(entries_of(list@)[k].1) by {
                if k < i {
                    assert(entries_of(list@)[k] == before[k]);
                }
            }
        }
        i = i + 1;
    }
    proof {
        let shown = entries_of(list@);
        assert forall|key: Seq<char>| #[trigger] members.contains_key(key) implies article_of(
            members[key],
        ) is Some && exists|k: int| 0 <= k < shown.len() && (#[trigger] shown[k]).0 == key by {
            let k = choose|k: int| 0 <= k < stated.len() && (#[trigger] stated[k]).0 == key;
            assert(members.contains_pair(stated[k].0, stated[k].1));
            assert(shown[k].0 == key);
        }
        let articles = articles_of(json_of(*value))->0;
        assert forall|k: int| 0 <= k < shown.len() implies articles.contains_pair(
            (#[trigger] shown[k]).0,
            shown[k].1,
        ) by {
            assert(members.contains_pair(stated[k].0, stated[k].1));
        }
        assert forall|k: int, l: int|
            #![trigger shown[k], shown[l]]
            0 <= k < l < shown.len() implies shown[k].0 != shown[l].0 by {
            assert(shown[k].0 == stated[k].0);
            assert(shown[l].0 == stated[l].0);
        }
    }
    Some(list)
}

impl ArticleListResult {
    /// Whether no identifier occurs twice.
    pub open spec fn wf(&self) -> bool {
        forall|i: int, j: int|
            #![trigger self@.list[i], self@.list[j]]
            0 <= i < j < self@.list.len() ==> self@.list[i].0 != self@.list[j].0
    }

    /// Reads the reply from a JSON document. Members that the reply does not
    /// name are passed over.
    pub fn from_document(
        document: &serde_json::Value,
    ) -> (result: Result<ArticleListResult, ListError>)
        ensures
            match listing_of(json_of(*document)) {
                Some(listing) => result matches Ok(r) && states(r@, listing) && r.wf(),
                None => result == Err::<ArticleListResult, ListError>(ListError::Parse),
            },
    {
        let object = document.as_object().ok_or(ListError::Parse)?;
        let status = number_field(object, "status").ok_or(ListError::Parse)?;
        let complete = number_field(object, "complete").ok_or(ListError::Parse)?;
        let stated = member(object, "list").ok_or(ListError::Parse)?;
        match articles_from(stated) {
            Some(list) => Ok(ArticleListResult { status, complete, list }),
            None => Err(ListError::Parse),
        }
    }

    /// Reads the reply from the text of a JSON document.
    pub fn parse(text: &str) -> (result: Result<ArticleListResult, ListError>)
        ensures
            match stated_reply(text@) {
                Some(listing) => result matches Ok(r) && states(r@, listing) && r.wf(),
                None => result == Err::<ArticleListResult, ListError>(ListError::Parse),
            },
    {
        match parse(text) {
            Ok(document) => ArticleListResult::from_document(&document),
            Err(_) => Err(ListError::Parse),
        }
    }
}

} // verus!
