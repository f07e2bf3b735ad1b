//! What the user is shown of a reply: the reply as it came, or a report of
//! the articles in words.

use vstd::prelude::*;
use crate::error::ListError;
use crate::response::{
    stated_reply, states, Article, ArticleListResult, ArticleListView, ArticleView, Listing,
};
use crate::text::{decimal, decimal_text};

verus! {

/// How the reply is shown.
#[derive(Clone, Copy, Debug, PartialEq, Eq, Structural)]
pub enum OutputFormat {
    /// A report in words.
    Human,
    /// The reply as the service sent it.
    Json,
}

/// What is shown.
#[derive(Clone, Debug, PartialEq, Eq)]
pub enum Output {
    /// A JSON text for the structured output.
    Structured(String),
    /// Lines for the reader, first to last.
    Human(Vec<String>),
}

/// The characters that an [`Output`] holds.
pub enum OutputView {
    Structured(Seq<char>),
    Human(Seq<Seq<char>>),
}

/// The characters of each of some lines.
pub open spec fn texts(lines: Seq<String>) -> Seq<Seq<char>> {
    Seq::new(lines.len(), |i: int| lines[i]@)
}

impl View for Output {
    type V = OutputView;

    open spec fn view(&self) -> OutputView {
        match self {
            Output::Structured(text) => OutputView::Structured(text@),
            Output::Human(lines) => OutputView::Human(texts(lines@)),
        }
    }
}

/// The line that shows an article.
pub open spec fn article_line(article: ArticleView) -> Seq<char> {
    article.item_id + ": '"@ + article.resolved_title + "', "@ + article.resolved_url
}

/// The line that says how many articles came.
pub open spec fn received_line(count: nat) -> Seq<char> {
    "Received "@ + decimal_text(count) + " articles."@
}

/// The line that says that the service refused.
pub open spec fn failed_line() -> Seq<char> {
    "Receiving articles failed."@
}

/// The report of a reply. Where the status is 1: how many articles came, then
/// a line for each in the order of the reply. Otherwise only that the service
/// refused.
pub open spec fn report_lines(reply: ArticleListView) -> Seq<Seq<char>> {
    if reply.status == 1 {
        seq![received_line(reply.list.len())] + Seq::new(
            reply.list.len(),
            |i: int| article_line(reply.list[i].1),
        )
    } else {
        seq![failed_line()]
    }
}

/// Writes the line that shows an article.
fn line_of(article: &Article) -> (line: String)
    ensures
        line@ == article_line(article@),
{
    let mut line = article.item_id.clone();
    line.append(": '");
    line.append(article.resolved_title.as_str());
    line.append("', ");
    line.append(article.resolved_url.as_str());
    assert(line@ =~= article_line(article@));
    line
}

/// Writes the report of a reply.
pub fn report(reply: &ArticleListResult) -> (lines: Vec<String>)
    ensures
        texts(lines@) == report_lines(reply@),
{
    let mut lines: Vec<String> = Vec::new();
    if reply.status == 1 {
        let mut first = "Received ".to_owned();
        first.append(decimal(reply.list.len()).as_str());
        first.append(" articles.");
        assert(first@ =~= received_line(reply@.list.len()));
        lines.push(first);
        let mut i: usize = 0;
        while i < reply.list.len()
            invariant
                i <= reply.list@.len(),
                lines@.len() == i + 1,
                lines@[0]@ == received_line(reply@.list.len()),
                forall|k: int| 0 <= k < i ==> (#[trigger] lines@[k + 1])@ == article_line(reply@.list[k].1),
            decreases reply.list@.len() - i,
        {
            let line = line_of(&reply.list[i].1);
            lines.push(line);
            i = i + 1;
        }
        proof {
            let shown = texts(lines@);
            let wanted = report_lines(reply@);
            assert(shown.len() == wanted.len());
            assert forall|k: int| 0 <= k < wanted.len() implies shown[k] == wanted[k] by {
                if k > 0 {
                    assert(lines@[(k - 1) + 1]@ == article_line(reply@.list[k - 1].1));
                }
            }
            assert(shown =~= wanted);
        }
    } else {
        lines.push("Receiving articles failed.".to_owned());
        assert(texts(lines@) =~= report_lines(reply@));
    }
    lines
}

/// Whether some lines are the report of what a listing states, with its
/// articles in some order.
pub open spec fn is_report_of(lines: Seq<Seq<char>>, listing: Listing) -> bool {
    exists|reply: ArticleListView| #[trigger] states(reply, listing) && lines == report_lines(reply)
}

/// Whether a result is what a text is shown as in a format. In the JSON
/// format the text is shown as it is, whatever it holds. In the human format
/// the reply that it states is reported, and a text that states none is an
/// error.
pub open spec fn shows(result: Result<Output, ListError>, json: Seq<char>, format: OutputFormat) -> bool {
    match format {
        OutputFormat::Json => result matches Ok(shown) && shown@ == OutputView::Structured(json),
        OutputFormat::Human => match stated_reply(json) {
            Some(listing) => result matches Ok(shown) && shown@ matches OutputView::Human(lines)
                && is_report_of(lines, listing),
            None => result == Err::<Output, ListError>(ListError::Parse),
        },
    }
}

/// Reads a reply from its JSON text and writes its report. That the service
/// refused is reported and is no error.
pub fn output_human(json: &str) -> (result: Result<Vec<String>, ListError>)
    ensures
        match stated_reply(json@) {
            Some(listing) => result matches Ok(lines) && is_report_of(texts(lines@), listing),
            None => result == Err::<Vec<String>, ListError>(ListError::Parse),
        },
{
    let reply = ArticleListResult::parse(json)?;
    let lines = report(&reply);
    assert(states(reply@, stated_reply(json@)->0));
    Ok(lines)
}

/// Shows a reply in a format.
pub fn output(json: &str, format: OutputFormat) -> (result: Result<Output, ListError>)
    ensures
        shows(result, json@, format),
{
    match format {
        OutputFormat::Human => Ok(Output::Human(output_human(json)?)),
        OutputFormat::Json => Ok(Output::Structured(json.to_owned())),
    }
}

/// In the human format a reply whose status is not 1 is shown as the one
/// line that says so, and is no error.
pub proof fn refusal_is_shown_and_is_no_error(result: Result<Output, ListError>, json: Seq<char>)
    requires
        shows(result, json, OutputFormat::Human),
        stated_reply(json) matches Some(listing) && listing.status != 1,
    ensures
        result matches Ok(Output::Human(lines)) && texts(lines@) == seq![failed_line()],
{
}

/// Whether a line is that of one of some articles.
pub open spec fn shows_one_of(line: Seq<char>, articles: Map<Seq<char>, ArticleView>) -> bool {
    exists|key: Seq<char>| #[trigger] articles.contains_key(key) && line == article_line(articles[key])
}

/// In the human format a reply whose status is 1 is shown as the count of
/// its articles, then the lines of its articles: every article has its line,
/// and every line but the first is that of an article.
pub proof fn success_lists_every_article(result: Result<Output, ListError>, json: Seq<char>)
    requires
        shows(result, json, OutputFormat::Human),
        stated_reply(json) matches Some(listing) && listing.status == 1,
    ensures
        result matches Ok(Output::Human(lines)) && ({
            let shown = texts(lines@);
            let articles = stated_reply(json)->0.articles;
            &&& shown.len() >= 1
            &&& shown[0] == received_line((shown.len() - 1) as nat)
            &&& forall|key: Seq<char>| #[trigger]
                articles.contains_key(key) ==> shown.skip(1).contains(article_line(articles[key]))
            &&& forall|i: int| 1 <= i < shown.len() ==> shows_one_of(#[trigger] shown[i], articles)
        }),
{
    let shown = texts(result->Ok_0->Human_0@);
    let articles = stated_reply(json)->0.articles;
    let reply = choose|reply: ArticleListView| #[trigger]
        states(reply, stated_reply(json)->0) && shown == report_lines(reply);
    assert(shown.len() == reply.list.len() + 1);
    assert forall|key: Seq<char>| #[trigger] articles.contains_key(key) implies shown.skip(
        1,
    ).contains(article_line(articles[key])) by {
        let k = choose|k: int| 0 <= k < reply.list.len() && (#[trigger] reply.list[k]).0 == key;
        assert(articles.contains_pair(reply.list[k].0, reply.list[k].1));
        assert(shown.skip(1)[k] == article_line(articles[key]));
    }
    assert forall|i: int| 1 <= i < shown.len() implies shows_one_of(#[trigger] shown[i], articles) by {
        let entry = reply.list[i - 1];
        assert(articles.contains_pair(entry.0, entry.1));
        assert(articles.contains_key(entry.0) && shown[i] == article_line(articles[entry.0]));
    }
}

} // verus!
