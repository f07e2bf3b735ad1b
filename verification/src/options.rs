//! The enumerated options of a request, and how flag values are read as
//! them: a value that names no option stands for the default, so reading
//! never fails.

use vstd::prelude::*;
use vstd::std_specs::convert::FromSpecImpl;
use crate::text::same_text;

verus! {

/// Which of the saved articles to list.
#[derive(Clone, Copy, Debug, PartialEq, Eq, Structural)]
pub enum State {
    Unread,
    Archive,
    All,
}

/// In which order the service lists the articles.
#[derive(Clone, Copy, Debug, PartialEq, Eq, Structural)]
pub enum Sort {
    Newest,
    Oldest,
    Title,
    Site,
}

/// How much the service tells of each article.
#[derive(Clone, Copy, Debug, PartialEq, Eq, Structural)]
pub enum DetailType {
    Simple,
    Complete,
}

impl State {
    /// The name of the state in flag values and on the wire.
    pub open spec fn name_spec(self) -> Seq<char> {
        match self {
            State::Unread => "unread"@,
            State::Archive => "archive"@,
            State::All => "all"@,
        }
    }

    /// The state that a flag value stands for: `Unread` unless the value is
    /// the name of another state.
    pub open spec fn of_name(name: Seq<char>) -> State {
        if name == "archive"@ {
            State::Archive
        } else if name == "all"@ {
            State::All
        } else {
            State::Unread
        }
    }

    /// The state that a flag stands for, given or not.
    pub open spec fn of_flag(flag: Option<Seq<char>>) -> State {
        match flag {
            Some(name) => State::of_name(name),
            None => State::Unread,
        }
    }

    /// The name of the state in flag values and on the wire.
    pub fn name(self) -> (name: &'static str)
        ensures
            name@ == self.name_spec(),
    {
        match self {
            State::Unread => "unread",
            State::Archive => "archive",
            State::All => "all",
        }
    }

    /// Reads a flag, given or not.
    pub fn resolve(flag: Option<&str>) -> (state: State)
        ensures
            state == State::of_flag(
                match flag {
                    Some(name) => Some(name@),
                    None => None,
                },
            ),
    {
        match flag {
            Some(name) => State::from(name),
            None => State::Unread,
        }
    }
}

impl<'a> From<&'a str> for State {
    fn from(s: &'a str) -> (state: State) {
        if same_text(s, "archive") {
            State::Archive
        } else if same_text(s, "all") {
            State::All
        } else {
            State::Unread
        }
    }
}

impl<'a> FromSpecImpl<&'a str> for State {
    open spec fn obeys_from_spec() -> bool {
        true
    }

    open spec fn from_spec(s: &'a str) -> State {
        State::of_name(s@)
    }
}

impl Sort {
    /// The name of the order in flag values and on the wire.
    pub open spec fn name_spec(self) -> Seq<char> {
        match self {
            Sort::Newest => "newest"@,
            Sort::Oldest => "oldest"@,
            Sort::Title => "title"@,
            Sort::Site => "site"@,
        }
    }

    /// The order that a flag value stands for: `Newest` unless the value is
    /// the name of another order.
    pub open spec fn of_name(name: Seq<char>) -> Sort {
        if name == "oldest"@ {
            Sort::Oldest
        } else if name == "title"@ {
            Sort::Title
        } else if name == "site"@ {
            Sort::Site
        } else {
            Sort::Newest
        }
    }

    /// The order that a flag stands for, given or not.
    pub open spec fn of_flag(flag: Option<Seq<char>>) -> Sort {
        match flag {
            Some(name) => Sort::of_name(name),
            None => Sort::Newest,
        }
    }

    /// The name of the order in flag values and on the wire.
    pub fn name(self) -> (name: &'static str)
        ensures
            name@ == self.name_spec(),
    {
        match self {
            Sort::Newest => "newest",
            Sort::Oldest => "oldest",
            Sort::Title => "title",
            Sort::Site => "site",
        }
    }

    /// Reads a flag, given or not.
    pub fn resolve(flag: Option<&str>) -> (sort: Sort)
        ensures
            sort == Sort::of_flag(
                match flag {
                    Some(name) => Some(name@),
                    None => None,
                },
            ),
    {
        match flag {
            Some(name) => Sort::from(name),
            None => Sort::Newest,
        }
    }
}

impl<'a> From<&'a str> for Sort {
    fn from(s: &'a str) -> (sort: Sort) {
        if same_text(s, "oldest") {
            Sort::Oldest
        } else if same_text(s, "title") {
            Sort::Title
        } else if same_text(s, "site") {
            Sort::Site
        } else {
            Sort::Newest
        }
    }
}

impl<'a> FromSpecImpl<&'a str> for Sort {
    open spec fn obeys_from_spec() -> bool {
        true
    }

    open spec fn from_spec(s: &'a str) -> Sort {
        Sort::of_name(s@)
    }
}

impl DetailType {
    /// The name of the level on the wire.
    pub open spec fn name_spec(self) -> Seq<char> {
        match self {
            DetailType::Simple => "simple"@,
            DetailType::Complete => "complete"@,
        }
    }

    /// The level that the details flag asks for.
    pub open spec fn of_flag(details: bool) -> DetailType {
        if details {
            DetailType::Complete
        } else {
            DetailType::Simple
        }
    }

    /// The name of the level on the wire.
    pub fn name(self) -> (name: &'static str)
        ensures
            name@ == self.name_spec(),
    {
        match self {
            DetailType::Simple => "simple",
            DetailType::Complete => "complete",
        }
    }
}

impl From<bool> for DetailType {
    fn from(b: bool) -> (detail_type: DetailType) {
        if b {
            DetailType::Complete
        } else {
            DetailType::Simple
        }
    }
}

impl FromSpecImpl<bool> for DetailType {
    open spec fn obeys_from_spec() -> bool {
        true
    }

    open spec fn from_spec(b: bool) -> DetailType {
        DetailType::of_flag(b)
    }
}

/// The names of the states differ from one another.
proof fn state_names_differ()
    ensures
        "unread"@ != "archive"@,
        "unread"@ != "all"@,
        "archive"@ != "all"@,
{
    reveal_strlit("unread");
    reveal_strlit("archive");
    reveal_strlit("all");
    assert("unread"@.len() == 6);
    assert("archive"@.len() == 7);
    assert("all"@.len() == 3);
}

/// The names of the orders differ from one another.
proof fn sort_names_differ()
    ensures
        "newest"@ != "oldest"@,
        "newest"@ != "title"@,
        "newest"@ != "site"@,
        "oldest"@ != "title"@,
        "oldest"@ != "site"@,
        "title"@ != "site"@,
{
    reveal_strlit("newest");
    reveal_strlit("oldest");
    reveal_strlit("title");
    reveal_strlit("site");
    assert("newest"@.len() == 6 && "newest"@[0] == 'n');
    assert("oldest"@.len() == 6 && "oldest"@[0] == 'o');
    assert("title"@.len() == 5);
    assert("site"@.len() == 4);
}

/// Every flag value stands for exactly one state: a name of a state for that
/// state, and anything else, or no value at all, for `Unread`.
pub proof fn state_of_every_flag(flag: Option<Seq<char>>)
    ensures
        flag == Some("archive"@) <==> State::of_flag(flag) == State::Archive,
        flag == Some("all"@) <==> State::of_flag(flag) == State::All,
        flag != Some("archive"@) && flag != Some("all"@) <==> State::of_flag(flag) == State::Unread,
{
    state_names_differ();
}

/// Every flag value stands for exactly one order: a name of an order for that
/// order, and anything else, or no value at all, for `Newest`.
pub proof fn sort_of_every_flag(flag: Option<Seq<char>>)
    ensures
        flag == Some("oldest"@) <==> Sort::of_flag(flag) == Sort::Oldest,
        flag == Some("title"@) <==> Sort::of_flag(flag) == Sort::Title,
        flag == Some("site"@) <==> Sort::of_flag(flag) == Sort::Site,
        flag != Some("oldest"@) && flag != Some("title"@) && flag != Some("site"@)
            <==> Sort::of_flag(flag) == Sort::Newest,
{
    sort_names_differ();
}

/// Reading the name of a state gives the state back.
pub proof fn state_name_round_trip(state: State)
    ensures
        State::of_name(state.name_spec()) == state,
{
    state_names_differ();
}

/// Reading the name of an order gives the order back.
pub proof fn sort_name_round_trip(sort: Sort)
    ensures
        Sort::of_name(sort.name_spec()) == sort,
{
    sort_names_differ();
}

} // verus!
