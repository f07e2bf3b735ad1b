//! The command-line surface of the subcommand, as a table of plain values.
//! The values that `--state` and `--sort` admit are the names of the options
//! that they stand for, and their defaults are the names of the default
//! options.

use vstd::prelude::*;
use crate::options::{sort_name_round_trip, state_name_round_trip, Sort, State};

verus! {

/// The name of the subcommand.
pub const NAME: &'static str = "list";

/// A flag of the subcommand.
#[derive(Clone, Debug, PartialEq, Eq)]
pub struct Flag {
    pub name: &'static str,
    pub long: &'static str,
    pub short: Option<&'static str>,
    pub takes_value: bool,
    /// The values that the flag admits; none where it admits any value.
    pub possible_values: Vec<&'static str>,
    pub default_value: Option<&'static str>,
    pub help: &'static str,
}

/// The characters that a [`Flag`] holds.
pub struct FlagView {
    pub name: Seq<char>,
    pub long: Seq<char>,
    pub short: Option<Seq<char>>,
    pub takes_value: bool,
    pub possible_values: Seq<Seq<char>>,
    pub default_value: Option<Seq<char>>,
    pub help: Seq<char>,
}

impl View for Flag {
    type V = FlagView;

    open spec fn view(&self) -> FlagView {
        FlagView {
            name: self.name@,
            long: self.long@,
            short: match self.short {
                Some(short) => Some(short@),
                None => None,
            },
            takes_value: self.takes_value,
            possible_values: Seq::new(self.possible_values@.len(), |i: int| self.possible_values@[i]@),
            default_value: match self.default_value {
                Some(value) => Some(value@),
                None => None,
            },
            help: self.help@,
        }
    }
}

/// The subcommand: its name, what it is about and its flags.
#[derive(Clone, Debug, PartialEq, Eq)]
pub struct SubCommand {
    pub name: &'static str,
    pub about: &'static str,
    pub flags: Vec<Flag>,
}

/// The characters that a [`SubCommand`] holds.
pub struct SubCommandView {
    pub name: Seq<char>,
    pub about: Seq<char>,
    pub flags: Seq<FlagView>,
}

impl View for SubCommand {
    type V = SubCommandView;

    open spec fn view(&self) -> SubCommandView {
        SubCommandView {
            name: self.name@,
            about: self.about@,
            flags: Seq::new(self.flags@.len(), |i: int| self.flags@[i]@),
        }
    }
}

/// `--details`, `-d`: a switch.
pub open spec fn details_flag() -> FlagView {
    FlagView {
        name: "details"@,
        long: "details"@,
        short: Some("d"@),
        takes_value: false,
        possible_values: seq![],
        default_value: None,
        help: "Select details for articles"@,
    }
}

/// `--tag`, `-t`: any value.
pub open spec fn tag_flag() -> FlagView {
    FlagView {
        name: "tag"@,
        long: "tag"@,
        short: Some("t"@),
        takes_value: true,
        possible_values: seq![],
        default_value: None,
        help: "Select articles tagged with <tag> to list"@,
    }
}

/// `--state`, `-s`: the name of a state, `unread` where it is not given.
pub open spec fn state_flag() -> FlagView {
    FlagView {
        name: "state"@,
        long: "state"@,
        short: Some("s"@),
        takes_value: true,
        possible_values: seq![
            State::Unread.name_spec(),
            State::Archive.name_spec(),
            State::All.name_spec(),
        ],
        default_value: Some(State::Unread.name_spec()),
        help: "Select articles to list"@,
    }
}

/// `--sort`: the name of an order, `newest` where it is not given.
pub open spec fn sort_flag() -> FlagView {
    FlagView {
        name: "sort"@,
        long: "sort"@,
        short: None,
        takes_value: true,
        possible_values: seq![
            Sort::Newest.name_spec(),
            Sort::Oldest.name_spec(),
            Sort::Title.name_spec(),
            Sort::Site.name_spec(),
        ],
        default_value: Some(Sort::Newest.name_spec()),
        help: "Select sort order"@,
    }
}

/// The subcommand `list` with its four flags.
pub open spec fn sub_cli() -> SubCommandView {
    SubCommandView {
        name: NAME@,
        about: "List saved articles"@,
        flags: seq![details_flag(), tag_flag(), state_flag(), sort_flag()],
    }
}

/// Describes the subcommand.
pub fn build_sub_cli() -> (command: SubCommand)
    ensures
        command@ == sub_cli(),
{
    let details = Flag {
        name: "details",
        long: "details",
        short: Some("d"),
        takes_value: false,
        possible_values: Vec::new(),
        default_value: None,
        help: "Select details for articles",
    };
    let tag = Flag {
        name: "tag",
        long: "tag",
        short: Some("t"),
        takes_value: true,
        possible_values: Vec::new(),
        default_value: None,
        help: "Select articles tagged with <tag> to list",
    };
    let mut states: Vec<&'static str> = Vec::new();
    states.push(State::Unread.name());
    states.push(State::Archive.name());
    states.push(State::All.name());
    let state = Flag {
        name: "state",
        long: "state",
        short: Some("s"),
        takes_value: true,
        possible_values: states,
        default_value: Some(State::Unread.name()),
        help: "Select articles to list",
    };
    let mut sorts: Vec<&'static str> = Vec::new();
    sorts.push(Sort::Newest.name());
    sorts.push(Sort::Oldest.name());
    sorts.push(Sort::Title.name());
    sorts.push(Sort::Site.name());
    let sort = Flag {
        name: "sort",
        long: "sort",
        short: None,
        takes_value: true,
        possible_values: sorts,
        default_value: Some(Sort::Newest.name()),
        help: "Select sort order",
    };
    assert(details@.possible_values =~= details_flag().possible_values);
    assert(tag@.possible_values =~= tag_flag().possible_values);
    assert(state@.possible_values =~= state_flag().possible_values);
    assert(sort@.possible_values =~= sort_flag().possible_values);
    let mut flags: Vec<Flag> = Vec::new();
    flags.push(details);
    flags.push(tag);
    flags.push(state);
    flags.push(sort);
    let command = SubCommand { name: NAME, about: "List saved articles", flags };
    assert(command@.flags =~= sub_cli().flags);
    command
}

/// A value is admitted by `--state` exactly if it is the name of a state, and
/// it then stands for that state.
pub proof fn state_flag_admits_the_states(value: Seq<char>)
    ensures
        state_flag().possible_values.contains(value) <==> exists|state: State| #[trigger]
            state.name_spec() == value,
        state_flag().possible_values.contains(value) ==> State::of_name(value).name_spec() == value,
{
    let admitted = state_flag().possible_values;
    assert(admitted[0] == State::Unread.name_spec());
    assert(admitted[1] == State::Archive.name_spec());
    assert(admitted[2] == State::All.name_spec());
    state_name_round_trip(State::Unread);
    state_name_round_trip(State::Archive);
    state_name_round_trip(State::All);
    if exists|state: State| #[trigger] state.name_spec() == value {
        let state = choose|state: State| #[trigger] state.name_spec() == value;
        match state {
            State::Unread => assert(admitted[0] == value),
            State::Archive => assert(admitted[1] == value),
            State::All => assert(admitted[2] == value),
        }
    }
}

/// A value is admitted by `--sort` exactly if it is the name of an order, and
/// it then stands for that order.
pub proof fn sort_flag_admits_the_orders(value: Seq<char>)
    ensures
        sort_flag().possible_values.contains(value) <==> exists|sort: Sort| #[trigger]
            sort.name_spec() == value,
        sort_flag().possible_values.contains(value) ==> Sort::of_name(value).name_spec() == value,
{
    let admitted = sort_flag().possible_values;
    assert(admitted[0] == Sort::Newest.name_spec());
    assert(admitted[1] == Sort::Oldest.name_spec());
    assert(admitted[2] == Sort::Title.name_spec());
    assert(admitted[3] == Sort::Site.name_spec());
    sort_name_round_trip(Sort::Newest);
    sort_name_round_trip(Sort::Oldest);
    sort_name_round_trip(Sort::Title);
    sort_name_round_trip(Sort::Site);
    if exists|sort: Sort| #[trigger] sort.name_spec() == value {
        let sort = choose|sort: Sort| #[trigger] sort.name_spec() == value;
        match sort {
            Sort::Newest => assert(admitted[0] == value),
            Sort::Oldest => assert(admitted[1] == value),
            Sort::Title => assert(admitted[2] == value),
            Sort::Site => assert(admitted[3] == value),
        }
    }
}

/// A flag that is left out means what its default value means.
pub proof fn defaults_stand_for_the_default_options()
    ensures
        State::of_flag(state_flag().default_value) == State::of_flag(None),
        Sort::of_flag(sort_flag().default_value) == Sort::of_flag(None),
{
    state_name_round_trip(State::Unread);
    sort_name_round_trip(Sort::Newest);
}

} // verus!
