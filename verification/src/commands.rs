//! The table of the bot's commands: what each is called, where it is listed
//! and who may run it. The handlers themselves live with the framework.

use vstd::prelude::*;
use vstd::string::*;

pub mod accela;
pub mod owner;
pub mod utility;
pub mod verification;

verus! {

/// What is declared of one command.
#[derive(Debug)]
pub struct Command {
    /// The name under which the command is called.
    pub name: String,
    /// Other names for it, in the order in which they were declared.
    pub aliases: Vec<String>,
    /// The heading under which the help lists it.
    pub category: Option<String>,
    /// The check that a user has to pass to run it.
    pub check: Option<String>,
    pub prefix_command: bool,
    pub slash_command: bool,
    pub hide_in_help: bool,
    pub guild_only: bool,
    pub owners_only: bool,
}

/// A [`Command`] as mathematical values.
pub struct CommandView {
    pub name: Seq<char>,
    pub aliases: Seq<Seq<char>>,
    pub category: Option<Seq<char>>,
    pub check: Option<Seq<char>>,
    pub prefix_command: bool,
    pub slash_command: bool,
    pub hide_in_help: bool,
    pub guild_only: bool,
    pub owners_only: bool,
}

/// The view of an optional text.
pub open spec fn text_view(text: Option<String>) -> Option<Seq<char>> {
    match text {
        Some(text) => Some(text@),
        None => None,
    }
}

impl View for Command {
    type V = CommandView;

    open spec fn view(&self) -> CommandView {
        CommandView {
            name: self.name@,
            aliases: self.aliases@.map_values(|a: String| a@),
            category: text_view(self.category),
            check: text_view(self.check),
            prefix_command: self.prefix_command,
            slash_command: self.slash_command,
            hide_in_help: self.hide_in_help,
            guild_only: self.guild_only,
            owners_only: self.owners_only,
        }
    }
}

/// The commands of a table as mathematical values.
pub open spec fn table(commands: Seq<Command>) -> Seq<CommandView> {
    commands.map_values(|c: Command| c@)
}

/// A command of this name with nothing else declared.
pub open spec fn command(name: Seq<char>) -> CommandView {
    CommandView {
        name,
        aliases: Seq::empty(),
        category: None,
        check: None,
        prefix_command: false,
        slash_command: false,
        hide_in_help: false,
        guild_only: false,
        owners_only: false,
    }
}

impl CommandView {
    pub open spec fn alias(self, alias: Seq<char>) -> CommandView {
        CommandView { aliases: self.aliases.push(alias), ..self }
    }

    pub open spec fn category(self, category: Seq<char>) -> CommandView {
        CommandView { category: Some(category), ..self }
    }

    pub open spec fn check(self, check: Seq<char>) -> CommandView {
        CommandView { check: Some(check), ..self }
    }

    pub open spec fn prefix(self) -> CommandView {
        CommandView { prefix_command: true, ..self }
    }

    pub open spec fn slash(self) -> CommandView {
        CommandView { slash_command: true, ..self }
    }

    pub open spec fn hidden(self) -> CommandView {
        CommandView { hide_in_help: true, ..self }
    }

    pub open spec fn guild_only(self) -> CommandView {
        CommandView { guild_only: true, ..self }
    }

    pub open spec fn owners_only(self) -> CommandView {
        CommandView { owners_only: true, ..self }
    }
}

impl Command {
    /// A command of this name with nothing else declared.
    pub fn new(name: &str) -> (r: Command)
        ensures
            r@ == command(name@),
    {
        let r = Command {
            name: String::from_str(name),
            aliases: Vec::new(),
            category: None,
            check: None,
            prefix_command: false,
            slash_command: false,
            hide_in_help: false,
            guild_only: false,
            owners_only: false,
        };
        assert(r@.aliases =~= Seq::<Seq<char>>::empty());
        r
    }

    /// The command with one more name.
    pub fn alias(self, alias: &str) -> (r: Command)
        ensures
            r@ == self@.alias(alias@),
    {
        let mut r = self;
        r.aliases.push(String::from_str(alias));
        assert(r@.aliases =~= self@.aliases.push(alias@));
        r
    }

    /// The command under a heading of the help.
    pub fn category(self, category: &str) -> (r: Command)
        ensures
            r@ == self@.category(category@),
    {
        let mut r = self;
        r.category = Some(String::from_str(category));
        r
    }

    /// The command behind a check.
    pub fn check(self, check: &str) -> (r: Command)
        ensures
            r@ == self@.check(check@),
    {
        let mut r = self;
        r.check = Some(String::from_str(check));
        r
    }

    /// The command, to be called with the prefix.
    pub fn prefix(self) -> (r: Command)
        ensures
            r@ == self@.prefix(),
    {
        let mut r = self;
        r.prefix_command = true;
        r
    }

    /// The command, to be called with a slash.
    pub fn slash(self) -> (r: Command)
        ensures
            r@ == self@.slash(),
    {
        let mut r = self;
        r.slash_command = true;
        r
    }

    /// The command, left out of the help.
    pub fn hidden(self) -> (r: Command)
        ensures
            r@ == self@.hidden(),
    {
        let mut r = self;
        r.hide_in_help = true;
        r
    }

    /// The command, for use in a guild only.
    pub fn guild_only(self) -> (r: Command)
        ensures
            r@ == self@.guild_only(),
    {
        let mut r = self;
        r.guild_only = true;
        r
    }

    /// The command, for the bot's owners only.
    pub fn owners_only(self) -> (r: Command)
        ensures
            r@ == self@.owners_only(),
    {
        let mut r = self;
        r.owners_only = true;
        r
    }
}

} // verus!
