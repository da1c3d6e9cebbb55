//! The commands that the bot announces to the platform at startup.

use vstd::prelude::*;
use serenity::builder::{CreateApplicationCommand, CreateApplicationCommands};

verus! {

/// serenity's builder for one command: a table from field names to JSON
/// values.
#[verifier::external_type_specification]
#[verifier::external_body]
pub struct ExCreateApplicationCommand(CreateApplicationCommand);

/// serenity's builder for the list of commands to register.
#[verifier::external_type_specification]
#[verifier::external_body]
pub struct ExCreateApplicationCommands(CreateApplicationCommands);

/// The text fields of a command under construction: each key of the
/// builder's table that holds a JSON string, with that string.
pub uninterp spec fn text_fields(command: CreateApplicationCommand) -> Map<Seq<char>, Seq<char>>;

/// The text fields of each command in the list, in the order in which the
/// commands were added.
pub uninterp spec fn listed(commands: CreateApplicationCommands) -> Seq<Map<Seq<char>, Seq<char>>>;

/// A command as it is announced: its name and what it is for.
#[derive(Clone, Copy, Debug, PartialEq, Eq)]
pub struct CommandDescriptor {
    pub name: &'static str,
    pub description: &'static str,
}

impl View for CommandDescriptor {
    type V = (Seq<char>, Seq<char>);

    open spec fn view(&self) -> (Seq<char>, Seq<char>) {
        (self.name@, self.description@)
    }
}

/// The announced commands, by name and description, in the order of
/// registration.
pub open spec fn command_table() -> Seq<(Seq<char>, Seq<char>)> {
    seq![
        ("help"@, "Information on how to use the bot"@),
        ("ping"@, "A ping command"@),
        ("shutdown"@, "Shut down the bot"@),
    ]
}

/// The text fields that registering `descriptor` leaves in the builder.
pub open spec fn registration(descriptor: (Seq<char>, Seq<char>)) -> Map<Seq<char>, Seq<char>> {
    Map::empty().insert("name"@, descriptor.0).insert("description"@, descriptor.1)
}

/// The announced commands.
pub fn command_descriptors() -> (table: Vec<CommandDescriptor>)
    ensures
        table.deep_view() == command_table(),
{
    let mut table: Vec<CommandDescriptor> = Vec::new();
    table.push(CommandDescriptor { name: "help", description: "Information on how to use the bot" });
    table.push(CommandDescriptor { name: "ping", description: "A ping command" });
    table.push(CommandDescriptor { name: "shutdown", description: "Shut down the bot" });
    assert(table.deep_view() =~= command_table());
    table
}

impl DeepView for CommandDescriptor {
    type V = (Seq<char>, Seq<char>);

    open spec fn deep_view(&self) -> (Seq<char>, Seq<char>) {
        self@
    }
}

/// Calls `CreateApplicationCommand::name`, which stores the given text
/// under the key `name` and leaves every other field alone.
#[verifier::external_body]
fn set_name(command: &mut CreateApplicationCommand, name: &str)
    ensures
        text_fields(*final(command)) == text_fields(*old(command)).insert("name"@, name@),
{
    command.name(name);
}

/// Calls `CreateApplicationCommand::description`, which stores the given
/// text under the key `description` and leaves every other field alone.
#[verifier::external_body]
fn set_description(command: &mut CreateApplicationCommand, description: &str)
    ensures
        text_fields(*final(command)) == text_fields(*old(command)).insert(
            "description"@,
            description@,
        ),
{
    command.description(description);
}

/// Gives a command under construction its name and its description.
pub fn describe_command(command: &mut CreateApplicationCommand, name: &str, description: &str)
    ensures
        text_fields(*final(command)) == text_fields(*old(command)).insert("name"@, name@).insert(
            "description"@,
            description@,
        ),
{
    set_name(command, name);
    set_description(command, description);
}

/// Calls `CreateApplicationCommands::create_application_command`, which
/// starts from a command without any field, lets the closure fill it, and
/// puts the result at the end of the list. The closure is
/// `describe_command`, so the new entry holds the name and the description
/// and no other text.
#[verifier::external_body]
fn create_application_command(
    commands: &mut CreateApplicationCommands,
    name: &str,
    description: &str,
)
    ensures
        listed(*final(commands)) == listed(*old(commands)).push(
            registration((name@, description@)),
        ),
{
    commands.create_application_command(
        |command| {
            describe_command(command, name, description);
            command
        },
    );
}

/// Adds every announced command to `commands`, after what it holds
/// already, and hands the builder back.
pub fn create_commands(commands: &mut CreateApplicationCommands) -> (out: &mut CreateApplicationCommands)
    ensures
        listed(*out) == listed(*old(commands)) + command_table().map_values(
            |d: (Seq<char>, Seq<char>)| registration(d),
        ),
        *final(commands) == *final(out),
{
    let table = command_descriptors();
    let ghost before = listed(*commands);
    let mut i: usize = 0;
    while i < table.len()
        invariant
            i <= table.len(),
            table.deep_view() == command_table(),
            listed(*commands) == before + command_table().subrange(0, i as int).map_values(
                |d: (Seq<char>, Seq<char>)| registration(d),
            ),
        decreases table.len() - i,
    {
        let descriptor = table[i];
        create_application_command(commands, descriptor.name, descriptor.description);
        i += 1;
    }
    commands
}

} // verus!
