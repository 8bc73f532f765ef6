//! The command table: which commands the controller understands, what each of
//! them is called on the wire, and under which route it is offered.

use vstd::prelude::*;
use vstd::utf8::is_ascii_chars;
use crate::text::append_bytes;
use crate::text::ascii_bytes;
use crate::text::lemma_ascii_encoding;
use crate::text::text_equal;

verus! {

/// The two command families of the firmware. They offer the same operations
/// and differ in the prefix of the wire text and of the route.
#[derive(Clone, Copy, Debug, PartialEq, Eq, Hash, Structural)]
pub enum Family {
    Managed,
    Raw,
}

/// What a command asks the controller to do.
#[derive(Clone, Copy, Debug, PartialEq, Eq, Hash, Structural)]
pub enum Operation {
    On,
    Off,
    IntensityPlus,
    IntensityMinus,
    White,
    Red,
    Green,
    Blue,
}

/// One entry of the command table.
#[derive(Clone, Copy, Debug, PartialEq, Eq, Hash, Structural)]
pub struct Command {
    pub family: Family,
    pub operation: Operation,
}

/// What follows a command's text on the wire.
#[derive(Clone, Copy, Debug, PartialEq, Eq, Hash, Structural)]
pub enum Terminator {
    /// Nothing: the text alone is the frame.
    Bare,
    /// Carriage return and line feed.
    CrLf,
}

impl Family {
    /// The prefix of the family's wire texts.
    pub open spec fn spec_wire_prefix(self) -> Seq<char> {
        match self {
            Family::Managed => "LED_"@,
            Family::Raw => "ULED_"@,
        }
    }

    /// The prefix of the family's routes.
    pub open spec fn spec_route_prefix(self) -> Seq<char> {
        match self {
            Family::Managed => ""@,
            Family::Raw => "/raw"@,
        }
    }
}

impl Operation {
    /// The operation's name on the wire, without the family's prefix.
    pub open spec fn spec_wire_name(self) -> Seq<char> {
        match self {
            Operation::On => "ON"@,
            Operation::Off => "OFF"@,
            Operation::IntensityPlus => "IP"@,
            Operation::IntensityMinus => "IM"@,
            Operation::White => "WHITE"@,
            Operation::Red => "RED"@,
            Operation::Green => "GREEN"@,
            Operation::Blue => "BLUE"@,
        }
    }

    /// The operation's route, without the family's prefix.
    pub open spec fn spec_route_name(self) -> Seq<char> {
        match self {
            Operation::On => "/on"@,
            Operation::Off => "/off"@,
            Operation::IntensityPlus => "/intensity_plus"@,
            Operation::IntensityMinus => "/intensity_minus"@,
            Operation::White => "/white"@,
            Operation::Red => "/red"@,
            Operation::Green => "/green"@,
            Operation::Blue => "/blue"@,
        }
    }
}

impl Terminator {
    /// The terminator's characters.
    pub open spec fn spec_text(self) -> Seq<char> {
        match self {
            Terminator::Bare => ""@,
            Terminator::CrLf => "\r\n"@,
        }
    }

    /// The terminator's characters.
    pub fn text(&self) -> (text: &'static str)
        ensures
            text@ == self.spec_text(),
    {
        match self {
            Terminator::Bare => "",
            Terminator::CrLf => "\r\n",
        }
    }
}

impl Command {
    /// The text that stands for the command on the wire.
    pub open spec fn spec_wire_text(self) -> Seq<char> {
        self.family.spec_wire_prefix() + self.operation.spec_wire_name()
    }

    /// The route under which the command is offered.
    pub open spec fn spec_route(self) -> Seq<char> {
        self.family.spec_route_prefix() + self.operation.spec_route_name()
    }

    /// The bytes that go onto the wire for the command: its text, then the
    /// terminator, one byte per character.
    pub open spec fn spec_frame(self, terminator: Terminator) -> Seq<u8> {
        ascii_bytes(self.spec_wire_text() + terminator.spec_text())
    }

    /// The command table, the managed family first, each family in the order
    /// on, off, intensity up, intensity down, white, red, green, blue.
    pub open spec fn spec_table() -> Seq<Command> {
        seq![
            Command { family: Family::Managed, operation: Operation::On },
            Command { family: Family::Managed, operation: Operation::Off },
            Command { family: Family::Managed, operation: Operation::IntensityPlus },
            Command { family: Family::Managed, operation: Operation::IntensityMinus },
            Command { family: Family::Managed, operation: Operation::White },
            Command { family: Family::Managed, operation: Operation::Red },
            Command { family: Family::Managed, operation: Operation::Green },
            Command { family: Family::Managed, operation: Operation::Blue },
            Command { family: Family::Raw, operation: Operation::On },
            Command { family: Family::Raw, operation: Operation::Off },
            Command { family: Family::Raw, operation: Operation::IntensityPlus },
            Command { family: Family::Raw, operation: Operation::IntensityMinus },
            Command { family: Family::Raw, operation: Operation::White },
            Command { family: Family::Raw, operation: Operation::Red },
            Command { family: Family::Raw, operation: Operation::Green },
            Command { family: Family::Raw, operation: Operation::Blue },
        ]
    }

    /// Where the command stands in the table.
    pub open spec fn spec_position(self) -> int {
        let base: int = match self.family {
            Family::Managed => 0,
            Family::Raw => 8,
        };
        base + match self.operation {
            Operation::On => 0int,
            Operation::Off => 1,
            Operation::IntensityPlus => 2,
            Operation::IntensityMinus => 3,
            Operation::White => 4,
            Operation::Red => 5,
            Operation::Green => 6,
            Operation::Blue => 7,
        }
    }

    /// The command that a route leads to, if it leads to one.
    pub open spec fn spec_from_route(route: Seq<char>) -> Option<Command> {
        if exists|c: Command| #[trigger] c.spec_route() == route {
            Some(choose|c: Command| #[trigger] c.spec_route() == route)
        } else {
            None
        }
    }

    /// The command of `family` that asks for `operation`.
    pub fn new(family: Family, operation: Operation) -> (command: Command)
        ensures
            command == (Command { family, operation }),
    {
        Command { family, operation }
    }

    /// The text that stands for the command on the wire.
    pub fn wire_text(&self) -> (text: &'static str)
        ensures
            text@ == self.spec_wire_text(),
    {
        proof {
            lemma_wire_texts();
        }
        match self.family {
            Family::Managed => match self.operation {
                Operation::On => "LED_ON",
                Operation::Off => "LED_OFF",
                Operation::IntensityPlus => "LED_IP",
                Operation::IntensityMinus => "LED_IM",
                Operation::White => "LED_WHITE",
                Operation::Red => "LED_RED",
                Operation::Green => "LED_GREEN",
                Operation::Blue => "LED_BLUE",
            },
            Family::Raw => match self.operation {
                Operation::On => "ULED_ON",
                Operation::Off => "ULED_OFF",
                Operation::IntensityPlus => "ULED_IP",
                Operation::IntensityMinus => "ULED_IM",
                Operation::White => "ULED_WHITE",
                Operation::Red => "ULED_RED",
                Operation::Green => "ULED_GREEN",
                Operation::Blue => "ULED_BLUE",
            },
        }
    }

    /// The route under which the command is offered.
    pub fn route(&self) -> (route: &'static str)
        ensures
            route@ == self.spec_route(),
    {
        proof {
            lemma_routes();
        }
        match self.family {
            Family::Managed => match self.operation {
                Operation::On => "/on",
                Operation::Off => "/off",
                Operation::IntensityPlus => "/intensity_plus",
                Operation::IntensityMinus => "/intensity_minus",
                Operation::White => "/white",
                Operation::Red => "/red",
                Operation::Green => "/green",
                Operation::Blue => "/blue",
            },
            Family::Raw => match self.operation {
                Operation::On => "/raw/on",
                Operation::Off => "/raw/off",
                Operation::IntensityPlus => "/raw/intensity_plus",
                Operation::IntensityMinus => "/raw/intensity_minus",
                Operation::White => "/raw/white",
                Operation::Red => "/raw/red",
                Operation::Green => "/raw/green",
                Operation::Blue => "/raw/blue",
            },
        }
    }

    /// The whole command table, in the table's order.
    pub fn all() -> (table: Vec<Command>)
        ensures
            table@ == Command::spec_table(),
    {
        let table = vec![
            Command { family: Family::Managed, operation: Operation::On },
            Command { family: Family::Managed, operation: Operation::Off },
            Command { family: Family::Managed, operation: Operation::IntensityPlus },
            Command { family: Family::Managed, operation: Operation::IntensityMinus },
            Command { family: Family::Managed, operation: Operation::White },
            Command { family: Family::Managed, operation: Operation::Red },
            Command { family: Family::Managed, operation: Operation::Green },
            Command { family: Family::Managed, operation: Operation::Blue },
            Command { family: Family::Raw, operation: Operation::On },
            Command { family: Family::Raw, operation: Operation::Off },
            Command { family: Family::Raw, operation: Operation::IntensityPlus },
            Command { family: Family::Raw, operation: Operation::IntensityMinus },
            Command { family: Family::Raw, operation: Operation::White },
            Command { family: Family::Raw, operation: Operation::Red },
            Command { family: Family::Raw, operation: Operation::Green },
            Command { family: Family::Raw, operation: Operation::Blue },
        ];
        assert(table@ =~= Command::spec_table());
        table
    }

    /// Finds the command that a route leads to. A route that is in no entry
    /// of the table leads to none.
    pub fn from_route(route: &str) -> (found: Option<Command>)
        ensures
            found == Command::spec_from_route(route@),
    {
        let table = Command::all();
        let mut i: usize = 0;
        while i < table.len()
            invariant
                table@ == Command::spec_table(),
                i <= table@.len(),
                forall|k: int| 0 <= k < i ==> (#[trigger] table@[k]).spec_route() != route@,
            decreases table@.len() - i,
        {
            let candidate = table[i];
            if text_equal(route, candidate.route()) {
                proof {
                    let chosen = choose|c: Command| #[trigger] c.spec_route() == route@;
                    lemma_route_injective(chosen, candidate);
                }
                return Some(candidate);
            }
            i = i + 1;
        }
        proof {
            assert forall|c: Command| #[trigger] c.spec_route() != route@ by {
                lemma_table_complete(c);
            }
        }
        None
    }

    /// The bytes that go onto the wire for the command.
    pub fn frame(&self, terminator: Terminator) -> (frame: Vec<u8>)
        ensures
            frame@ == self.spec_frame(terminator),
    {
        let text = self.wire_text();
        let end = terminator.text();
        proof {
            lemma_wire_text_ascii(*self);
            lemma_terminator_ascii(terminator);
            lemma_ascii_encoding(text@);
            lemma_ascii_encoding(end@);
        }
        let mut frame: Vec<u8> = Vec::new();
        append_bytes(&mut frame, text.as_bytes());
        append_bytes(&mut frame, end.as_bytes());
        assert(frame@ =~= self.spec_frame(terminator));
        frame
    }
}

/// Every wire text of the table, written out.
pub proof fn lemma_wire_texts()
    ensures
        (Command { family: Family::Managed, operation: Operation::On }).spec_wire_text() == "LED_ON"@,
        (Command { family: Family::Managed, operation: Operation::Off }).spec_wire_text() == "LED_OFF"@,
        (Command { family: Family::Managed, operation: Operation::IntensityPlus }).spec_wire_text() == "LED_IP"@,
        (Command { family: Family::Managed, operation: Operation::IntensityMinus }).spec_wire_text() == "LED_IM"@,
        (Command { family: Family::Managed, operation: Operation::White }).spec_wire_text() == "LED_WHITE"@,
        (Command { family: Family::Managed, operation: Operation::Red }).spec_wire_text() == "LED_RED"@,
        (Command { family: Family::Managed, operation: Operation::Green }).spec_wire_text() == "LED_GREEN"@,
        (Command { family: Family::Managed, operation: Operation::Blue }).spec_wire_text() == "LED_BLUE"@,
        (Command { family: Family::Raw, operation: Operation::On }).spec_wire_text() == "ULED_ON"@,
        (Command { family: Family::Raw, operation: Operation::Off }).spec_wire_text() == "ULED_OFF"@,
        (Command { family: Family::Raw, operation: Operation::IntensityPlus }).spec_wire_text() == "ULED_IP"@,
        (Command { family: Family::Raw, operation: Operation::IntensityMinus }).spec_wire_text() == "ULED_IM"@,
        (Command { family: Family::Raw, operation: Operation::White }).spec_wire_text() == "ULED_WHITE"@,
        (Command { family: Family::Raw, operation: Operation::Red }).spec_wire_text() == "ULED_RED"@,
        (Command { family: Family::Raw, operation: Operation::Green }).spec_wire_text() == "ULED_GREEN"@,
        (Command { family: Family::Raw, operation: Operation::Blue }).spec_wire_text() == "ULED_BLUE"@,
{
    reveal_wire_parts();
    reveal_strlit("LED_ON");
    reveal_strlit("LED_OFF");
    reveal_strlit("LED_IP");
    reveal_strlit("LED_IM");
    reveal_strlit("LED_WHITE");
    reveal_strlit("LED_RED");
    reveal_strlit("LED_GREEN");
    reveal_strlit("LED_BLUE");
    reveal_strlit("ULED_ON");
    reveal_strlit("ULED_OFF");
    reveal_strlit("ULED_IP");
    reveal_strlit("ULED_IM");
    reveal_strlit("ULED_WHITE");
    reveal_strlit("ULED_RED");
    reveal_strlit("ULED_GREEN");
    reveal_strlit("ULED_BLUE");
    assert("LED_"@ + "ON"@ =~= "LED_ON"@);
    assert("LED_"@ + "OFF"@ =~= "LED_OFF"@);
    assert("LED_"@ + "IP"@ =~= "LED_IP"@);
    assert("LED_"@ + "IM"@ =~= "LED_IM"@);
    assert("LED_"@ + "WHITE"@ =~= "LED_WHITE"@);
    assert("LED_"@ + "RED"@ =~= "LED_RED"@);
    assert("LED_"@ + "GREEN"@ =~= "LED_GREEN"@);
    assert("LED_"@ + "BLUE"@ =~= "LED_BLUE"@);
    assert("ULED_"@ + "ON"@ =~= "ULED_ON"@);
    assert("ULED_"@ + "OFF"@ =~= "ULED_OFF"@);
    assert("ULED_"@ + "IP"@ =~= "ULED_IP"@);
    assert("ULED_"@ + "IM"@ =~= "ULED_IM"@);
    assert("ULED_"@ + "WHITE"@ =~= "ULED_WHITE"@);
    assert("ULED_"@ + "RED"@ =~= "ULED_RED"@);
    assert("ULED_"@ + "GREEN"@ =~= "ULED_GREEN"@);
    assert("ULED_"@ + "BLUE"@ =~= "ULED_BLUE"@);
}

/// Every route of the table, written out.
pub proof fn lemma_routes()
    ensures
        (Command { family: Family::Managed, operation: Operation::On }).spec_route() == "/on"@,
        (Command { family: Family::Managed, operation: Operation::Off }).spec_route() == "/off"@,
        (Command { family: Family::Managed, operation: Operation::IntensityPlus }).spec_route() == "/intensity_plus"@,
        (Command { family: Family::Managed, operation: Operation::IntensityMinus }).spec_route() == "/intensity_minus"@,
        (Command { family: Family::Managed, operation: Operation::White }).spec_route() == "/white"@,
        (Command { family: Family::Managed, operation: Operation::Red }).spec_route() == "/red"@,
        (Command { family: Family::Managed, operation: Operation::Green }).spec_route() == "/green"@,
        (Command { family: Family::Managed, operation: Operation::Blue }).spec_route() == "/blue"@,
        (Command { family: Family::Raw, operation: Operation::On }).spec_route() == "/raw/on"@,
        (Command { family: Family::Raw, operation: Operation::Off }).spec_route() == "/raw/off"@,
        (Command { family: Family::Raw, operation: Operation::IntensityPlus }).spec_route() == "/raw/intensity_plus"@,
        (Command { family: Family::Raw, operation: Operation::IntensityMinus }).spec_route() == "/raw/intensity_minus"@,
        (Command { family: Family::Raw, operation: Operation::White }).spec_route() == "/raw/white"@,
        (Command { family: Family::Raw, operation: Operation::Red }).spec_route() == "/raw/red"@,
        (Command { family: Family::Raw, operation: Operation::Green }).spec_route() == "/raw/green"@,
        (Command { family: Family::Raw, operation: Operation::Blue }).spec_route() == "/raw/blue"@,
{
    reveal_route_parts();
    reveal_strlit("/raw/on");
    reveal_strlit("/raw/off");
    reveal_strlit("/raw/intensity_plus");
    reveal_strlit("/raw/intensity_minus");
    reveal_strlit("/raw/white");
    reveal_strlit("/raw/red");
    reveal_strlit("/raw/green");
    reveal_strlit("/raw/blue");
    assert(""@ + "/on"@ =~= "/on"@);
    assert(""@ + "/off"@ =~= "/off"@);
    assert(""@ + "/intensity_plus"@ =~= "/intensity_plus"@);
    assert(""@ + "/intensity_minus"@ =~= "/intensity_minus"@);
    assert(""@ + "/white"@ =~= "/white"@);
    assert(""@ + "/red"@ =~= "/red"@);
    assert(""@ + "/green"@ =~= "/green"@);
    assert(""@ + "/blue"@ =~= "/blue"@);
    assert("/raw"@ + "/on"@ =~= "/raw/on"@);
    assert("/raw"@ + "/off"@ =~= "/raw/off"@);
    assert("/raw"@ + "/intensity_plus"@ =~= "/raw/intensity_plus"@);
    assert("/raw"@ + "/intensity_minus"@ =~= "/raw/intensity_minus"@);
    assert("/raw"@ + "/white"@ =~= "/raw/white"@);
    assert("/raw"@ + "/red"@ =~= "/raw/red"@);
    assert("/raw"@ + "/green"@ =~= "/raw/green"@);
    assert("/raw"@ + "/blue"@ =~= "/raw/blue"@);
}

/// Makes the characters of the wire prefixes and names known.
proof fn reveal_wire_parts()
    ensures
        "LED_"@ == seq!['L', 'E', 'D', '_'],
        "ULED_"@ == seq!['U', 'L', 'E', 'D', '_'],
        "ON"@ == seq!['O', 'N'],
        "OFF"@ == seq!['O', 'F', 'F'],
        "IP"@ == seq!['I', 'P'],
        "IM"@ == seq!['I', 'M'],
        "WHITE"@ == seq!['W', 'H', 'I', 'T', 'E'],
        "RED"@ == seq!['R', 'E', 'D'],
        "GREEN"@ == seq!['G', 'R', 'E', 'E', 'N'],
        "BLUE"@ == seq!['B', 'L', 'U', 'E'],
{
    reveal_strlit("LED_");
    reveal_strlit("ULED_");
    reveal_strlit("ON");
    reveal_strlit("OFF");
    reveal_strlit("IP");
    reveal_strlit("IM");
    reveal_strlit("WHITE");
    reveal_strlit("RED");
    reveal_strlit("GREEN");
    reveal_strlit("BLUE");
    assert("LED_"@ =~= seq!['L', 'E', 'D', '_']);
    assert("ULED_"@ =~= seq!['U', 'L', 'E', 'D', '_']);
    assert("ON"@ =~= seq!['O', 'N']);
    assert("OFF"@ =~= seq!['O', 'F', 'F']);
    assert("IP"@ =~= seq!['I', 'P']);
    assert("IM"@ =~= seq!['I', 'M']);
    assert("WHITE"@ =~= seq!['W', 'H', 'I', 'T', 'E']);
    assert("RED"@ =~= seq!['R', 'E', 'D']);
    assert("GREEN"@ =~= seq!['G', 'R', 'E', 'E', 'N']);
    assert("BLUE"@ =~= seq!['B', 'L', 'U', 'E']);
}

/// Makes the lengths and the characters of the route prefixes and names known.
proof fn reveal_route_parts()
    ensures
        ""@.len() == 0,
        "/raw"@ == seq!['/', 'r', 'a', 'w'],
        "/on"@ == seq!['/', 'o', 'n'],
        "/off"@ == seq!['/', 'o', 'f', 'f'],
        "/intensity_plus"@ == seq![
            '/', 'i', 'n', 't', 'e', 'n', 's', 'i', 't', 'y', '_', 'p', 'l', 'u', 's',
        ],
        "/intensity_minus"@ == seq![
            '/', 'i', 'n', 't', 'e', 'n', 's', 'i', 't', 'y', '_', 'm', 'i', 'n', 'u', 's',
        ],
        "/white"@ == seq!['/', 'w', 'h', 'i', 't', 'e'],
        "/red"@ == seq!['/', 'r', 'e', 'd'],
        "/green"@ == seq!['/', 'g', 'r', 'e', 'e', 'n'],
        "/blue"@ == seq!['/', 'b', 'l', 'u', 'e'],
{
    reveal_strlit("");
    reveal_strlit("/raw");
    reveal_strlit("/on");
    reveal_strlit("/off");
    reveal_strlit("/intensity_plus");
    reveal_strlit("/intensity_minus");
    reveal_strlit("/white");
    reveal_strlit("/red");
    reveal_strlit("/green");
    reveal_strlit("/blue");
    assert("/raw"@ =~= seq!['/', 'r', 'a', 'w']);
    assert("/on"@ =~= seq!['/', 'o', 'n']);
    assert("/off"@ =~= seq!['/', 'o', 'f', 'f']);
    assert("/intensity_plus"@ =~= seq![
        '/', 'i', 'n', 't', 'e', 'n', 's', 'i', 't', 'y', '_', 'p', 'l', 'u', 's',
    ]);
    assert("/intensity_minus"@ =~= seq![
        '/', 'i', 'n', 't', 'e', 'n', 's', 'i', 't', 'y', '_', 'm', 'i', 'n', 'u', 's',
    ]);
    assert("/white"@ =~= seq!['/', 'w', 'h', 'i', 't', 'e']);
    assert("/red"@ =~= seq!['/', 'r', 'e', 'd']);
    assert("/green"@ =~= seq!['/', 'g', 'r', 'e', 'e', 'n']);
    assert("/blue"@ =~= seq!['/', 'b', 'l', 'u', 'e']);
}

/// Every command stands in the table, at its position.
pub proof fn lemma_table_complete(command: Command)
    ensures
        0 <= command.spec_position() < Command::spec_table().len(),
        Command::spec_table().len() == 16,
        Command::spec_table()[command.spec_position()] == command,
{
}

/// No two operations share a route name, and none reads like another with
/// the raw family's prefix before it.
proof fn lemma_route_names_distinct(a: Operation, b: Operation)
    ensures
        a.spec_route_name() == b.spec_route_name() ==> a == b,
        a.spec_route_name() != "/raw"@ + b.spec_route_name(),
{
    reveal_route_parts();
    let x = a.spec_route_name();
    let y = b.spec_route_name();
    if x == y && a != b {
        assert(x.len() == y.len());
        assert(x[1] == y[1]);
        assert(x[11] == y[11]);
    }
    let z = "/raw"@ + y;
    if x == z {
        assert(x[1] == z[1]);
        assert(x.len() == z.len());
    }
}

/// Two commands with the same route are the same command: a route leads to
/// at most one entry of the table.
pub proof fn lemma_route_injective(a: Command, b: Command)
    requires
        a.spec_route() == b.spec_route(),
    ensures
        a == b,
{
    reveal_route_parts();
    lemma_route_names_distinct(a.operation, b.operation);
    lemma_route_names_distinct(b.operation, a.operation);
    let x = a.operation.spec_route_name();
    let y = b.operation.spec_route_name();
    assert(""@ + x =~= x);
    assert(""@ + y =~= y);
    assert(("/raw"@ + x).subrange(4, 4 + x.len() as int) =~= x);
    assert(("/raw"@ + y).subrange(4, 4 + y.len() as int) =~= y);
}

/// Every command is found again under its own route.
pub proof fn lemma_route_total(command: Command)
    ensures
        Command::spec_from_route(command.spec_route()) == Some(command),
{
    let route = command.spec_route();
    let chosen = choose|c: Command| #[trigger] c.spec_route() == route;
    lemma_route_injective(chosen, command);
}

/// Two commands with the same wire text are the same command.
pub proof fn lemma_wire_text_injective(a: Command, b: Command)
    requires
        a.spec_wire_text() == b.spec_wire_text(),
    ensures
        a == b,
{
    reveal_wire_parts();
    let x = a.spec_wire_text();
    let y = b.spec_wire_text();
    assert(x.len() == y.len());
    assert(x[0] == y[0]);
    if a.family == b.family {
        let p = a.family.spec_wire_prefix().len() as int;
        assert(x[p] == y[p]);
        assert(x[p + 1] == y[p + 1]);
    }
}

/// The wire text of every command is ASCII.
pub proof fn lemma_wire_text_ascii(command: Command)
    ensures
        is_ascii_chars(command.spec_wire_text()),
{
    reveal_wire_parts();
}

/// Both terminators are ASCII.
pub proof fn lemma_terminator_ascii(terminator: Terminator)
    ensures
        is_ascii_chars(terminator.spec_text()),
{
    reveal_strlit("");
    reveal_strlit("\r\n");
}

} // verus!
