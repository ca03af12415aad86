use vstd::prelude::*;

use crate::action::AppAction;
use crate::error::AppError;
use crate::number::{digits_value, parse_usize, parses_as_usize, unsigned_digits};
use crate::text::{chars_of, is_space, string_of, trim, trimmed, whitespace_char};

verus! {

/// The name under which the active table is handed to the query engine.
pub const TABLE_NAME: &'static str = "df";

/// The commands the palette understands.
#[derive(Debug, Clone, Copy, PartialEq, Eq, Structural)]
pub enum Command {
    Goto,
    Query,
    Select,
    Order,
    Filter,
    Reset,
    Random,
    Schema,
    Tabular,
    Borders,
    Quit,
}

/// The keyword that names a command.
pub open spec fn keyword_of(c: Command) -> Seq<char> {
    match c {
        Command::Goto => "goto"@,
        Command::Query => "query"@,
        Command::Select => "select"@,
        Command::Order => "order"@,
        Command::Filter => "filter"@,
        Command::Reset => "reset"@,
        Command::Random => "random"@,
        Command::Schema => "schema"@,
        Command::Tabular => "tabular"@,
        Command::Borders => "borders"@,
        Command::Quit => "quit"@,
    }
}

impl Command {
    pub fn keyword(&self) -> (r: &'static str)
        ensures
            r@ == keyword_of(*self),
    {
        match self {
            Command::Goto => "goto",
            Command::Query => "query",
            Command::Select => "select",
            Command::Order => "order",
            Command::Filter => "filter",
            Command::Reset => "reset",
            Command::Random => "random",
            Command::Schema => "schema",
            Command::Tabular => "tabular",
            Command::Borders => "borders",
            Command::Quit => "quit",
        }
    }

    /// The command needs an argument after its keyword.
    pub open spec fn takes_argument(self) -> bool {
        match self {
            Command::Goto | Command::Query | Command::Select | Command::Order | Command::Filter => true,
            _ => false,
        }
    }
}

pub open spec fn all_commands() -> Seq<Command> {
    seq![
        Command::Goto,
        Command::Query,
        Command::Select,
        Command::Order,
        Command::Filter,
        Command::Reset,
        Command::Random,
        Command::Schema,
        Command::Tabular,
        Command::Borders,
        Command::Quit,
    ]
}

/// The keyword registry: each command with its keyword, keywords distinct.
pub struct CommandRegistry {
    commands: Vec<Command>,
}

/// The command whose keyword is `word`, if any.
pub open spec fn command_named(word: Seq<char>) -> Option<Command> {
    if exists|i: int| 0 <= i < all_commands().len() && keyword_of(all_commands()[i]) == word {
        Some(
            all_commands()[choose|i: int|
                0 <= i < all_commands().len() && keyword_of(all_commands()[i]) == word],
        )
    } else {
        None
    }
}

/// Index of the first whitespace character at or after `i`, or the length.
pub open spec fn space_from(s: Seq<char>, i: int) -> int
    decreases s.len() - i,
{
    if i < 0 || i >= s.len() {
        s.len() as int
    } else if whitespace_char(s[i]) {
        i
    } else {
        space_from(s, i + 1)
    }
}

/// The first word of a command line.
pub open spec fn keyword_part(line: Seq<char>) -> Seq<char> {
    let t = trim(line);
    t.take(space_from(t, 0))
}

/// What follows the first word, without surrounding whitespace.
pub open spec fn argument_part(line: Seq<char>) -> Seq<char> {
    let t = trim(line);
    trim(t.skip(space_from(t, 0)))
}

/// The query a command asks the engine to run on the active table.
pub open spec fn query_text(c: Command, arg: Seq<char>) -> Seq<char> {
    match c {
        Command::Select => "SELECT "@ + arg + " FROM "@ + "df"@,
        Command::Order => "SELECT * FROM "@ + "df"@ + " ORDER BY "@ + arg,
        Command::Filter => "SELECT * FROM "@ + "df"@ + " WHERE "@ + arg,
        _ => arg,
    }
}

/// The line names a command and gives it a valid argument.
pub open spec fn command_parses(line: Seq<char>) -> bool {
    let arg = argument_part(line);
    match command_named(keyword_part(line)) {
        None => false,
        Some(c) => {
            &&& (c.takes_argument() <==> arg.len() > 0)
            &&& (c == Command::Goto ==> parses_as_usize(arg))
        },
    }
}

/// The result of dispatching a command line, for each input.
pub open spec fn dispatched(line: Seq<char>, r: Result<AppAction, AppError>) -> bool {
    let word = keyword_part(line);
    let arg = argument_part(line);
    match command_named(word) {
        None => r == Err::<AppAction, AppError>(AppError::CommandNotFound),
        Some(c) => if c.takes_argument() && arg.len() == 0 {
            r == Err::<AppAction, AppError>(AppError::MissingArgument)
        } else if !c.takes_argument() && arg.len() > 0 {
            r == Err::<AppAction, AppError>(AppError::UnexpectedArgument)
        } else {
            match c {
                Command::Goto => if parses_as_usize(arg) {
                    r == Ok::<AppAction, AppError>(
                        AppAction::TableGoto(digits_value(unsigned_digits(arg)) as usize),
                    )
                } else {
                    r == Err::<AppAction, AppError>(AppError::InvalidNumber)
                },
                Command::Query | Command::Select | Command::Order | Command::Filter => r is Ok
                    && r->Ok_0 is TableQuery && r->Ok_0->TableQuery_0@ == query_text(c, arg),
                Command::Reset => r == Ok::<AppAction, AppError>(AppAction::TableReset),
                Command::Random => r == Ok::<AppAction, AppError>(AppAction::TableGotoRandom),
                Command::Schema => r == Ok::<AppAction, AppError>(AppAction::SwitchToSchema),
                Command::Tabular => r == Ok::<AppAction, AppError>(AppAction::SwitchToTabular),
                Command::Borders => r == Ok::<AppAction, AppError>(AppAction::ToggleBorders),
                Command::Quit => r == Ok::<AppAction, AppError>(AppAction::Quit),
            }
        },
    }
}

fn same_chars(a: &Vec<char>, b: &Vec<char>) -> (r: bool)
    ensures
        r == (a@ == b@),
{
    if a.len() != b.len() {
        return false;
    }
    let mut i: usize = 0;
    while i < a.len()
        invariant
            a.len() == b.len(),
            i <= a.len(),
            forall|j: int| 0 <= j < i ==> a@[j] == b@[j],
        decreases a.len() - i,
    {
        if a[i] != b[i] {
            return false;
        }
        i = i + 1;
    }
    assert(a@ =~= b@);
    true
}

/// Appends a string's characters.
fn append_str(out: &mut Vec<char>, s: &str)
    ensures
        final(out)@ == old(out)@ + s@,
{
    let cs = chars_of(s);
    let mut i: usize = 0;
    while i < cs.len()
        invariant
            i <= cs.len(),
            out@ == old(out)@ + cs@.take(i as int),
        decreases cs.len() - i,
    {
        out.push(cs[i]);
        i = i + 1;
        assert(out@ =~= old(out)@ + cs@.take(i as int));
    }
    assert(cs@.take(cs.len() as int) =~= cs@);
}

impl CommandRegistry {
    pub closed spec fn commands_spec(&self) -> Seq<Command> {
        self.commands@
    }

    pub fn new() -> (r: CommandRegistry)
        ensures
            r.commands_spec() == all_commands(),
    {
        let mut commands: Vec<Command> = Vec::new();
        commands.push(Command::Goto);
        commands.push(Command::Query);
        commands.push(Command::Select);
        commands.push(Command::Order);
        commands.push(Command::Filter);
        commands.push(Command::Reset);
        commands.push(Command::Random);
        commands.push(Command::Schema);
        commands.push(Command::Tabular);
        commands.push(Command::Borders);
        commands.push(Command::Quit);
        CommandRegistry { commands }
    }

    /// The command whose keyword is `word`.
    pub fn lookup(&self, word: &Vec<char>) -> (r: Option<Command>)
        requires
            self.commands_spec() == all_commands(),
        ensures
            r == command_named(word@),
    {
        let mut i: usize = 0;
        while i < self.commands.len()
            invariant
                self.commands@ == all_commands(),
                i <= self.commands.len(),
                forall|j: int| 0 <= j < i ==> keyword_of(all_commands()[j]) != word@,
            decreases self.commands.len() - i,
        {
            let c = self.commands[i];
            let kw = chars_of(c.keyword());
            if same_chars(&kw, word) {
                proof {
                    lemma_keywords_distinct();
                    let ii = i as int;
                    assert(0 <= ii < all_commands().len() && keyword_of(all_commands()[ii])
                        == word@);
                    let j = choose|j: int|
                        0 <= j < all_commands().len() && keyword_of(all_commands()[j]) == word@;
                    if j != ii {
                        assert(keyword_of(all_commands()[j]) != keyword_of(all_commands()[ii]));
                    }
                }
                return Some(c);
            }
            i = i + 1;
        }
        None
    }

    /// Turns a typed command line into the action it asks for.
    pub fn dispatch(&self, line: &str) -> (r: Result<AppAction, AppError>)
        requires
            self.commands_spec() == all_commands(),
        ensures
            dispatched(line@, r),
            r is Ok <==> command_parses(line@),
    {
        let t = trimmed(line);
        let mut p: usize = 0;
        while p < t.len() && !is_space(t[p])
            invariant
                p <= t.len(),
                space_from(t@, 0) == space_from(t@, p as int),
            decreases t.len() - p,
        {
            p = p + 1;
        }
        let mut word: Vec<char> = Vec::new();
        let mut k: usize = 0;
        while k < p
            invariant
                k <= p,
                p <= t.len(),
                word@ =~= t@.take(k as int),
            decreases p - k,
        {
            word.push(t[k]);
            k = k + 1;
        }
        let mut tail: Vec<char> = Vec::new();
        while k < t.len()
            invariant
                p <= k <= t.len(),
                tail@ =~= t@.subrange(p as int, k as int),
            decreases t.len() - k,
        {
            tail.push(t[k]);
            k = k + 1;
        }
        assert(tail@ =~= t@.skip(p as int));
        let arg = trimmed(string_of(&tail).as_str());
        let arg_text = string_of(&arg);
        match self.lookup(&word) {
            None => Err(AppError::CommandNotFound),
            Some(c) => {
                let needs = match c {
                    Command::Goto | Command::Query | Command::Select | Command::Order
                    | Command::Filter => true,
                    _ => false,
                };
                if needs && arg.len() == 0 {
                    return Err(AppError::MissingArgument);
                }
                if !needs && arg.len() > 0 {
                    return Err(AppError::UnexpectedArgument);
                }
                match c {
                    Command::Goto => match parse_usize(arg_text.as_str()) {
                        Some(n) => Ok(AppAction::TableGoto(n)),
                        None => Err(AppError::InvalidNumber),
                    },
                    Command::Query => Ok(AppAction::TableQuery(arg_text)),
                    Command::Select => {
                        let mut q: Vec<char> = Vec::new();
                        append_str(&mut q, "SELECT ");
                        append_str(&mut q, arg_text.as_str());
                        append_str(&mut q, " FROM ");
                        append_str(&mut q, TABLE_NAME);
                        Ok(AppAction::TableQuery(string_of(&q)))
                    },
                    Command::Order => {
                        let mut q: Vec<char> = Vec::new();
                        append_str(&mut q, "SELECT * FROM ");
                        append_str(&mut q, TABLE_NAME);
                        append_str(&mut q, " ORDER BY ");
                        append_str(&mut q, arg_text.as_str());
                        Ok(AppAction::TableQuery(string_of(&q)))
                    },
                    Command::Filter => {
                        let mut q: Vec<char> = Vec::new();
                        append_str(&mut q, "SELECT * FROM ");
                        append_str(&mut q, TABLE_NAME);
                        append_str(&mut q, " WHERE ");
                        append_str(&mut q, arg_text.as_str());
                        Ok(AppAction::TableQuery(string_of(&q)))
                    },
                    Command::Reset => Ok(AppAction::TableReset),
                    Command::Random => Ok(AppAction::TableGotoRandom),
                    Command::Schema => Ok(AppAction::SwitchToSchema),
                    Command::Tabular => Ok(AppAction::SwitchToTabular),
                    Command::Borders => Ok(AppAction::ToggleBorders),
                    Command::Quit => Ok(AppAction::Quit),
                }
            },
        }
    }
}

/// No two commands share a keyword.
proof fn lemma_keywords_distinct()
    ensures
        forall|i: int, j: int|
            0 <= i < all_commands().len() && 0 <= j < all_commands().len() && i != j ==> keyword_of(
                all_commands()[i],
            ) != keyword_of(all_commands()[j]),
{
    reveal_strlit("goto");
    reveal_strlit("query");
    reveal_strlit("select");
    reveal_strlit("order");
    reveal_strlit("filter");
    reveal_strlit("reset");
    reveal_strlit("random");
    reveal_strlit("schema");
    reveal_strlit("tabular");
    reveal_strlit("borders");
    reveal_strlit("quit");
    assert forall|i: int, j: int|
        0 <= i < all_commands().len() && 0 <= j < all_commands().len() && i != j implies keyword_of(
            all_commands()[i],
        ) != keyword_of(all_commands()[j]) by {
        let a = keyword_of(all_commands()[i]);
        let b = keyword_of(all_commands()[j]);
        if a == b {
            assert(a.len() == b.len());
            assert(a[0] == b[0]);
            assert(a[1] == b[1]);
        }
    }
}

} // verus!
