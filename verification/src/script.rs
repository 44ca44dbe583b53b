//! Commands that configure a system, one per line of text.
//!
//! `set angle|gravity|kfriction|sfriction|elastic_collision|size <value>`
//! sets a parameter, and
//! `new <position> <velocity> <mass> <size> <r> <g> <b>` appends a body. A
//! line without tokens does nothing, and tokens after the last argument are
//! not read. A line that fails changes nothing. A script runs its lines in
//! order and stops at the first that fails; what the lines before it did
//! stays done.

use vstd::prelude::*;
use vstd::string::*;
use crate::color::Color;
use crate::engine::body::Body;
use crate::engine::system::{System, SystemState};
use crate::scalar::Scalar;
use crate::text::{
    chars_of, decimal, lines, parse_bool, parse_scalar, parse_u32, parse_u8, spec_parse_bool,
    spec_parse_u32, spec_parse_u8, spells, split_lines, split_tokens, tokens, views,
};

verus! {

/// What a line asks for.
#[derive(Clone, Copy, Debug, PartialEq, Eq, Structural)]
pub enum Command {
    /// A line without tokens.
    Nothing,
    SetAngle(Scalar),
    SetGravity(Scalar),
    SetKineticFriction(Scalar),
    SetStaticFriction(Scalar),
    SetElasticCollisions(bool),
    SetDomainHalfSize(Scalar),
    /// Append this body.
    New(Body),
}

/// Why a line was refused.
#[derive(Clone, Copy, Debug, PartialEq, Eq, Structural)]
pub enum CommandError {
    /// The first token is neither `set` nor `new`.
    UnexpectedCommand,
    /// The line ends where an argument is due.
    MissingArgument,
    /// `set` names no known parameter.
    UnknownParameter,
    /// An argument does not spell a value of its type.
    InvalidValue,
}

/// Why a script stopped.
#[derive(Clone, Copy, Debug, PartialEq, Eq, Structural)]
pub struct ScriptError {
    /// Number of the line that failed, counted from 1.
    pub line: usize,
    pub error: CommandError,
}

/// The argument at `index` read as a scalar.
pub open spec fn scalar_argument(words: Seq<Seq<char>>, index: int) -> Result<
    Scalar,
    CommandError,
> {
    if index >= words.len() {
        Err(CommandError::MissingArgument)
    } else {
        match decimal(words[index]) {
            Some(value) => Ok(value),
            None => Err(CommandError::InvalidValue),
        }
    }
}

/// The argument at `index` read as a boolean.
pub open spec fn bool_argument(words: Seq<Seq<char>>, index: int) -> Result<bool, CommandError> {
    if index >= words.len() {
        Err(CommandError::MissingArgument)
    } else {
        match spec_parse_bool(words[index]) {
            Some(value) => Ok(value),
            None => Err(CommandError::InvalidValue),
        }
    }
}

/// The argument at `index` read as a `u32`.
pub open spec fn u32_argument(words: Seq<Seq<char>>, index: int) -> Result<u32, CommandError> {
    if index >= words.len() {
        Err(CommandError::MissingArgument)
    } else {
        match spec_parse_u32(words[index]) {
            Some(value) => Ok(value),
            None => Err(CommandError::InvalidValue),
        }
    }
}

/// The argument at `index` read as a `u8`.
pub open spec fn u8_argument(words: Seq<Seq<char>>, index: int) -> Result<u8, CommandError> {
    if index >= words.len() {
        Err(CommandError::MissingArgument)
    } else {
        match spec_parse_u8(words[index]) {
            Some(value) => Ok(value),
            None => Err(CommandError::InvalidValue),
        }
    }
}

/// What `set` and its arguments ask for. The parameter's name is looked at
/// before its value.
pub open spec fn set_command(words: Seq<Seq<char>>) -> Result<Command, CommandError> {
    if words.len() < 2 {
        Err(CommandError::MissingArgument)
    } else if words[1] == "angle"@ {
        match scalar_argument(words, 2) {
            Ok(value) => Ok(Command::SetAngle(value)),
            Err(e) => Err(e),
        }
    } else if words[1] == "gravity"@ {
        match scalar_argument(words, 2) {
            Ok(value) => Ok(Command::SetGravity(value)),
            Err(e) => Err(e),
        }
    } else if words[1] == "kfriction"@ {
        match scalar_argument(words, 2) {
            Ok(value) => Ok(Command::SetKineticFriction(value)),
            Err(e) => Err(e),
        }
    } else if words[1] == "sfriction"@ {
        match scalar_argument(words, 2) {
            Ok(value) => Ok(Command::SetStaticFriction(value)),
            Err(e) => Err(e),
        }
    } else if words[1] == "elastic_collision"@ {
        match bool_argument(words, 2) {
            Ok(value) => Ok(Command::SetElasticCollisions(value)),
            Err(e) => Err(e),
        }
    } else if words[1] == "size"@ {
        match scalar_argument(words, 2) {
            Ok(value) => Ok(Command::SetDomainHalfSize(value)),
            Err(e) => Err(e),
        }
    } else {
        Err(CommandError::UnknownParameter)
    }
}

/// What `new` and its arguments ask for. The arguments are read in order,
/// and the first that is missing or wrong decides the error.
pub open spec fn new_command(words: Seq<Seq<char>>) -> Result<Command, CommandError> {
    let position = scalar_argument(words, 1);
    let velocity = scalar_argument(words, 2);
    let mass = scalar_argument(words, 3);
    let size = u32_argument(words, 4);
    let r = u8_argument(words, 5);
    let g = u8_argument(words, 6);
    let b = u8_argument(words, 7);
    if position is Err {
        Err(position->Err_0)
    } else if velocity is Err {
        Err(velocity->Err_0)
    } else if mass is Err {
        Err(mass->Err_0)
    } else if size is Err {
        Err(size->Err_0)
    } else if r is Err {
        Err(r->Err_0)
    } else if g is Err {
        Err(g->Err_0)
    } else if b is Err {
        Err(b->Err_0)
    } else {
        Ok(
            Command::New(
                Body::new(
                    position->Ok_0,
                    velocity->Ok_0,
                    mass->Ok_0,
                    size->Ok_0,
                    Color::rgb(r->Ok_0, g->Ok_0, b->Ok_0),
                ),
            ),
        )
    }
}

/// What the tokens `words` of a line ask for.
pub open spec fn command_of(words: Seq<Seq<char>>) -> Result<Command, CommandError> {
    if words.len() == 0 {
        Ok(Command::Nothing)
    } else if words[0] == "set"@ {
        set_command(words)
    } else if words[0] == "new"@ {
        new_command(words)
    } else {
        Err(CommandError::UnexpectedCommand)
    }
}

/// What the line `line` asks for.
pub open spec fn command_in(line: Seq<char>) -> Result<Command, CommandError> {
    command_of(tokens(line))
}

fn read_scalar(words: &Vec<Vec<char>>, index: usize) -> (value: Result<Scalar, CommandError>)
    ensures
        value == scalar_argument(views(words@), index as int),
{
    if index >= words.len() {
        return Err(CommandError::MissingArgument);
    }
    match parse_scalar(words[index].as_slice()) {
        Some(value) => Ok(value),
        None => Err(CommandError::InvalidValue),
    }
}

fn read_bool(words: &Vec<Vec<char>>, index: usize) -> (value: Result<bool, CommandError>)
    ensures
        value == bool_argument(views(words@), index as int),
{
    if index >= words.len() {
        return Err(CommandError::MissingArgument);
    }
    match parse_bool(words[index].as_slice()) {
        Some(value) => Ok(value),
        None => Err(CommandError::InvalidValue),
    }
}

fn read_u32(words: &Vec<Vec<char>>, index: usize) -> (value: Result<u32, CommandError>)
    ensures
        value == u32_argument(views(words@), index as int),
{
    if index >= words.len() {
        return Err(CommandError::MissingArgument);
    }
    match parse_u32(words[index].as_slice()) {
        Some(value) => Ok(value),
        None => Err(CommandError::InvalidValue),
    }
}

fn read_u8(words: &Vec<Vec<char>>, index: usize) -> (value: Result<u8, CommandError>)
    ensures
        value == u8_argument(views(words@), index as int),
{
    if index >= words.len() {
        return Err(CommandError::MissingArgument);
    }
    match parse_u8(words[index].as_slice()) {
        Some(value) => Ok(value),
        None => Err(CommandError::InvalidValue),
    }
}

fn read_set(words: &Vec<Vec<char>>) -> (command: Result<Command, CommandError>)
    ensures
        command == set_command(views(words@)),
{
    if words.len() < 2 {
        return Err(CommandError::MissingArgument);
    }
    let name = words[1].as_slice();
    assert(name@ == views(words@)[1]);
    if spells(name, "angle") {
        match read_scalar(words, 2) {
            Ok(value) => Ok(Command::SetAngle(value)),
            Err(e) => Err(e),
        }
    } else if spells(name, "gravity") {
        match read_scalar(words, 2) {
            Ok(value) => Ok(Command::SetGravity(value)),
            Err(e) => Err(e),
        }
    } else if spells(name, "kfriction") {
        match read_scalar(words, 2) {
            Ok(value) => Ok(Command::SetKineticFriction(value)),
            Err(e) => Err(e),
        }
    } else if spells(name, "sfriction") {
        match read_scalar(words, 2) {
            Ok(value) => Ok(Command::SetStaticFriction(value)),
            Err(e) => Err(e),
        }
    } else if spells(name, "elastic_collision") {
        match read_bool(words, 2) {
            Ok(value) => Ok(Command::SetElasticCollisions(value)),
            Err(e) => Err(e),
        }
    } else if spells(name, "size") {
        match read_scalar(words, 2) {
            Ok(value) => Ok(Command::SetDomainHalfSize(value)),
            Err(e) => Err(e),
        }
    } else {
        Err(CommandError::UnknownParameter)
    }
}

fn read_new(words: &Vec<Vec<char>>) -> (command: Result<Command, CommandError>)
    ensures
        command == new_command(views(words@)),
{
    let position = match read_scalar(words, 1) {
        Ok(value) => value,
        Err(e) => {
            return Err(e);
        },
    };
    let velocity = match read_scalar(words, 2) {
        Ok(value) => value,
        Err(e) => {
            return Err(e);
        },
    };
    let mass = match read_scalar(words, 3) {
        Ok(value) => value,
        Err(e) => {
            return Err(e);
        },
    };
    let size = match read_u32(words, 4) {
        Ok(value) => value,
        Err(e) => {
            return Err(e);
        },
    };
    let r = match read_u8(words, 5) {
        Ok(value) => value,
        Err(e) => {
            return Err(e);
        },
    };
    let g = match read_u8(words, 6) {
        Ok(value) => value,
        Err(e) => {
            return Err(e);
        },
    };
    let b = match read_u8(words, 7) {
        Ok(value) => value,
        Err(e) => {
            return Err(e);
        },
    };
    Ok(Command::New(Body::new(position, velocity, mass, size, Color::rgb(r, g, b))))
}

impl Command {
    /// Reads the command that the characters of one line spell.
    pub fn read(line: &[char]) -> (command: Result<Command, CommandError>)
        ensures
            command == command_in(line@),
    {
        let words = split_tokens(line);
        if words.len() == 0 {
            return Ok(Command::Nothing);
        }
        let first = words[0].as_slice();
        assert(first@ == views(words@)[0]);
        if spells(first, "set") {
            read_set(&words)
        } else if spells(first, "new") {
            read_new(&words)
        } else {
            Err(CommandError::UnexpectedCommand)
        }
    }

    /// Reads the command that `line` spells.
    pub fn parse(line: &str) -> (command: Result<Command, CommandError>)
        ensures
            command == command_in(line@),
    {
        let chars = chars_of(line);
        Command::read(chars.as_slice())
    }
}

impl CommandError {
    /// A sentence that says what was wrong with the line.
    pub fn message(&self) -> (text: String)
        ensures
            text@ == match *self {
                CommandError::UnexpectedCommand => "unexpected command"@,
                CommandError::MissingArgument => "missing argument"@,
                CommandError::UnknownParameter => "unknown parameter"@,
                CommandError::InvalidValue => "invalid value"@,
            },
    {
        match self {
            CommandError::UnexpectedCommand => "unexpected command".to_owned(),
            CommandError::MissingArgument => "missing argument".to_owned(),
            CommandError::UnknownParameter => "unknown parameter".to_owned(),
            CommandError::InvalidValue => "invalid value".to_owned(),
        }
    }
}

/// How far a script got: the state it left and, where a line failed, that
/// line's number and error.
pub ghost struct ScriptOutcome {
    pub state: SystemState,
    pub failure: Option<ScriptError>,
}

impl SystemState {
    /// The state after `command`.
    pub open spec fn applied(self, command: Command) -> SystemState {
        match command {
            Command::Nothing => self,
            Command::SetAngle(value) => SystemState { angle: value, ..self },
            Command::SetGravity(value) => SystemState { gravity: value, ..self },
            Command::SetKineticFriction(value) => SystemState {
                kfriction_coefficient: value,
                ..self
            },
            Command::SetStaticFriction(value) => SystemState {
                sfriction_coefficient: value,
                ..self
            },
            Command::SetElasticCollisions(value) => SystemState {
                elastic_collisions: value,
                ..self
            },
            Command::SetDomainHalfSize(value) => SystemState { domain_half_size: value, ..self },
            Command::New(body) => SystemState { bodies: self.bodies.push(body), ..self },
        }
    }

    /// The outcome of running `rows`, the lines of a script from number
    /// `first` on, in this state.
    pub open spec fn ran(self, rows: Seq<Seq<char>>, first: nat) -> ScriptOutcome
        decreases rows.len(),
    {
        if rows.len() == 0 {
            ScriptOutcome { state: self, failure: None }
        } else {
            match command_in(rows[0]) {
                Ok(command) => self.applied(command).ran(rows.drop_first(), first + 1),
                Err(error) => ScriptOutcome {
                    state: self,
                    failure: Some(ScriptError { line: first as usize, error }),
                },
            }
        }
    }
}

impl System {
    /// Carries out `command`.
    pub fn apply(&mut self, command: Command)
        ensures
            final(self)@ == old(self)@.applied(command),
    {
        match command {
            Command::Nothing => {},
            Command::SetAngle(value) => {
                self.angle = value;
            },
            Command::SetGravity(value) => {
                self.gravity = value;
            },
            Command::SetKineticFriction(value) => {
                self.kfriction_coefficient = value;
            },
            Command::SetStaticFriction(value) => {
                self.sfriction_coefficient = value;
            },
            Command::SetElasticCollisions(value) => {
                self.elastic_collisions = value;
            },
            Command::SetDomainHalfSize(value) => {
                self.domain_half_size = value;
            },
            Command::New(body) => {
                self.bodies.push(body);
            },
        }
    }

    /// Reads one line and carries out its command. A line that cannot be
    /// read leaves the system as it is.
    pub fn run_command(&mut self, line: &str) -> (result: Result<(), CommandError>)
        ensures
            match command_in(line@) {
                Ok(command) => result is Ok && final(self)@ == old(self)@.applied(command),
                Err(error) => result == Err::<(), CommandError>(error) && final(self)@ == old(
                    self,
                )@,
            },
    {
        match Command::parse(line) {
            Ok(command) => {
                self.apply(command);
                Ok(())
            },
            Err(error) => Err(error),
        }
    }

    /// Runs the script `source` line by line and stops at the first line
    /// that fails.
    pub fn run_script(&mut self, source: &str) -> (result: Result<(), ScriptError>)
        ensures
            final(self)@ == old(self)@.ran(lines(source@), 1).state,
            match old(self)@.ran(lines(source@), 1).failure {
                Some(failure) => result == Err::<(), ScriptError>(failure),
                None => result is Ok,
            },
    {
        let chars = chars_of(source);
        let rows = split_lines(chars.as_slice());
        let ghost all = lines(source@);
        let ghost start = self@;
        let mut i: usize = 0;
        assert(all.skip(0) == all);
        while i < rows.len()
            invariant
                i <= rows.len(),
                views(rows@) == all,
                all == lines(source@),
                start == old(self)@,
                start.ran(all, 1) == self@.ran(all.skip(i as int), (i + 1) as nat),
            decreases rows.len() - i,
        {
            let row = rows[i].as_slice();
            proof {
                assert(row@ == views(rows@)[i as int]);
                assert(all.skip(i as int)[0] == row@);
                assert(all.skip(i as int).drop_first() == all.skip(i + 1));
            }
            match Command::read(row) {
                Ok(command) => {
                    self.apply(command);
                },
                Err(error) => {
                    return Err(ScriptError { line: i + 1, error });
                },
            }
            i += 1;
        }
        Ok(())
    }
}

} // verus!
