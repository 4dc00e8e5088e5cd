//! Commands: their typed values, the errors of parsing, and the checks that
//! every parser shares.

pub mod sset;

use self::sset::{parse_sadd, parse_sismember};
use crate::backend::{Backend, StoreMap};
use crate::frame::{bytes_eq, frames_view, FrameView, RespArray, RespFrame};
use crate::text::{decimal, decimal_text, spells, spells_name, text_from_utf8};
use vstd::prelude::*;
use vstd::std_specs::convert::TryFromSpecImpl;
use vstd::utf8::{decode_utf8, valid_utf8};

verus! {

/// Why an array frame is not a command.
#[derive(Debug)]
pub enum CommandError {
    /// The arity is violated, a required position holds the wrong kind of
    /// frame, or a required field is missing. The text names the command
    /// and what was violated.
    InvalidArgument(String),
    /// A field that must be text holds bytes that are not valid UTF-8. The
    /// bytes are handed back.
    EncodingError(Vec<u8>),
}

/// What an error is, as a mathematical value.
pub enum ErrorView {
    InvalidArgument(Seq<char>),
    EncodingError(Seq<u8>),
}

impl View for CommandError {
    type V = ErrorView;

    open spec fn view(&self) -> ErrorView {
        match self {
            CommandError::InvalidArgument(text) => ErrorView::InvalidArgument(text@),
            CommandError::EncodingError(bytes) => ErrorView::EncodingError(bytes@),
        }
    }
}

impl PartialEq for CommandError {
    fn eq(&self, other: &Self) -> (r: bool) {
        match (self, other) {
            (CommandError::InvalidArgument(a), CommandError::InvalidArgument(b)) => *a == *b,
            (CommandError::EncodingError(a), CommandError::EncodingError(b)) => bytes_eq(a, b),
            _ => false,
        }
    }
}

impl vstd::std_specs::cmp::PartialEqSpecImpl for CommandError {
    open spec fn obeys_eq_spec() -> bool {
        true
    }

    open spec fn eq_spec(&self, other: &Self) -> bool {
        self@ == other@
    }
}

impl Eq for CommandError {

}

/// Add values to the set under a key.
#[derive(Debug)]
pub struct SAdd {
    pub key: String,
    pub values: Vec<RespFrame>,
}

/// Test whether a value is in the set under a key.
#[derive(Debug)]
pub struct SIsMember {
    pub key: String,
    pub value: RespFrame,
}

/// One command of any kind.
#[derive(Debug)]
pub enum Command {
    SAdd(SAdd),
    SIsMember(SIsMember),
}

/// What a command is, as a mathematical value.
pub enum CommandView {
    SAdd(SAddView),
    SIsMember(SIsMemberView),
}

/// What an add-to-set command is, as a mathematical value.
pub struct SAddView {
    pub key: Seq<char>,
    pub values: Seq<FrameView>,
}

/// What a membership test is, as a mathematical value.
pub struct SIsMemberView {
    pub key: Seq<char>,
    pub value: FrameView,
}

impl View for SAdd {
    type V = SAddView;

    open spec fn view(&self) -> SAddView {
        SAddView { key: self.key@, values: frames_view(self.values@) }
    }
}

impl SAdd {
    /// Whether the command holds at least one value, as every parsed one
    /// does.
    pub open spec fn well_formed(&self) -> bool {
        self.values.len() >= 1
    }
}

impl View for SIsMember {
    type V = SIsMemberView;

    open spec fn view(&self) -> SIsMemberView {
        SIsMemberView { key: self.key@, value: self.value@ }
    }
}

impl View for Command {
    type V = CommandView;

    open spec fn view(&self) -> CommandView {
        match self {
            Command::SAdd(command) => CommandView::SAdd(command@),
            Command::SIsMember(command) => CommandView::SIsMember(command@),
        }
    }
}

/// A command, applied to the store: it may change the store, and it gives
/// one reply frame. Executing never fails.
pub trait CommandExecutor: Sized {
    /// The reply that the command gives on `store`.
    spec fn reply(&self, store: StoreMap) -> FrameView;

    /// The store that the command leaves where it found `store`.
    spec fn effect(&self, store: StoreMap) -> StoreMap;

    /// Applies the command to the store and hands back its reply.
    fn execute(self, backend: &mut Backend) -> (r: RespFrame)
        ensures
            r@ == self.reply(old(backend)@),
            final(backend)@ == self.effect(old(backend)@),
    ;
}

/// The texts of a run of names.
pub open spec fn names_text(names: Seq<&'static str>) -> Seq<Seq<char>> {
    Seq::new(names.len(), |i: int| names[i]@)
}

/// The words of a command name, with one space between them.
pub open spec fn joined(names: Seq<Seq<char>>) -> Seq<char>
    decreases names.len(),
{
    if names.len() == 0 {
        Seq::empty()
    } else if names.len() == 1 {
        names[0]
    } else {
        joined(names.drop_last()) + seq![' '] + names.last()
    }
}

/// The message for a command with a wrong number of arguments: the command,
/// whether the number is a lower bound ("at least") or exact ("exactly"),
/// and the number.
pub open spec fn arity_message(names: Seq<Seq<char>>, bound: Seq<char>, n_args: nat) -> Seq<char> {
    joined(names) + " command must have "@ + bound + seq![' '] + decimal(n_args) + " argument"@
}

/// The message for a name position that holds another name.
pub open spec fn unexpected_name_message(name: Seq<char>) -> Seq<char> {
    "Invalid command: expected "@ + name
}

/// The message for a name position that holds no bulk string.
pub open spec fn name_kind_message() -> Seq<char> {
    "Command must have a BulkString as the first argument"@
}

/// Whether `frame` is a bulk string that spells `name`, the case of ASCII
/// letters set aside.
pub open spec fn spelled_by(frame: FrameView, name: Seq<char>) -> bool {
    frame matches FrameView::BulkString(given) && spells(given, name)
}

/// Whether the frames of `array` from position `from` on spell the words of
/// `names` from that position on, and if not, the error of the first
/// position that does not.
pub open spec fn names_checked(array: Seq<FrameView>, names: Seq<Seq<char>>, from: int) -> Result<
    (),
    ErrorView,
>
    decreases names.len() - from,
{
    if from < 0 || from >= names.len() {
        Ok(())
    } else {
        match array[from] {
            FrameView::BulkString(given) => if spells(given, names[from]) {
                names_checked(array, names, from + 1)
            } else {
                Err(ErrorView::InvalidArgument(unexpected_name_message(names[from])))
            },
            _ => Err(ErrorView::InvalidArgument(name_kind_message())),
        }
    }
}

/// Whether `array` is the words of `names` followed by exactly `n_args`
/// arguments, and if not, why: first the count, then the names in order.
pub open spec fn validated(array: Seq<FrameView>, names: Seq<Seq<char>>, n_args: nat) -> Result<
    (),
    ErrorView,
> {
    if array.len() != names.len() + n_args {
        Err(ErrorView::InvalidArgument(arity_message(names, "exactly"@, n_args)))
    } else {
        names_checked(array, names, 0)
    }
}

/// The key that a frame in key position gives: the text that the bytes of
/// a bulk string encode. Bytes that are not valid UTF-8 are an encoding
/// error; any other kind of frame is an invalid argument with the message
/// `otherwise`.
pub open spec fn key_text(frame: FrameView, otherwise: Seq<char>) -> Result<Seq<char>, ErrorView> {
    match frame {
        FrameView::BulkString(bytes) => if valid_utf8(bytes) {
            Ok(decode_utf8(bytes))
        } else {
            Err(ErrorView::EncodingError(bytes))
        },
        _ => Err(ErrorView::InvalidArgument(otherwise)),
    }
}

/// Reads the key out of the frame in key position, as [`key_text`] says.
pub fn key_from(frame: RespFrame, otherwise: &str) -> (r: Result<String, CommandError>)
    ensures
        match r {
            Ok(text) => key_text(frame@, otherwise@) == Ok::<Seq<char>, ErrorView>(text@),
            Err(e) => key_text(frame@, otherwise@) == Err::<Seq<char>, ErrorView>(e@),
        },
{
    match frame {
        RespFrame::BulkString(key) => {
            let bytes = key.0.clone();
            match text_from_utf8(key.0) {
                Some(text) => Ok(text),
                None => Err(CommandError::EncodingError(bytes)),
            }
        },
        _ => Err(CommandError::InvalidArgument(String::from_str(otherwise))),
    }
}

/// The words of a command name in one text, with one space between them.
pub fn join_names(names: &[&'static str]) -> (r: String)
    ensures
        r@ == joined(names_text(names@)),
{
    let mut text = String::new();
    let mut i: usize = 0;
    while i < names.len()
        invariant
            i <= names.len(),
            text@ == joined(names_text(names@).take(i as int)),
        decreases names.len() - i,
    {
        let ghost done = names_text(names@).take(i as int);
        let ghost next = names_text(names@).take(i + 1);
        assert(next.drop_last() =~= done);
        if i > 0 {
            proof {
                reveal_strlit(" ");
            }
            text.append(" ");
        }
        text.append(names[i]);
        i += 1;
    }
    assert(names_text(names@).take(names.len() as int) =~= names_text(names@));
    text
}

/// Renders [`arity_message`].
pub fn arity_message_text(names: &[&'static str], bound: &str, n_args: usize) -> (r: String)
    ensures
        r@ == arity_message(names_text(names@), bound@, n_args as nat),
{
    let mut text = join_names(names);
    text.append(" command must have ");
    text.append(bound);
    proof {
        reveal_strlit(" ");
    }
    text.append(" ");
    let number = decimal_text(n_args);
    text.append(number.as_str());
    text.append(" argument");
    text
}

/// Checks that `value` is the words of `names` followed by exactly `n_args`
/// arguments. Each name position must hold a bulk string that spells the
/// word, the case of ASCII letters set aside.
pub fn validate_command(value: &RespArray, names: &[&'static str], n_args: usize) -> (r: Result<
    (),
    CommandError,
>)
    ensures
        match r {
            Ok(_) => validated(value@, names_text(names@), n_args as nat) is Ok,
            Err(e) => validated(value@, names_text(names@), n_args as nat) == Err::<(), ErrorView>(
                e@,
            ),
        },
{
    if value.len() < names.len() || value.len() - names.len() != n_args {
        return Err(CommandError::InvalidArgument(arity_message_text(names, "exactly", n_args)));
    }
    let ghost array = value@;
    let ghost words = names_text(names@);
    let mut i: usize = 0;
    while i < names.len()
        invariant
            array == value@,
            words == names_text(names@),
            i <= names.len(),
            array.len() == words.len() + n_args,
            names_checked(array, words, 0) == names_checked(array, words, i as int),
        decreases names.len() - i,
    {
        match &value.0[i] {
            RespFrame::BulkString(given) => {
                if !spells_name(&given.0, names[i]) {
                    let mut text = String::from_str("Invalid command: expected ");
                    text.append(names[i]);
                    return Err(CommandError::InvalidArgument(text));
                }
            },
            _ => {
                return Err(
                    CommandError::InvalidArgument(
                        String::from_str("Command must have a BulkString as the first argument"),
                    ),
                );
            },
        }
        i += 1;
    }
    Ok(())
}

/// The arguments of a command: the frames of `value` from position `start`
/// on. Past the end there are none.
pub fn extract_args(value: RespArray, start: usize) -> (r: Result<Vec<RespFrame>, CommandError>)
    ensures
        r matches Ok(args) && frames_view(args@) == if start <= value@.len() {
            value@.skip(start as int)
        } else {
            Seq::empty()
        },
{
    let mut frames = value.0;
    if start > frames.len() {
        return Ok(Vec::new());
    }
    Ok(frames.split_off(start))
}

/// The message for a name that is no command of this layer.
pub open spec fn unknown_command_message() -> Seq<char> {
    "Unknown command"@
}

/// What an array frame means as a command. The first frame selects the
/// kind: it must be a bulk string that spells the name of a command, the
/// case of ASCII letters set aside. The parser of that kind decides the
/// rest.
pub open spec fn parse_command(array: Seq<FrameView>) -> Result<CommandView, ErrorView> {
    if array.len() == 0 {
        Err(ErrorView::InvalidArgument(name_kind_message()))
    } else {
        match array[0] {
            FrameView::BulkString(name) => if spells(name, "sadd"@) {
                match parse_sadd(array) {
                    Ok(command) => Ok(CommandView::SAdd(command)),
                    Err(e) => Err(e),
                }
            } else if spells(name, "sismember"@) {
                match parse_sismember(array) {
                    Ok(command) => Ok(CommandView::SIsMember(command)),
                    Err(e) => Err(e),
                }
            } else {
                Err(ErrorView::InvalidArgument(unknown_command_message()))
            },
            _ => Err(ErrorView::InvalidArgument(name_kind_message())),
        }
    }
}

impl CommandExecutor for Command {
    open spec fn reply(&self, store: StoreMap) -> FrameView {
        match self {
            Command::SAdd(command) => command.reply(store),
            Command::SIsMember(command) => command.reply(store),
        }
    }

    open spec fn effect(&self, store: StoreMap) -> StoreMap {
        match self {
            Command::SAdd(command) => command.effect(store),
            Command::SIsMember(command) => command.effect(store),
        }
    }

    /// Executes the command as its kind does.
    fn execute(self, backend: &mut Backend) -> (r: RespFrame) {
        match self {
            Command::SAdd(command) => command.execute(backend),
            Command::SIsMember(command) => command.execute(backend),
        }
    }
}

/// The contract of `try_from` stands on the function itself and speaks of
/// views; no result is named over the values themselves.
impl TryFromSpecImpl<RespArray> for Command {
    open spec fn obeys_try_from_spec() -> bool {
        false
    }

    open spec fn try_from_spec(value: RespArray) -> Result<Self, Self::Error> {
        arbitrary()
    }
}

impl TryFrom<RespArray> for Command {
    type Error = CommandError;

    /// Parses a command of any kind, as [`parse_command`] says.
    fn try_from(value: RespArray) -> (r: Result<Self, Self::Error>)
        ensures
            match r {
                Ok(command) => parse_command(value@) == Ok::<CommandView, ErrorView>(command@),
                Err(e) => parse_command(value@) == Err::<CommandView, ErrorView>(e@),
            },
    {
        if value.len() == 0 {
            return Err(
                CommandError::InvalidArgument(
                    String::from_str("Command must have a BulkString as the first argument"),
                ),
            );
        }
        let (is_sadd, is_sismember) = match &value.0[0] {
            RespFrame::BulkString(name) => (
                spells_name(&name.0, "sadd"),
                spells_name(&name.0, "sismember"),
            ),
            _ => {
                return Err(
                    CommandError::InvalidArgument(
                        String::from_str("Command must have a BulkString as the first argument"),
                    ),
                );
            },
        };
        if is_sadd {
            Ok(Command::SAdd(SAdd::try_from(value)?))
        } else if is_sismember {
            Ok(Command::SIsMember(SIsMember::try_from(value)?))
        } else {
            Err(CommandError::InvalidArgument(String::from_str("Unknown command")))
        }
    }
}

} // verus!
