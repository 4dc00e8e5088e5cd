//! The set commands: adding values to the set under a key, and testing
//! whether a value is in it.

use super::{
    arity_message, arity_message_text, extract_args, key_from, key_text, names_checked,
    spelled_by, validate_command, validated, CommandError, CommandExecutor, ErrorView, SAdd,
    SAddView, SIsMember, SIsMemberView,
};
use crate::backend::{insert_many, members_at, value_set, Backend, StoreMap};
use crate::frame::{contains_frame, frames_view, FrameView, RespArray, RespFrame};
use vstd::prelude::*;
use vstd::std_specs::convert::TryFromSpecImpl;
use vstd::utf8::{decode_utf8, valid_utf8};

verus! {

/// The name of the add-to-set command.
pub open spec fn sadd_name() -> Seq<Seq<char>> {
    seq!["sadd"@]
}

/// The name of the membership test.
pub open spec fn sismember_name() -> Seq<Seq<char>> {
    seq!["sismember"@]
}

/// What an array frame means as an add-to-set command: the name, the key,
/// and at least one value. All frames after the key are the values, taken
/// as they are.
pub open spec fn parse_sadd(array: Seq<FrameView>) -> Result<SAddView, ErrorView> {
    if array.len() < 3 {
        Err(ErrorView::InvalidArgument(arity_message(sadd_name(), "at least"@, 2)))
    } else {
        match names_checked(array, sadd_name(), 0) {
            Err(e) => Err(e),
            Ok(_) => match key_text(array[1], "Invalid key"@) {
                Err(e) => Err(e),
                Ok(key) => Ok(SAddView { key, values: array.skip(2) }),
            },
        }
    }
}

/// What an array frame means as a membership test: the name, the key and
/// one value, no more and no less.
pub open spec fn parse_sismember(array: Seq<FrameView>) -> Result<SIsMemberView, ErrorView> {
    match validated(array, sismember_name(), 2) {
        Err(e) => Err(e),
        Ok(_) => match key_text(array[1], "Invalid key, field or value"@) {
            Err(e) => Err(e),
            Ok(key) => Ok(SIsMemberView { key, value: array[2] }),
        },
    }
}

/// The reply to an add-to-set command with `count` values: the count as an
/// integer frame. A count that no `i64` holds wraps round, as the cast does.
pub open spec fn count_reply(count: usize) -> FrameView {
    FrameView::Integer(count as i64 as int)
}

/// The reply to a membership test: one if the value is in the set under the
/// key, zero if it is not or there is no such key.
pub open spec fn member_reply(store: StoreMap, key: Seq<char>, value: FrameView) -> FrameView {
    if members_at(store, key).contains(value) {
        FrameView::Integer(1)
    } else {
        FrameView::Integer(0)
    }
}

impl CommandExecutor for SAdd {
    open spec fn reply(&self, store: StoreMap) -> FrameView {
        count_reply(self.values.len())
    }

    open spec fn effect(&self, store: StoreMap) -> StoreMap {
        insert_many(store, self.key@, frames_view(self.values@))
    }

    /// Puts the values into the set under the key and replies with the
    /// number of values in the command, whether or not the set held any of
    /// them before. What [`CommandExecutor::execute`] promises of every
    /// command holds here with the `reply` and `effect` above.
    fn execute(self, backend: &mut Backend) -> (r: RespFrame)
        ensures
            self.values.len() <= i64::MAX ==> r@ == FrameView::Integer(self.values.len() as int),
    {
        let count = self.values.len();
        backend.sset(self.key, self.values);
        RespFrame::Integer(count as i64)
    }
}

impl CommandExecutor for SIsMember {
    open spec fn reply(&self, store: StoreMap) -> FrameView {
        member_reply(store, self.key@, self.value@)
    }

    open spec fn effect(&self, store: StoreMap) -> StoreMap {
        store
    }

    /// Replies one if the value is in the set under the key, else zero. The
    /// store stays as it is. What [`CommandExecutor::execute`] promises of
    /// every command holds here with the `reply` and `effect` above.
    fn execute(self, backend: &mut Backend) -> (r: RespFrame)
        ensures
            final(backend)@ == old(backend)@,
            r@ == FrameView::Integer(1) || r@ == FrameView::Integer(0),
            !old(backend)@.dom().contains(self.key@) ==> r@ == FrameView::Integer(0),
    {
        let found = match backend.sget(&self.key) {
            Some(members) => contains_frame(&members, &self.value),
            None => false,
        };
        if found {
            RespFrame::Integer(1)
        } else {
            RespFrame::Integer(0)
        }
    }
}

/// The contract of `try_from` stands on the function itself and speaks of
/// views; no result is named over the values themselves.
impl TryFromSpecImpl<RespArray> for SAdd {
    open spec fn obeys_try_from_spec() -> bool {
        false
    }

    open spec fn try_from_spec(value: RespArray) -> Result<Self, Self::Error> {
        arbitrary()
    }
}

impl TryFrom<RespArray> for SAdd {
    type Error = CommandError;

    /// Parses an add-to-set command, as [`parse_sadd`] says.
    fn try_from(value: RespArray) -> (r: Result<Self, Self::Error>)
        ensures
            match r {
                Ok(command) => parse_sadd(value@) == Ok::<SAddView, ErrorView>(command@)
                    && command.well_formed(),
                Err(e) => parse_sadd(value@) == Err::<SAddView, ErrorView>(e@),
            },
            value@.len() < 3 ==> r matches Err(CommandError::InvalidArgument(_)),
            r matches Ok(command) ==> command.values.len() == value@.len() - 2,
            value@.len() >= 3 && spelled_by(value@[0], "sadd"@) ==> match value@[1] {
                FrameView::BulkString(key) => if valid_utf8(key) {
                    r is Ok
                } else {
                    r matches Err(CommandError::EncodingError(_))
                },
                _ => r matches Err(CommandError::InvalidArgument(_)),
            },
    {
        proof {
            reveal_with_fuel(names_checked, 2);
        }
        let names = ["sadd"];
        assert(super::names_text(names@) =~= sadd_name());
        if value.len() < 3 {
            return Err(
                CommandError::InvalidArgument(arity_message_text(names.as_slice(), "at least", 2)),
            );
        }
        let ghost array = value@;
        validate_command(&value, names.as_slice(), value.len() - names.len())?;
        let mut args = extract_args(value, 1)?;
        let ghost rest = frames_view(args@);
        assert(args.len() == rest.len());
        let values = args.split_off(1);
        assert forall|j: int| 0 <= j < values.len() implies frames_view(values@)[j] == array.skip(
            2,
        )[j] by {
            assert(rest[j + 1] == array.skip(1)[j + 1]);
        }
        assert(frames_view(values@) =~= array.skip(2));
        let first = args.pop().unwrap();
        assert(first@ == array[1]) by {
            assert(rest[0] == array[1]);
        }
        let key = key_from(first, "Invalid key")?;
        Ok(SAdd { key, values })
    }
}

/// The contract of `try_from` stands on the function itself and speaks of
/// views; no result is named over the values themselves.
impl TryFromSpecImpl<RespArray> for SIsMember {
    open spec fn obeys_try_from_spec() -> bool {
        false
    }

    open spec fn try_from_spec(value: RespArray) -> Result<Self, Self::Error> {
        arbitrary()
    }
}

impl TryFrom<RespArray> for SIsMember {
    type Error = CommandError;

    /// Parses a membership test, as [`parse_sismember`] says.
    fn try_from(value: RespArray) -> (r: Result<Self, Self::Error>)
        ensures
            match r {
                Ok(command) => parse_sismember(value@) == Ok::<SIsMemberView, ErrorView>(command@),
                Err(e) => parse_sismember(value@) == Err::<SIsMemberView, ErrorView>(e@),
            },
            value@.len() != 3 ==> r matches Err(CommandError::InvalidArgument(_)),
            value@.len() == 3 && spelled_by(value@[0], "sismember"@) ==> match value@[1] {
                FrameView::BulkString(key) => if valid_utf8(key) {
                    r is Ok
                } else {
                    r matches Err(CommandError::EncodingError(_))
                },
                _ => r matches Err(CommandError::InvalidArgument(_)),
            },
    {
        proof {
            reveal_with_fuel(names_checked, 2);
        }
        let names = ["sismember"];
        assert(super::names_text(names@) =~= sismember_name());
        let ghost array = value@;
        validate_command(&value, names.as_slice(), 2)?;
        let mut args = extract_args(value, 1)?;
        let ghost rest = frames_view(args@);
        assert(args.len() == rest.len());
        let second = args.pop().unwrap();
        let first = args.pop().unwrap();
        assert(second@ == array[2]) by {
            assert(rest[1] == array[2]);
        }
        assert(first@ == array[1]) by {
            assert(rest[0] == array[1]);
        }
        let key = key_from(first, "Invalid key, field or value")?;
        Ok(SIsMember { key, value: second })
    }
}

/// An array of fewer than three frames is never an add-to-set command,
/// whatever it holds: parsing fails with an invalid argument that names the
/// command and the two arguments it needs at least.
pub proof fn law_sadd_needs_three_frames(array: Seq<FrameView>)
    requires
        array.len() < 3,
    ensures
        parse_sadd(array) == Err::<SAddView, ErrorView>(
            ErrorView::InvalidArgument(arity_message(sadd_name(), "at least"@, 2)),
        ),
{
}

/// An array of three frames or more whose first frame spells the command
/// name and whose second is a bulk string of valid UTF-8 is an add-to-set
/// command: the key is the text of the second frame, and the values are all
/// the frames after it, two fewer than the array holds.
pub proof fn law_sadd_parses(array: Seq<FrameView>, key: Seq<u8>)
    requires
        array.len() >= 3,
        spelled_by(array[0], "sadd"@),
        array[1] == FrameView::BulkString(key),
        valid_utf8(key),
    ensures
        parse_sadd(array) == Ok::<SAddView, ErrorView>(
            SAddView { key: decode_utf8(key), values: array.skip(2) },
        ),
        array.skip(2).len() == array.len() - 2,
{
    reveal_with_fuel(names_checked, 2);
}

/// An array that does not hold exactly three frames is never a membership
/// test, whatever it holds: parsing fails with an invalid argument that
/// names the command and the two arguments it needs.
pub proof fn law_sismember_needs_three_frames(array: Seq<FrameView>)
    requires
        array.len() != 3,
    ensures
        parse_sismember(array) == Err::<SIsMemberView, ErrorView>(
            ErrorView::InvalidArgument(arity_message(sismember_name(), "exactly"@, 2)),
        ),
{
}

/// An array of exactly three frames whose first frame spells the command
/// name and whose second is a bulk string of valid UTF-8 is a membership
/// test: the key is the text of the second frame, and the one value is the
/// third frame.
pub proof fn law_sismember_parses(array: Seq<FrameView>, key: Seq<u8>)
    requires
        array.len() == 3,
        spelled_by(array[0], "sismember"@),
        array[1] == FrameView::BulkString(key),
        valid_utf8(key),
    ensures
        parse_sismember(array) == Ok::<SIsMemberView, ErrorView>(
            SIsMemberView { key: decode_utf8(key), value: array[2] },
        ),
{
    reveal_with_fuel(names_checked, 2);
}

/// A key whose bytes are not valid UTF-8 makes an add-to-set command fail
/// with an encoding error that holds those bytes, not with an invalid
/// argument.
pub proof fn law_sadd_key_must_be_text(array: Seq<FrameView>, key: Seq<u8>)
    requires
        array.len() >= 3,
        spelled_by(array[0], "sadd"@),
        array[1] == FrameView::BulkString(key),
        !valid_utf8(key),
    ensures
        parse_sadd(array) == Err::<SAddView, ErrorView>(ErrorView::EncodingError(key)),
{
    reveal_with_fuel(names_checked, 2);
}

/// A key whose bytes are not valid UTF-8 makes a membership test fail with
/// an encoding error that holds those bytes, not with an invalid argument.
pub proof fn law_sismember_key_must_be_text(array: Seq<FrameView>, key: Seq<u8>)
    requires
        array.len() == 3,
        spelled_by(array[0], "sismember"@),
        array[1] == FrameView::BulkString(key),
        !valid_utf8(key),
    ensures
        parse_sismember(array) == Err::<SIsMemberView, ErrorView>(ErrorView::EncodingError(key)),
{
    reveal_with_fuel(names_checked, 2);
}

/// After an add-to-set command has run on any store, a membership test
/// under the same key replies one exactly for the values of the command
/// and for those that the set held before, and zero for every other value.
pub proof fn law_member_after_add(add: SAdd, test: SIsMember, store: StoreMap)
    requires
        test.key@ == add.key@,
    ensures
        test.reply(add.effect(store)) == if frames_view(add.values@).contains(test.value@)
            || members_at(store, add.key@).contains(test.value@) {
            FrameView::Integer(1)
        } else {
            FrameView::Integer(0)
        },
{
}

/// On a fresh store, a membership test that follows an add-to-set command
/// under the same key replies one for each value of the command and zero
/// for every other value.
pub proof fn law_member_after_add_on_fresh_store(add: SAdd, test: SIsMember)
    requires
        test.key@ == add.key@,
    ensures
        frames_view(add.values@).contains(test.value@) ==> test.reply(
            add.effect(Map::<Seq<char>, Set<FrameView>>::empty()),
        ) == FrameView::Integer(1),
        !frames_view(add.values@).contains(test.value@) ==> test.reply(
            add.effect(Map::<Seq<char>, Set<FrameView>>::empty()),
        ) == FrameView::Integer(0),
{
    law_member_after_add(add, test, Map::<Seq<char>, Set<FrameView>>::empty());
}

/// Adding the same values under the same key a second time leaves the store
/// as the first time left it: the set holds each value once.
pub proof fn law_add_again_changes_nothing(add: SAdd, again: SAdd, store: StoreMap)
    requires
        again@ == add@,
    ensures
        again.effect(add.effect(store)) == add.effect(store),
{
    let once = add.effect(store);
    assert(members_at(once, add.key@).union(value_set(frames_view(add.values@))) =~= members_at(
        once,
        add.key@,
    ));
    assert(again.effect(once) =~= once);
}

/// An add-to-set command replies with the number of values it holds,
/// whatever the store held before: values that were already in the set, or
/// that occur twice in the command, count too. This holds of every count
/// that an `i64` can hold.
pub proof fn law_add_counts_its_values(add: SAdd, store: StoreMap)
    requires
        add.values.len() <= i64::MAX,
    ensures
        add.reply(store) == FrameView::Integer(add.values.len() as int),
{
}

/// A membership test under a key that does not exist replies zero and
/// leaves the store as it is. On a fresh store that is every key.
pub proof fn law_absent_key_has_no_members(test: SIsMember, store: StoreMap)
    requires
        !store.dom().contains(test.key@),
    ensures
        test.reply(store) == FrameView::Integer(0),
        test.effect(store) == store,
        test.reply(Map::<Seq<char>, Set<FrameView>>::empty()) == FrameView::Integer(0),
{
}

} // verus!
