//! What holds of the driver as a whole.
//!
//! Each law is a proof over the same values that the contracts of the
//! operations speak of.

use vstd::prelude::*;
use vstd::string::StringSliceAdditionalSpecFns;
use crate::device::{CallModel, ConfigSlot, NativeReply, Outcome, Pending, Session};
use crate::marshal::{
    bool_bytes, c_text, int_bytes, int_word, is_c_string, word_bytes, word_int, word_value,
};
use crate::property::{LidarProperty, ValueKind};
use crate::scan::LaserFan;

verus! {

/// One thing that happens to a session.
pub ghost enum Move<'a> {
    /// An operation other than the setting of an option begins, and the
    /// session waits on its call.
    Begin(Pending),
    /// The setting of an option begins.
    Configure(LidarProperty<'a>),
    /// The reply to a call comes in.
    Reply(NativeReply),
}

impl<'a> Move<'a> {
    /// Whether the move replaces what the given buffer holds.
    pub open spec fn rewrites(self, slot: ConfigSlot) -> bool {
        match self {
            Move::Configure(prop) => prop.slot() == Some(slot),
            _ => false,
        }
    }
}

impl Session {
    /// The session after one move.
    pub open spec fn moved(self, m: Move) -> Session {
        match m {
            Move::Begin(pending) => self.awaiting(pending),
            Move::Configure(prop) => self.setting(prop),
            Move::Reply(reply) => self.resumed(reply),
        }
    }

    /// The session after a run of moves, the first of them first.
    pub open spec fn run(self, moves: Seq<Move>) -> Session
        decreases moves.len(),
    {
        if moves.len() == 0 {
            self
        } else {
            self.run(moves.drop_last()).moved(moves.last())
        }
    }
}

/// A word's four bytes spell that word again.
pub proof fn lemma_word_reads_back(w: u32)
    ensures
        word_bytes(w).len() == 4,
        word_value(word_bytes(w)) == w,
{
}

/// An integer option takes four bytes, and the integer read back from them
/// is the one that was written.
pub proof fn lemma_int_reads_back(v: i32)
    ensures
        int_bytes(v).len() == 4,
        word_int(word_value(int_bytes(v)) as u32) == v,
{
    lemma_word_reads_back(int_word(v));
}

/// A boolean option takes one byte, which is zero exactly for false.
pub proof fn lemma_bool_reads_back(b: bool)
    ensures
        bool_bytes(b).len() == 1,
        (bool_bytes(b)[0] != 0) == b,
{
}

/// Whatever option is set, the device reads the bytes of its value and no
/// others: through the call itself for an integer, a float or a boolean,
/// through the session's buffer for a string. The call names the option's
/// own place in the table, and the length it states is the value's width:
/// four bytes for an integer or a float, one for a boolean, the string's
/// length without its terminator for a string.
pub proof fn lemma_option_reads_back(s: Session, prop: LidarProperty)
    requires
        prop.is_settable(),
    ensures
        s.setting(prop).read_through(prop.setting_call()) == prop.value_bytes(),
        prop.setting_call() matches CallModel::SetOption { index, len, .. } && index
            == prop.spec_index() && index.spec_kind() == prop.carried_kind() && len
            == prop.value_bytes().len(),
        prop.carried_kind() == ValueKind::Int ==> prop.value_bytes().len() == 4,
        prop.carried_kind() == ValueKind::Float ==> prop.value_bytes().len() == 4,
        prop.carried_kind() == ValueKind::Bool ==> prop.value_bytes().len() == 1,
        prop.carried_kind().spec_width() matches Some(width) ==> prop.value_bytes().len() == width,
{
    let bytes = prop.value_bytes();
    assert(bytes.take(bytes.len() as int) =~= bytes);
    assert(c_text(bytes).take(bytes.len() as int) =~= bytes);
}

/// Setting an option keeps the session well formed: a buffer that was
/// replaced holds the new string and its terminator.
pub proof fn lemma_setting_keeps_buffers_sound(s: Session, prop: LidarProperty)
    requires
        s.wf(),
        prop.is_settable(),
    ensures
        s.setting(prop).wf(),
        prop.slot() matches Some(slot) ==> s.setting(prop).buffer(slot) == c_text(
            prop.value_bytes(),
        ),
{
    let bytes = prop.value_bytes();
    assert(c_text(bytes).drop_last() =~= bytes);
}

/// No move but the setting of a string option touches that option's buffer.
pub proof fn lemma_buffer_outlasts_move(s: Session, m: Move, slot: ConfigSlot)
    requires
        !m.rewrites(slot),
    ensures
        s.moved(m).buffer(slot) == s.buffer(slot),
{
}

/// A buffer holds what it held through any run of moves that does not set
/// its option again.
pub proof fn lemma_buffer_outlasts_run(s: Session, moves: Seq<Move>, slot: ConfigSlot)
    requires
        forall|i: int| 0 <= i < moves.len() ==> !(#[trigger] moves[i]).rewrites(slot),
    ensures
        s.run(moves).buffer(slot) == s.buffer(slot),
    decreases moves.len(),
{
    if moves.len() > 0 {
        lemma_buffer_outlasts_run(s, moves.drop_last(), slot);
        lemma_buffer_outlasts_move(s.run(moves.drop_last()), moves.last(), slot);
    }
}

/// When the serial port is set twice, the device reads the second string
/// from then on, whatever happens next short of setting it a third time:
/// the buffer holds the second string and its terminator, and nothing of
/// the first. That is so up to the end of the session: the buffer that is
/// held while the handle is destroyed still holds the second string.
pub proof fn lemma_latest_port_is_read(s: Session, first: &str, second: &str, then: Seq<Move>)
    requires
        forall|i: int| 0 <= i < then.len() ==> !(#[trigger] then[i]).rewrites(ConfigSlot::SerialPort),
    ensures
        s.setting(LidarProperty::SerialPort(first)).setting(LidarProperty::SerialPort(second)).run(
            then,
        ).buffer(ConfigSlot::SerialPort) == c_text(second.spec_bytes()),
        s.setting(LidarProperty::SerialPort(first)).setting(LidarProperty::SerialPort(second)).run(
            then,
        ).released().1 == c_text(second.spec_bytes()),
{
    let twice = s.setting(LidarProperty::SerialPort(first)).setting(
        LidarProperty::SerialPort(second),
    );
    lemma_buffer_outlasts_run(twice, then, ConfigSlot::SerialPort);
}

/// The same for the ignore array.
pub proof fn lemma_latest_ignore_array_is_read(
    s: Session,
    first: &str,
    second: &str,
    then: Seq<Move>,
)
    requires
        forall|i: int| 0 <= i < then.len() ==> !(#[trigger] then[i]).rewrites(ConfigSlot::IgnoreArray),
    ensures
        s.setting(LidarProperty::IgnoreArray(first)).setting(
            LidarProperty::IgnoreArray(second),
        ).run(then).buffer(ConfigSlot::IgnoreArray) == c_text(second.spec_bytes()),
        s.setting(LidarProperty::IgnoreArray(first)).setting(
            LidarProperty::IgnoreArray(second),
        ).run(then).released().2 == c_text(second.spec_bytes()),
{
    let twice = s.setting(LidarProperty::IgnoreArray(first)).setting(
        LidarProperty::IgnoreArray(second),
    );
    lemma_buffer_outlasts_run(twice, then, ConfigSlot::IgnoreArray);
}

/// The handle is destroyed with both buffers as they stand: the end of a
/// session hands out what each buffer held last, and in a well-formed
/// session each is a C string.
pub proof fn lemma_buffers_outlast_the_handle(s: Session)
    requires
        s.wf(),
    ensures
        s.released().0 == CallModel::Destroy,
        s.released().1 == s.buffer(ConfigSlot::SerialPort),
        s.released().2 == s.buffer(ConfigSlot::IgnoreArray),
        is_c_string(s.released().1),
        is_c_string(s.released().2),
{
}

/// Every move keeps a session well formed, so long as the strings that are
/// set have no zero byte inside.
pub proof fn lemma_run_keeps_buffers_sound(s: Session, moves: Seq<Move>)
    requires
        s.wf(),
        forall|i: int|
            0 <= i < moves.len() ==> (#[trigger] moves[i] matches Move::Configure(prop)
                ==> prop.is_settable()),
    ensures
        s.run(moves).wf(),
    decreases moves.len(),
{
    if moves.len() > 0 {
        lemma_run_keeps_buffers_sound(s, moves.drop_last());
        let before = s.run(moves.drop_last());
        match moves.last() {
            Move::Configure(prop) => {
                lemma_setting_keeps_buffers_sound(before, prop);
            },
            _ => {},
        }
    }
}

/// A scan that was fetched has as many points as the device library
/// counted, each of them the record at the same place in its buffer, and
/// the descriptor's time stamp.
pub proof fn lemma_scan_keeps_count_and_order(s: Session, fan: LaserFan)
    requires
        s.step(NativeReply::Scan(fan)) is Scanned,
    ensures
        s.step(NativeReply::Scan(fan)) matches Outcome::Scanned(scan) && scan.stamp == fan.stamp
            && scan.points.len() == fan.npoints && forall|i: int|
            0 <= i < fan.npoints ==> scan.points[i] == fan.points@[i],
{
}

/// A session yields a scan only on a descriptor that came with success,
/// and only while it waits on one.
pub proof fn lemma_scan_needs_success(s: Session, reply: NativeReply)
    requires
        s.step(reply) is Scanned,
    ensures
        s.pending == Pending::Scan,
        reply is Scan,
{
}

/// When fetching a scan fails, the description is asked for, and what comes
/// back is the error: no scan is yielded on the way.
pub proof fn lemma_failed_scan_is_an_error(s: Session, description: String)
    requires
        s.pending == Pending::Scan,
    ensures
        s.step(NativeReply::Flag(false)) == Outcome::Call(CallModel::DescribeError),
        s.resumed(NativeReply::Flag(false)).step(NativeReply::Text(description))
            == Outcome::Failed(description@),
        s.resumed(NativeReply::Flag(false)).resumed(NativeReply::Text(description)).pending
            == Pending::Idle,
{
}

/// The description is asked for after a failure and at no other time.
pub proof fn lemma_description_follows_failure(s: Session, reply: NativeReply)
    ensures
        s.step(reply) is Call <==> reply == NativeReply::Flag(false) && (s.pending == Pending::Flag
            || s.pending == Pending::Scan),
        s.step(reply) is Call ==> s.step(reply) == Outcome::Call(CallModel::DescribeError),
        s.step(reply) is Failed ==> s.pending == Pending::Text,
{
}

/// Nothing that happens within a session asks for the handle to be
/// destroyed: neither the setting of an option nor any reply.
pub proof fn lemma_session_never_destroys(s: Session, prop: LidarProperty, reply: NativeReply)
    ensures
        prop.setting_call() != CallModel::Destroy,
        s.step(reply) != Outcome::Call(CallModel::Destroy),
{
}

} // verus!
