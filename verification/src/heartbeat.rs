//! The heartbeat: the snapshot of one period as the reporting interface takes it.

use vstd::prelude::*;
use crate::event::Tally;
use crate::state::InputState;

verus! {

/// `serde_json::Value`: any JSON value. The library only stores such values.
#[verifier::external_type_specification]
#[verifier::external_body]
pub struct ExJsonValue(serde_json::Value);

/// `serde_json::Map`: a JSON object, a map from keys to JSON values.
#[verifier::external_type_specification]
#[verifier::external_body]
#[verifier::reject_recursive_types(K)]
#[verifier::reject_recursive_types(V)]
pub struct ExJsonMap<K, V>(serde_json::Map<K, V>);

/// What a JSON object holds, as far as the heartbeat goes: each key whose value
/// is an unsigned integer, with that integer.
pub uninterp spec fn unsigned_entries(object: serde_json::Map<String, serde_json::Value>) -> Map<
    Seq<char>,
    nat,
>;

/// The keys that a JSON object holds, whatever their values.
pub uninterp spec fn object_keys(object: serde_json::Map<String, serde_json::Value>) -> Set<
    Seq<char>,
>;

/// The entries of an object without any key.
pub open spec fn no_entries() -> Map<Seq<char>, nat> {
    Map::empty()
}

/// The keys of an object without any key.
pub open spec fn no_keys() -> Set<Seq<char>> {
    Set::empty()
}

/// Calls `serde_json::Map::new`, which makes an object without any key.
#[verifier::external_body]
fn empty_object() -> (made: serde_json::Map<String, serde_json::Value>)
    ensures
        unsigned_entries(made) == no_entries(),
        object_keys(made) == no_keys(),
{
    serde_json::Map::new()
}

/// Calls `serde_json::Map::insert` with the key and the JSON number that
/// `number` converts to. Afterwards the key holds that number, whether or not
/// it held anything before, every other key holds what it held, and the object
/// has the keys it had and this one.
#[verifier::external_body]
fn insert_unsigned(
    object: &mut serde_json::Map<String, serde_json::Value>,
    key: &str,
    number: u64,
)
    ensures
        unsigned_entries(*final(object)) == unsigned_entries(*old(object)).insert(
            key@,
            number as nat,
        ),
        object_keys(*final(object)) == object_keys(*old(object)).insert(key@),
{
    object.insert(key.to_string(), serde_json::Value::Number(number.into()));
}

/// A point of wall-clock time: whole seconds since the Unix epoch, and the
/// nanoseconds into that second.
#[derive(Clone, Copy, Debug, PartialEq, Eq, Structural)]
pub struct Timestamp {
    pub secs: i64,
    pub nanos: u32,
}

/// The report of one period: when the period began, how long it is in seconds,
/// and the six counters under their field names.
#[derive(Debug)]
pub struct HeartbeatEvent {
    pub timestamp: Timestamp,
    pub duration_secs: u64,
    pub data: serde_json::Map<String, serde_json::Value>,
}

/// The model of a [`HeartbeatEvent`].
pub ghost struct HeartbeatModel {
    pub timestamp: Timestamp,
    pub duration_secs: nat,
    pub data: Map<Seq<char>, nat>,
}

impl View for HeartbeatEvent {
    type V = HeartbeatModel;

    open spec fn view(&self) -> HeartbeatModel {
        HeartbeatModel {
            timestamp: self.timestamp,
            duration_secs: self.duration_secs as nat,
            data: unsigned_entries(self.data),
        }
    }
}

/// The data of a heartbeat for the counts `tally`: six fields, one for each
/// counter.
pub open spec fn fields_of(tally: Tally) -> Map<Seq<char>, nat> {
    Map::<Seq<char>, nat>::empty().insert("presses"@, tally.presses).insert(
        "clicks"@,
        tally.clicks,
    ).insert("deltaX"@, tally.delta_x).insert("deltaY"@, tally.delta_y).insert(
        "scrollX"@,
        tally.scroll_x,
    ).insert("scrollY"@, tally.scroll_y)
}

/// The names of the six fields.
pub open spec fn field_names() -> Set<Seq<char>> {
    set!["presses"@, "clicks"@, "deltaX"@, "deltaY"@, "scrollX"@, "scrollY"@]
}

/// The data of the heartbeat that reports `snapshot`: an object of exactly six
/// keys, each holding its counter.
pub fn payload(snapshot: &InputState) -> (data: serde_json::Map<String, serde_json::Value>)
    ensures
        unsigned_entries(data) == fields_of(snapshot@.tally),
        object_keys(data) == field_names(),
{
    let mut data = empty_object();
    insert_unsigned(&mut data, "presses", snapshot.presses);
    insert_unsigned(&mut data, "clicks", snapshot.clicks);
    insert_unsigned(&mut data, "deltaX", snapshot.delta_x);
    insert_unsigned(&mut data, "deltaY", snapshot.delta_y);
    insert_unsigned(&mut data, "scrollX", snapshot.scroll_x);
    insert_unsigned(&mut data, "scrollY", snapshot.scroll_y);
    assert(object_keys(data) =~= field_names());
    data
}

/// Builds the heartbeat of the period that began at `timestamp`: its duration
/// is the polling interval and its data are the drained counters.
pub fn build_event(timestamp: Timestamp, interval_secs: u64, snapshot: &InputState) -> (event:
    HeartbeatEvent)
    ensures
        event@ == (HeartbeatModel {
            timestamp,
            duration_secs: interval_secs as nat,
            data: fields_of(snapshot@.tally),
        }),
        object_keys(event.data) == field_names(),
{
    HeartbeatEvent { timestamp, duration_secs: interval_secs, data: payload(snapshot) }
}

/// The six field names differ from one another, so the data of a heartbeat
/// have exactly those six fields and each holds its own counter.
pub proof fn lemma_fields(tally: Tally)
    ensures
        fields_of(tally).dom() == field_names(),
        fields_of(tally)["presses"@] == tally.presses,
        fields_of(tally)["clicks"@] == tally.clicks,
        fields_of(tally)["deltaX"@] == tally.delta_x,
        fields_of(tally)["deltaY"@] == tally.delta_y,
        fields_of(tally)["scrollX"@] == tally.scroll_x,
        fields_of(tally)["scrollY"@] == tally.scroll_y,
{
    reveal_strlit("presses");
    reveal_strlit("clicks");
    reveal_strlit("deltaX");
    reveal_strlit("deltaY");
    reveal_strlit("scrollX");
    reveal_strlit("scrollY");
    assert("presses"@[0] == 'p' && "clicks"@[0] == 'c' && "deltaX"@[0] == 'd' && "deltaY"@[0]
        == 'd' && "scrollX"@[0] == 's' && "scrollY"@[0] == 's');
    assert("deltaX"@[5] == 'X' && "deltaY"@[5] == 'Y');
    assert("scrollX"@[6] == 'X' && "scrollY"@[6] == 'Y');
    assert(fields_of(tally).dom() =~= field_names());
}

} // verus!
