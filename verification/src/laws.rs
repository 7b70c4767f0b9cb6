use vstd::prelude::*;

use crate::record::RecordModel;

verus! {

/// The buffer left after the records of `emitted` are delivered in order,
/// oldest first, to a capturing thread state whose buffer holds `buffer`:
/// each delivery appends to the back, as the ensures of `Logger::log`
/// states.
pub open spec fn after_emissions(buffer: Seq<RecordModel>, emitted: Seq<RecordModel>) -> Seq<
    RecordModel,
>
    decreases emitted.len(),
{
    if emitted.len() == 0 {
        buffer
    } else {
        after_emissions(buffer.push(emitted[0]), emitted.skip(1))
    }
}

/// Law: delivering the records of `emitted`, oldest first, to a capturing
/// buffer that holds `buffer` leaves the buffer holding `buffer + emitted`:
/// emission order is preserved and nothing is lost or reordered.
pub proof fn lemma_emission_order(buffer: Seq<RecordModel>, emitted: Seq<RecordModel>)
    ensures
        after_emissions(buffer, emitted) =~= buffer + emitted,
    decreases emitted.len(),
{
    if emitted.len() == 0 {
        assert(buffer + emitted =~= buffer);
    } else {
        lemma_emission_order(buffer.push(emitted[0]), emitted.skip(1));
        assert(buffer.push(emitted[0]) + emitted.skip(1) =~= buffer + emitted);
    }
}

/// Law: a capture that begins with the empty buffer, as the ensures of
/// `begin_capture` states, holds exactly the records emitted while
/// capturing, in emission order.
pub proof fn lemma_capture_holds_emissions(emitted: Seq<RecordModel>)
    ensures
        after_emissions(Seq::<RecordModel>::empty(), emitted) =~= emitted,
{
    lemma_emission_order(Seq::<RecordModel>::empty(), emitted);
    assert(Seq::<RecordModel>::empty() + emitted =~= emitted);
}

/// Law: popping drains a capture in emission order. After `count` pops from
/// a buffer that held `buffer`, the buffer holds `buffer.skip(count)` (the
/// ensures of `pop_captured` removes the front); while records remain, the
/// next pop therefore yields `buffer[count]` and leaves
/// `buffer.skip(count + 1)`.
pub proof fn lemma_drain_in_order(buffer: Seq<RecordModel>, count: int)
    requires
        0 <= count < buffer.len(),
    ensures
        buffer.skip(count)[0] == buffer[count],
        buffer.skip(count).skip(1) =~= buffer.skip(count + 1),
{
}

/// Law: once every record is popped the buffer is empty, so the next pop
/// yields the absent result.
pub proof fn lemma_drained_yields_absent(buffer: Seq<RecordModel>)
    ensures
        buffer.skip(buffer.len() as int).len() == 0,
{
}

/// Law: records emitted while idle never appear in any subsequent buffer.
/// An idle delivery leaves the thread state unchanged (the ensures of
/// `Logger::log`) and a later capture begins empty (the ensures of
/// `begin_capture`), so every record such a buffer ever holds is one that
/// was emitted while capturing.
pub proof fn lemma_idle_emissions_never_buffered(emitted: Seq<RecordModel>, record: RecordModel)
    requires
        after_emissions(Seq::<RecordModel>::empty(), emitted).contains(record),
    ensures
        emitted.contains(record),
{
    lemma_capture_holds_emissions(emitted);
}

} // verus!
