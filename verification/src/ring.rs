//! The wait-free ring that carries samples from the callback to the worker.

use vstd::prelude::*;

use rtrb::{Consumer, Producer};

use crate::timing::AUDIO_RING_SECONDS;

verus! {

#[verifier::external_type_specification]
#[verifier::external_body]
#[verifier::reject_recursive_types(T)]
pub struct ExProducer<T>(rtrb::Producer<T>);

#[verifier::external_type_specification]
#[verifier::external_body]
#[verifier::reject_recursive_types(T)]
pub struct ExConsumer<T>(rtrb::Consumer<T>);

/// The ring that this producer belongs to, told apart from every other ring ever made.
pub uninterp spec fn producer_ring(producer: Producer<u32>) -> nat;

/// The ring that this consumer belongs to, told apart from every other ring ever made.
pub uninterp spec fn consumer_ring(consumer: Consumer<u32>) -> nat;

/// The slots of the ring that this producer writes to.
pub uninterp spec fn capacity_of(producer: Producer<u32>) -> nat;

/// Every sample that was committed through this producer, oldest first.
pub uninterp spec fn written(producer: Producer<u32>) -> Seq<u32>;

/// The slots that this producer knows to be free: those that were free when it last looked, less
/// those it has filled since. The other end can only add to them.
pub uninterp spec fn known_free(producer: Producer<u32>) -> nat;

/// The samples that this consumer knows to be waiting: those that waited when it last looked,
/// less those it has released since, oldest first. The other end can only add to them.
pub uninterp spec fn waiting(consumer: Consumer<u32>) -> Seq<u32>;

/// The number of samples that were released through this consumer.
pub uninterp spec fn released(consumer: Consumer<u32>) -> nat;

/// The ends do not contradict each other. Where they belong to one ring, the samples that the
/// consumer knows to be waiting are those that the producer committed at the same places, counted
/// from the first sample ever, as far as the producer had come.
pub open spec fn in_order(producer: Producer<u32>, consumer: Consumer<u32>) -> bool {
    producer_ring(producer) == consumer_ring(consumer) ==> forall|place: int|
        0 <= place < waiting(consumer).len() && released(consumer) + place < written(
            producer,
        ).len() ==> #[trigger] waiting(consumer)[place] == written(producer)[released(consumer)
            + place]
}

/// `rtrb::RingBuffer::new`: both ends of an empty ring, all of whose slots are free. A capacity
/// whose slots exceed the largest allocation would panic.
#[verifier::external_body]
fn new_ring(capacity: usize) -> (ends: (Producer<u32>, Consumer<u32>))
    requires
        4 * capacity <= isize::MAX,
    ensures
        producer_ring(ends.0) == consumer_ring(ends.1),
        capacity_of(ends.0) == capacity,
        written(ends.0) == Seq::<u32>::empty(),
        known_free(ends.0) == capacity,
        waiting(ends.1) == Seq::<u32>::empty(),
        released(ends.1) == 0,
{
    rtrb::RingBuffer::new(capacity)
}

/// `rtrb::Producer::slots`: looks at the ring and returns the number of free slots, which the
/// producer then knows. Never fewer than it knew, nor more than the ring has, and nothing is
/// written.
#[verifier::external_body]
pub(crate) fn look_for_free_slots(producer: &mut Producer<u32>) -> (free: usize)
    ensures
        free == known_free(*final(producer)),
        known_free(*old(producer)) <= free <= capacity_of(*old(producer)),
        producer_ring(*final(producer)) == producer_ring(*old(producer)),
        capacity_of(*final(producer)) == capacity_of(*old(producer)),
        written(*final(producer)) == written(*old(producer)),
{
    producer.slots()
}

/// `rtrb::Producer::write_chunk_uninit` and `WriteChunkUninit::fill_from_iter`: reserves `count`
/// slots, which succeeds for a number known to be free, fills the slot at each place with what
/// `sample` gives for that place, and commits them together.
#[verifier::external_body]
pub(crate) fn write_chunk<F: Fn(usize) -> u32>(producer: &mut Producer<u32>, count: usize, sample: F)
    requires
        count <= known_free(*old(producer)),
        forall|place: usize| place < count ==> call_requires(sample, (place,)),
    ensures
        producer_ring(*final(producer)) == producer_ring(*old(producer)),
        capacity_of(*final(producer)) == capacity_of(*old(producer)),
        known_free(*final(producer)) == known_free(*old(producer)) - count,
        written(*final(producer)).len() == written(*old(producer)).len() + count,
        written(*final(producer)).take(written(*old(producer)).len() as int) == written(
            *old(producer),
        ),
        forall|place: usize|
            place < count ==> call_ensures(
                sample,
                (place,),
                #[trigger] written(*final(producer))[written(*old(producer)).len() + place],
            ),
{
    if let Ok(chunk) = producer.write_chunk_uninit(count) {
        chunk.fill_from_iter((0..count).map(sample));
    }
}

/// `rtrb::Consumer::slots`: looks at the ring and returns the number of waiting samples, which
/// the consumer then knows. Those that it knew before stay first, and all of them are what the
/// producer committed, in its order; none is skipped, doubled or changed. How much of what was
/// committed a look finds depends on when the other end committed it, and is not said.
#[verifier::external_body]
fn look_for_samples(consumer: &mut Consumer<u32>) -> (count: usize)
    ensures
        count == waiting(*final(consumer)).len(),
        waiting(*old(consumer)).is_prefix_of(waiting(*final(consumer))),
        released(*final(consumer)) == released(*old(consumer)),
        consumer_ring(*final(consumer)) == consumer_ring(*old(consumer)),
        forall|producer: Producer<u32>| #[trigger] in_order(producer, *final(consumer)),
{
    consumer.slots()
}

/// `rtrb::Consumer::slots` while the producer is held: as [`look_for_samples`], and the look finds
/// everything that the producer has committed and that was not yet released. Neither end can be
/// used by two threads at once, so nothing is under way at an end that is held here.
#[verifier::external_body]
fn look_for_all_samples(producer: &Producer<u32>, consumer: &mut Consumer<u32>) -> (count: usize)
    requires
        producer_ring(*producer) == consumer_ring(*old(consumer)),
    ensures
        count == waiting(*final(consumer)).len(),
        waiting(*old(consumer)).is_prefix_of(waiting(*final(consumer))),
        released(*final(consumer)) + waiting(*final(consumer)).len() == written(*producer).len(),
        released(*final(consumer)) == released(*old(consumer)),
        consumer_ring(*final(consumer)) == consumer_ring(*old(consumer)),
        in_order(*producer, *final(consumer)),
{
    consumer.slots()
}

/// `rtrb::Producer::slots` while the consumer is held: as [`look_for_free_slots`], and the look
/// finds every slot free that does not hold a sample which is committed and not yet released.
/// Neither end can be used by two threads at once, so nothing is under way at an end that is held
/// here.
#[verifier::external_body]
fn look_for_all_free_slots(producer: &mut Producer<u32>, consumer: &Consumer<u32>) -> (free: usize)
    requires
        producer_ring(*old(producer)) == consumer_ring(*consumer),
    ensures
        free == known_free(*final(producer)),
        free == capacity_of(*old(producer)) - (written(*old(producer)).len() - released(*consumer)),
        producer_ring(*final(producer)) == producer_ring(*old(producer)),
        capacity_of(*final(producer)) == capacity_of(*old(producer)),
        written(*final(producer)) == written(*old(producer)),
{
    producer.slots()
}

/// `rtrb::Consumer::read_chunk` and `ReadChunk::as_slices`: the oldest `count` samples, which
/// must be known to be waiting, in the two runs in which the ring holds them; the first run is
/// empty only when there are none. The chunk is dropped uncommitted, so that they stay.
#[verifier::external_body]
fn peek(consumer: &mut Consumer<u32>, count: usize) -> (runs: (Vec<u32>, Vec<u32>))
    requires
        count <= waiting(*old(consumer)).len(),
    ensures
        runs.0@ + runs.1@ == waiting(*old(consumer)).take(count as int),
        count > 0 ==> runs.0@.len() > 0,
        waiting(*final(consumer)) == waiting(*old(consumer)),
        released(*final(consumer)) == released(*old(consumer)),
        consumer_ring(*final(consumer)) == consumer_ring(*old(consumer)),
{
    match consumer.read_chunk(count) {
        Ok(chunk) => {
            let (first, second) = chunk.as_slices();
            (first.to_vec(), second.to_vec())
        }
        Err(_) => (Vec::new(), Vec::new()),
    }
}

/// `rtrb::chunks::ReadChunk::commit_all`: releases the oldest `count` samples, which must be
/// known to be waiting.
#[verifier::external_body]
fn release(consumer: &mut Consumer<u32>, count: usize)
    requires
        count <= waiting(*old(consumer)).len(),
    ensures
        waiting(*final(consumer)) == waiting(*old(consumer)).skip(count as int),
        released(*final(consumer)) == released(*old(consumer)) + count,
        consumer_ring(*final(consumer)) == consumer_ring(*old(consumer)),
{
    if let Ok(chunk) = consumer.read_chunk(count) {
        chunk.commit_all();
    }
}

/// The samples of several runs, one run after the other.
pub open spec fn joined(runs: Seq<Vec<u32>>) -> Seq<u32>
    decreases runs.len(),
{
    if runs.len() == 0 {
        Seq::empty()
    } else {
        joined(runs.drop_last()) + runs.last()@
    }
}

/// The ring of a stream: empty, with room for five seconds of audio, every slot of it written once
/// and released again, so that the callback never is the first to touch its memory.
pub fn new_audio_ring(sample_rate: u32) -> (ends: (Producer<u32>, Consumer<u32>))
    requires
        4 * sample_rate * AUDIO_RING_SECONDS <= isize::MAX,
    ensures
        producer_ring(ends.0) == consumer_ring(ends.1),
        capacity_of(ends.0) == sample_rate * AUDIO_RING_SECONDS,
        written(ends.0) == Seq::new((sample_rate * AUDIO_RING_SECONDS) as nat, |slot: int| 0u32),
        known_free(ends.0) == sample_rate * AUDIO_RING_SECONDS,
        released(ends.1) == sample_rate * AUDIO_RING_SECONDS,
        waiting(ends.1) == Seq::<u32>::empty(),
{
    let capacity: usize = sample_rate as usize * AUDIO_RING_SECONDS;
    let (mut producer, mut consumer) = new_ring(capacity);
    write_chunk(
        &mut producer,
        capacity,
        |slot: usize| -> (sample: u32)
            ensures
                sample == 0
            { 0 },
    );
    assert forall|slot: int| 0 <= slot < capacity implies written(producer)[slot] == 0 by {
        assert(written(producer)[Seq::<u32>::empty().len() + slot as usize] == 0);
    }
    look_for_all_samples(&producer, &mut consumer);
    release(&mut consumer, capacity);
    look_for_all_free_slots(&mut producer, &consumer);
    (producer, consumer)
}

/// The oldest `available` samples, in the unbroken runs in which the ring holds them.
fn runs_of(consumer: &mut Consumer<u32>, available: usize) -> (runs: Vec<Vec<u32>>)
    requires
        available == waiting(*old(consumer)).len(),
    ensures
        waiting(*final(consumer)) == waiting(*old(consumer)),
        released(*final(consumer)) == released(*old(consumer)),
        consumer_ring(*final(consumer)) == consumer_ring(*old(consumer)),
        joined(runs@) == waiting(*old(consumer)),
        runs@.len() <= 2,
        forall|run: int| 0 <= run < runs@.len() ==> (#[trigger] runs@[run])@.len() > 0,
{
    let mut runs: Vec<Vec<u32>> = Vec::new();
    if available == 0 {
        assert(waiting(*consumer) =~= Seq::empty());
        return runs;
    }
    let (first, second) = peek(consumer, available);
    proof {
        reveal_with_fuel(joined, 3);
        assert(waiting(*consumer).take(available as int) =~= waiting(*consumer));
        assert(seq![first].drop_last() =~= seq![]);
        assert(seq![first, second].drop_last() =~= seq![first]);
        assert(Seq::<u32>::empty() + first@ =~= first@);
        assert(second@.len() == 0 ==> first@ + second@ =~= first@);
    }
    runs.push(first);
    if !second.is_empty() {
        runs.push(second);
        assert(runs@ =~= seq![first, second]);
    } else {
        assert(runs@ =~= seq![first]);
    }
    runs
}

/// The samples that wait in the ring, in the one or two unbroken runs in which it holds them;
/// none when it is empty. They stay in the ring until they are released.
pub fn drain_available_samples(consumer: &mut Consumer<u32>) -> (runs: Vec<Vec<u32>>)
    ensures
        waiting(*old(consumer)).is_prefix_of(waiting(*final(consumer))),
        released(*final(consumer)) == released(*old(consumer)),
        consumer_ring(*final(consumer)) == consumer_ring(*old(consumer)),
        forall|producer: Producer<u32>| #[trigger] in_order(producer, *final(consumer)),
        joined(runs@) == waiting(*final(consumer)),
        runs@.len() <= 2,
        forall|run: int| 0 <= run < runs@.len() ==> (#[trigger] runs@[run])@.len() > 0,
{
    let available: usize = look_for_samples(consumer);
    let ghost looked = *consumer;
    let runs = runs_of(consumer, available);
    assert forall|producer: Producer<u32>| #[trigger] in_order(producer, *consumer) by {
        assert(in_order(producer, looked));
    }
    runs
}

/// As [`drain_available_samples`], while the other end is held and so commits nothing: every
/// sample that was committed and not yet released, in order.
pub fn drain_all_samples(producer: &Producer<u32>, consumer: &mut Consumer<u32>) -> (runs: Vec<
    Vec<u32>,
>)
    requires
        producer_ring(*producer) == consumer_ring(*old(consumer)),
    ensures
        joined(runs@) == written(*producer).skip(released(*old(consumer)) as int),
        waiting(*final(consumer)) == joined(runs@),
        released(*final(consumer)) == released(*old(consumer)),
        consumer_ring(*final(consumer)) == consumer_ring(*old(consumer)),
        in_order(*producer, *final(consumer)),
        runs@.len() <= 2,
        forall|run: int| 0 <= run < runs@.len() ==> (#[trigger] runs@[run])@.len() > 0,
{
    let available: usize = look_for_all_samples(producer, consumer);
    let ghost looked = *consumer;
    let runs = runs_of(consumer, available);
    proof {
        assert(in_order(*producer, looked));
        what_is_drained_is_what_was_written(*producer, *consumer);
        let committed = written(*producer).skip(released(*consumer) as int);
        assert(committed.take(committed.len() as int) =~= committed);
    }
    runs
}

/// Gives the slots of the oldest `count` samples back to the producer, once they have been
/// processed. More than are waiting are not released.
pub fn release_samples(consumer: &mut Consumer<u32>, count: usize) -> (done: bool)
    ensures
        count <= waiting(*old(consumer)).len() ==> done,
        exists|seen: Seq<u32>|
            {
                &&& #[trigger] waiting(*old(consumer)).is_prefix_of(seen)
                &&& done == (count <= seen.len())
                &&& waiting(*final(consumer)) == if done {
                    seen.skip(count as int)
                } else {
                    seen
                }
            },
        released(*final(consumer)) == released(*old(consumer)) + if done {
            count as int
        } else {
            0
        },
        consumer_ring(*final(consumer)) == consumer_ring(*old(consumer)),
        forall|producer: Producer<u32>| #[trigger] in_order(producer, *final(consumer)),
{
    let available: usize = look_for_samples(consumer);
    let ghost looked = *consumer;
    assert(waiting(*old(consumer)).is_prefix_of(waiting(looked)));
    if count <= available {
        release(consumer, count);
        assert forall|producer: Producer<u32>| #[trigger] in_order(producer, *consumer) by {
            assert(in_order(producer, looked));
            assert forall|place: int|
                0 <= place < waiting(*consumer).len() implies #[trigger] waiting(*consumer)[place]
                == waiting(looked)[count + place] by {}
        }
        true
    } else {
        false
    }
}

/// What is drained is what was written: the samples that wait at one end of a ring are those
/// that the other end committed behind the ones already released, in the same order, as far as
/// the other end had come.
pub proof fn what_is_drained_is_what_was_written(producer: Producer<u32>, consumer: Consumer<u32>)
    requires
        producer_ring(producer) == consumer_ring(consumer),
        in_order(producer, consumer),
        released(consumer) <= written(producer).len(),
    ensures
        ({
            let first = released(consumer) as int;
            let committed = written(producer).skip(first);
            &&& waiting(consumer).len() <= committed.len() ==> waiting(consumer) == committed.take(
                waiting(consumer).len() as int,
            )
            &&& committed.len() <= waiting(consumer).len() ==> committed == waiting(consumer).take(
                committed.len() as int,
            )
        }),
{
    let first = released(consumer) as int;
    let committed = written(producer).skip(first);
    assert forall|place: int|
        0 <= place < waiting(consumer).len() && place < committed.len() implies #[trigger] waiting(
        consumer,
    )[place] == committed[place] by {}
    if waiting(consumer).len() <= committed.len() {
        assert(waiting(consumer) =~= committed.take(waiting(consumer).len() as int));
    }
    if committed.len() <= waiting(consumer).len() {
        assert forall|place: int| 0 <= place < committed.len() implies committed[place]
            == #[trigger] waiting(consumer)[place] by {}
        assert(committed =~= waiting(consumer).take(committed.len() as int));
    }
}

/// Runs are joined end to end: nothing is added, left out or turned round.
pub proof fn runs_are_joined_end_to_end(runs: Seq<Vec<u32>>, run: Vec<u32>)
    ensures
        joined(Seq::<Vec<u32>>::empty()) == Seq::<u32>::empty(),
        joined(runs.push(run)).len() == joined(runs).len() + run@.len(),
        joined(runs).is_prefix_of(joined(runs.push(run))),
        joined(runs.push(run)).skip(joined(runs).len() as int) == run@,
{
    assert(runs.push(run).drop_last() =~= runs);
    let all = joined(runs.push(run));
    assert(all.take(joined(runs).len() as int) =~= joined(runs));
    assert(all.skip(joined(runs).len() as int) =~= run@);
}

} // verus!
