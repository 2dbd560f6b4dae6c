//! The pool of request buffers: a bounded channel that holds the idle ones.

use vstd::multiset::Multiset;
use vstd::prelude::*;
use crate::aligned_bytes::AlignedBytes;
use crate::target::{Os, MAX_BACKGROUND, PAGE_SIZE};
use crossbeam_channel::{Receiver, Sender};

verus! {

/// A request buffer with its number in the pool.
pub type PoolEntry = (u16, AlignedBytes);

/// Stands for `crossbeam_channel::Sender`.
#[verifier::external_type_specification]
#[verifier::external_body]
#[verifier::reject_recursive_types(T)]
pub struct ExSender<T>(crossbeam_channel::Sender<T>);

/// Stands for `crossbeam_channel::Receiver`.
#[verifier::external_type_specification]
#[verifier::external_body]
#[verifier::reject_recursive_types(T)]
pub struct ExReceiver<T>(crossbeam_channel::Receiver<T>);

/// The messages that wait in the channel of these two ends, oldest first.
pub uninterp spec fn queued(
    sender: Sender<(u16, AlignedBytes)>,
    receiver: Receiver<(u16, AlignedBytes)>,
) -> Seq<(u16, AlignedBytes)>;

/// The capacity of the bounded channel whose only ends these two are. `None`
/// where they belong to different channels, or the channel has further ends.
pub uninterp spec fn capacity(
    sender: Sender<(u16, AlignedBytes)>,
    receiver: Receiver<(u16, AlignedBytes)>,
) -> Option<nat>;

/// Calls `crossbeam_channel::bounded`: an empty channel with room for `cap`
/// messages, and its two ends.
///
/// A capacity of zero makes a channel that stores nothing; it is left out.
#[verifier::external_body]
fn bounded(cap: u16) -> (ends: (Sender<PoolEntry>, Receiver<PoolEntry>))
    requires
        cap > 0,
    ensures
        capacity(ends.0, ends.1) == Some(cap as nat),
        queued(ends.0, ends.1) == Seq::<PoolEntry>::empty(),
{
    crossbeam_channel::bounded(cap.into())
}

/// Calls `crossbeam_channel::Sender::send`: the message goes behind those that
/// wait. It can only fail once the receiver is gone, which is at hand here, and
/// then hands the message back.
///
/// A full channel, on which that function waits for a receive that cannot come
/// meanwhile, is left out.
#[verifier::external_body]
fn send(
    sender: &mut Sender<PoolEntry>,
    receiver: &mut Receiver<PoolEntry>,
    message: PoolEntry,
) -> (sent: Result<(), PoolEntry>)
    requires
        capacity(*old(sender), *old(receiver)) is Some,
        queued(*old(sender), *old(receiver)).len() < capacity(*old(sender), *old(receiver))->0,
    ensures
        sent is Ok,
        capacity(*final(sender), *final(receiver)) == capacity(*old(sender), *old(receiver)),
        queued(*final(sender), *final(receiver)) == queued(*old(sender), *old(receiver)).push(
            message,
        ),
{
    sender.send(message).map_err(|refused| refused.0)
}

/// Calls `crossbeam_channel::Receiver::recv`: the oldest message that waits.
///
/// An empty channel, on which that function waits for a send that cannot come
/// meanwhile, is left out.
#[verifier::external_body]
fn recv(sender: &mut Sender<PoolEntry>, receiver: &mut Receiver<PoolEntry>) -> (message: Option<
    PoolEntry,
>)
    requires
        capacity(*old(sender), *old(receiver)) is Some,
        queued(*old(sender), *old(receiver)).len() > 0,
    ensures
        message == Some(queued(*old(sender), *old(receiver))[0]),
        capacity(*final(sender), *final(receiver)) == capacity(*old(sender), *old(receiver)),
        queued(*final(sender), *final(receiver)) == queued(
            *old(sender),
            *old(receiver),
        ).drop_first(),
{
    receiver.recv().ok()
}

/// The idle request buffers of a session.
///
/// The view is the buffers in the order in which they will be taken.
pub struct BufferPool {
    sender: Sender<PoolEntry>,
    receiver: Receiver<PoolEntry>,
}

impl View for BufferPool {
    type V = Seq<PoolEntry>;

    closed spec fn view(&self) -> Seq<PoolEntry> {
        queued(self.sender, self.receiver)
    }
}

/// A request buffer of the pool: it starts at the beginning of a page.
pub open spec fn page_aligned(buffer: AlignedBytes) -> bool {
    buffer.wf() && buffer.aligned_to(PAGE_SIZE)
}

/// A request buffer as it is made: at the beginning of a page, all zero, and of
/// the size that the kernel's largest request needs.
pub open spec fn zeroed(buffer: AlignedBytes, os: Os) -> bool {
    &&& page_aligned(buffer)
    &&& buffer@ == Seq::new(os.buffer_size_spec() as nat, |i: int| 0u8)
}

impl BufferPool {
    /// No more than `MAX_BACKGROUND` buffers, which is what the pool has room
    /// for, and each of them at the beginning of a page.
    pub closed spec fn wf(&self) -> bool {
        &&& capacity(self.sender, self.receiver) == Some(MAX_BACKGROUND as nat)
        &&& self@.len() <= MAX_BACKGROUND
        &&& forall|i: int| 0 <= i < self@.len() ==> page_aligned((#[trigger] self@[i]).1)
    }

    /// A pool of `MAX_BACKGROUND` zeroed buffers, numbered from zero in the
    /// order in which they will be taken.
    pub fn filled(os: Os) -> (pool: BufferPool)
        ensures
            pool.wf(),
            pool@.len() == MAX_BACKGROUND,
            forall|i: int|
                0 <= i < MAX_BACKGROUND ==> (#[trigger] pool@[i]).0 == i && zeroed(pool@[i].1, os),
    {
        let (sender, receiver) = bounded(MAX_BACKGROUND);
        let mut pool = BufferPool { sender, receiver };
        let mut i: u16 = 0;
        while i < MAX_BACKGROUND
            invariant
                i <= MAX_BACKGROUND,
                pool.wf(),
                pool@.len() == i,
                forall|k: int| 0 <= k < i ==> (#[trigger] pool@[k]).0 == k && zeroed(pool@[k].1, os),
            decreases MAX_BACKGROUND - i,
        {
            let buffer = AlignedBytes::new_zeroed(os.buffer_size(), PAGE_SIZE);
            pool.put_back(i, buffer);
            i = i + 1;
        }
        pool
    }

    /// Takes the buffer that has been idle longest.
    ///
    /// On an empty pool there is nothing to take before a buffer comes back;
    /// the caller has to hold off until then.
    pub fn take(&mut self) -> (entry: PoolEntry)
        requires
            old(self).wf(),
            old(self)@.len() > 0,
        ensures
            final(self).wf(),
            entry == old(self)@[0],
            page_aligned(entry.1),
            final(self)@ == old(self)@.drop_first(),
    {
        match recv(&mut self.sender, &mut self.receiver) {
            Some(entry) => entry,
            None => vstd::pervasive::unreached(),
        }
    }

    /// Puts a buffer back, behind those that are idle.
    pub fn put_back(&mut self, buffer_idx: u16, buffer: AlignedBytes)
        requires
            old(self).wf(),
            old(self)@.len() < MAX_BACKGROUND,
            page_aligned(buffer),
        ensures
            final(self).wf(),
            final(self)@ == old(self)@.push((buffer_idx, buffer)),
    {
        let _ = send(&mut self.sender, &mut self.receiver, (buffer_idx, buffer));
    }

    /// The pool's two ends, for tasks that take and put back on their own.
    pub fn into_ends(self) -> (ends: (Sender<PoolEntry>, Receiver<PoolEntry>))
        requires
            self.wf(),
        ensures
            queued(ends.0, ends.1) == self@,
            capacity(ends.0, ends.1) == Some(MAX_BACKGROUND as nat),
            forall|i: int|
                0 <= i < queued(ends.0, ends.1).len() ==> page_aligned(
                    (#[trigger] queued(ends.0, ends.1)[i]).1,
                ),
    {
        (self.sender, self.receiver)
    }
}

/// The numbers of buffers, in order.
pub open spec fn numbers(entries: Seq<PoolEntry>) -> Seq<u16> {
    entries.map_values(|entry: PoolEntry| entry.0)
}

/// The number of each buffer of a session, once.
pub open spec fn all_numbers() -> Multiset<u16> {
    Seq::new(MAX_BACKGROUND as nat, |i: int| i as u16).to_multiset()
}

/// What can happen to the buffers of a session.
pub enum PoolStep {
    /// The buffer that has been idle longest is taken, for a request.
    Take,
    /// A buffer that was taken is put back.
    PutBack(PoolEntry),
    /// A buffer that was taken is given up.
    GiveUp(u16),
}

/// Where the buffers of a session are.
pub struct PoolUse {
    /// Those in the pool.
    pub idle: Seq<PoolEntry>,
    /// The numbers of those that are taken.
    pub busy: Multiset<u16>,
    /// The numbers of those that are given up.
    pub given_up: Multiset<u16>,
}

impl PoolUse {
    /// Whether something can happen: only what is idle is taken, and only what
    /// is taken is put back or given up.
    pub open spec fn allows(self, step: PoolStep) -> bool {
        match step {
            PoolStep::Take => self.idle.len() > 0,
            PoolStep::PutBack(entry) => self.busy.count(entry.0) > 0,
            PoolStep::GiveUp(number) => self.busy.count(number) > 0,
        }
    }

    /// Where the buffers are afterwards.
    pub open spec fn after(self, step: PoolStep) -> PoolUse {
        match step {
            PoolStep::Take => PoolUse {
                idle: self.idle.drop_first(),
                busy: self.busy.insert(self.idle[0].0),
                ..self
            },
            PoolStep::PutBack(entry) => PoolUse {
                idle: self.idle.push(entry),
                busy: self.busy.remove(entry.0),
                ..self
            },
            PoolStep::GiveUp(number) => PoolUse {
                busy: self.busy.remove(number),
                given_up: self.given_up.insert(number),
                ..self
            },
        }
    }

    /// The numbers of all buffers, wherever they are.
    pub open spec fn everywhere(self) -> Multiset<u16> {
        numbers(self.idle).to_multiset().add(self.busy).add(self.given_up)
    }
}

/// Where the buffers of a session are after a series of steps, from a pool in
/// which all are idle.
pub open spec fn pool_use_after(filled: Seq<PoolEntry>, steps: Seq<PoolStep>) -> PoolUse
    decreases steps.len(),
{
    if steps.len() == 0 {
        PoolUse { idle: filled, busy: Multiset::empty(), given_up: Multiset::empty() }
    } else {
        pool_use_after(filled, steps.drop_last()).after(steps.last())
    }
}

/// Whether each of a series of steps can happen in its turn.
pub open spec fn possible(filled: Seq<PoolEntry>, steps: Seq<PoolStep>) -> bool
    decreases steps.len(),
{
    steps.len() == 0 || (possible(filled, steps.drop_last()) && pool_use_after(
        filled,
        steps.drop_last(),
    ).allows(steps.last()))
}

proof fn lemma_numbers_of_drop_first(entries: Seq<PoolEntry>)
    requires
        entries.len() > 0,
    ensures
        numbers(entries).to_multiset() =~= numbers(entries.drop_first()).to_multiset().insert(
            entries[0].0,
        ),
{
    broadcast use vstd::seq_lib::group_to_multiset_ensures;

    let ns = numbers(entries);
    assert(numbers(entries.drop_first()) =~= ns.drop_first());
    assert(ns =~= seq![ns[0]] + ns.drop_first());
    assert(ns.remove(0) =~= ns.drop_first());
}

proof fn lemma_numbers_of_push(entries: Seq<PoolEntry>, entry: PoolEntry)
    ensures
        numbers(entries.push(entry)).to_multiset() =~= numbers(entries).to_multiset().insert(
            entry.0,
        ),
{
    broadcast use vstd::seq_lib::group_to_multiset_ensures;

    assert(numbers(entries.push(entry)) =~= numbers(entries).push(entry.0));
}

/// No buffer is lost and none appears: whatever happens, each of the session's
/// buffers is in exactly one place.
pub proof fn law_buffers_are_conserved(filled: Seq<PoolEntry>, steps: Seq<PoolStep>)
    requires
        possible(filled, steps),
    ensures
        pool_use_after(filled, steps).everywhere() == numbers(filled).to_multiset(),
    decreases steps.len(),
{
    let now = pool_use_after(filled, steps);
    if steps.len() == 0 {
        assert(now.everywhere() =~= numbers(filled).to_multiset());
    } else {
        law_buffers_are_conserved(filled, steps.drop_last());
        let before = pool_use_after(filled, steps.drop_last());
        match steps.last() {
            PoolStep::Take => {
                lemma_numbers_of_drop_first(before.idle);
            },
            PoolStep::PutBack(entry) => {
                lemma_numbers_of_push(before.idle, entry);
            },
            PoolStep::GiveUp(number) => {},
        }
        assert(now.everywhere() =~= before.everywhere());
    }
}

/// At most `MAX_BACKGROUND` requests are under processing at any time, and the
/// pool always has room for the buffer of each.
pub proof fn law_background_limit(filled: Seq<PoolEntry>, steps: Seq<PoolStep>)
    requires
        filled.len() == MAX_BACKGROUND,
        possible(filled, steps),
    ensures
        ({
            let now = pool_use_after(filled, steps);
            &&& now.idle.len() + now.busy.len() + now.given_up.len() == MAX_BACKGROUND
            &&& now.busy.len() <= MAX_BACKGROUND
            &&& now.busy.len() > 0 ==> now.idle.len() < MAX_BACKGROUND
        }),
{
    broadcast use vstd::seq_lib::group_to_multiset_ensures;

    law_buffers_are_conserved(filled, steps);
    let now = pool_use_after(filled, steps);
    assert(numbers(now.idle).to_multiset().len() == now.idle.len());
    assert(numbers(filled).to_multiset().len() == MAX_BACKGROUND);
}

/// Taking a buffer and putting it back leaves every buffer where it was, but for
/// the order in which the idle ones will be taken.
pub proof fn law_put_back_undoes_take(now: PoolUse)
    requires
        now.allows(PoolStep::Take),
    ensures
        now.after(PoolStep::Take).allows(PoolStep::PutBack(now.idle[0])),
        now.after(PoolStep::Take).after(PoolStep::PutBack(now.idle[0])) == (PoolUse {
            idle: now.idle.drop_first().push(now.idle[0]),
            ..now
        }),
{
    assert(now.busy.insert(now.idle[0].0).remove(now.idle[0].0) =~= now.busy);
}

/// No two requests are ever in buffers of the same number, and no number is
/// both idle and taken: each number of a freshly filled pool is in one place
/// only.
pub proof fn law_numbers_stay_distinct(filled: Seq<PoolEntry>, steps: Seq<PoolStep>, number: u16)
    requires
        filled.len() == MAX_BACKGROUND,
        forall|i: int| 0 <= i < MAX_BACKGROUND ==> (#[trigger] filled[i]).0 == i,
        possible(filled, steps),
    ensures
        pool_use_after(filled, steps).everywhere() == all_numbers(),
        pool_use_after(filled, steps).everywhere().count(number) == (if number < MAX_BACKGROUND {
            1nat
        } else {
            0
        }),
{
    broadcast use vstd::seq_lib::group_to_multiset_ensures;

    law_buffers_are_conserved(filled, steps);
    let all = Seq::new(MAX_BACKGROUND as nat, |i: int| i as u16);
    assert(numbers(filled) =~= all);
    assert(all.no_duplicates());
    all.lemma_multiset_has_no_duplicates();
    if number < MAX_BACKGROUND {
        assert(all[number as int] == number);
        assert(all.to_multiset().contains(number));
    } else {
        assert(!all.contains(number));
    }
}

/// A request buffer, as it is made, starts at a multiple of 4 KiB, holds the
/// largest write with 512 bytes to spare, and is zero in every byte.
pub proof fn law_fresh_buffers(buffer: AlignedBytes, os: Os)
    requires
        zeroed(buffer, os),
    ensures
        buffer.wf(),
        (buffer.address() + buffer.skipped()) % 4096 == 0,
        os is Linux ==> buffer@.len() == 128 * 1024 + 512,
        os is MacOs ==> buffer@.len() == 16 * 1024 * 1024 + 512,
        forall|i: int| 0 <= i < buffer@.len() ==> #[trigger] buffer@[i] == 0,
{
}

/// Every buffer that is idle in a pool starts at a multiple of 4 KiB, and there
/// are no more than ten.
pub proof fn law_idle_buffers(pool: BufferPool, i: int)
    requires
        pool.wf(),
        0 <= i < pool@.len(),
    ensures
        pool@.len() <= 10,
        pool@[i].1.wf(),
        (pool@[i].1.address() + pool@[i].1.skipped()) % 4096 == 0,
{
}

} // verus!
