//! Frames in flight: which frame slot is being recorded, how frames are numbered,
//! how per-frame objects are named, and which command buffers belong to which slot.

use vstd::prelude::*;
use crate::text::decimal;
use crate::text::format_decimal;
use crate::text::append_chars;

verus! {

/// The most frames that may be in flight: one per letter of the frame tags.
pub const MAX_FRAMES_IN_FLIGHT: usize = 4;

/// The letter that names frame slot `label` in debug names: A, B, C, D.
pub open spec fn frame_tag_spec(label: nat) -> char {
    if label == 0 { 'A' } else if label == 1 { 'B' } else if label == 2 { 'C' } else { 'D' }
}

/// The letter of frame slot `label`.
pub fn frame_tag(label: usize) -> (c: char)
    requires
        label < MAX_FRAMES_IN_FLIGHT,
    ensures
        c == frame_tag_spec(label as nat),
{
    if label == 0 { 'A' } else if label == 1 { 'B' } else if label == 2 { 'C' } else { 'D' }
}

/// The slot that follows slot `label` in a ring of `frames_in_flight` slots.
pub open spec fn next_label(label: nat, frames_in_flight: nat) -> nat {
    (label + 1) % frames_in_flight
}

/// The slot reached from `label` after `n` frames have been submitted.
pub open spec fn label_after(label: nat, frames_in_flight: nat, n: nat) -> nat
    decreases n,
{
    if n == 0 { label } else { next_label(label_after(label, frames_in_flight, (n - 1) as nat), frames_in_flight) }
}

/// The debug prefix of a frame: `[frame-<tag>-<number>]`.
pub open spec fn frame_prefix_spec(label: nat, frame_id: nat) -> Seq<char> {
    seq!['[', 'f', 'r', 'a', 'm', 'e', '-', frame_tag_spec(label), '-'] + decimal(frame_id) + seq![']']
}

/// `<base>_<tag>`: the name of the per-slot object `base` for slot `label`.
pub open spec fn slot_object_name(base: Seq<char>, label: nat) -> Seq<char> {
    base + seq!['_', frame_tag_spec(label)]
}

/// `<base><index>`: the name of the `index`-th object of a numbered series.
pub open spec fn indexed_name(base: Seq<char>, index: nat) -> Seq<char> {
    base + decimal(index)
}

/// Bookkeeping of the frames in flight: the slot being recorded (`frame_label`),
/// the ever-increasing frame number (`frame_id`), and for every slot the command
/// buffers that were handed out while that slot was recorded, so that they can be
/// freed together once the slot comes around again.
pub struct FrameTracker<C> {
    frame_label: usize,
    frame_cnt_in_flight: usize,
    frame_id: usize,
    allocated_command_buffers: Vec<Vec<C>>,
}

impl<C> FrameTracker<C> {
    pub closed spec fn label(&self) -> nat {
        self.frame_label as nat
    }

    pub closed spec fn frames_in_flight(&self) -> nat {
        self.frame_cnt_in_flight as nat
    }

    pub closed spec fn frame_id(&self) -> nat {
        self.frame_id as nat
    }

    /// The command buffers handed out for each slot and not yet reclaimed.
    pub closed spec fn slots(&self) -> Seq<Seq<C>> {
        self.allocated_command_buffers@.map_values(|v: Vec<C>| v@)
    }

    /// The tracker's invariant: between 1 and 4 slots, the current slot is one of
    /// them, and there is one list of command buffers per slot.
    pub closed spec fn wf(&self) -> bool {
        &&& 1 <= self.frame_cnt_in_flight <= MAX_FRAMES_IN_FLIGHT
        &&& self.frame_label < self.frame_cnt_in_flight
        &&& self.allocated_command_buffers@.len() == self.frame_cnt_in_flight
    }

    pub proof fn lemma_wf(&self)
        requires
            self.wf(),
        ensures
            1 <= self.frames_in_flight() <= MAX_FRAMES_IN_FLIGHT,
            self.label() < self.frames_in_flight(),
            self.slots().len() == self.frames_in_flight(),
    {
    }

    /// A tracker for `frames_in_flight` slots: recording starts in slot A with
    /// frame number 0 and no command buffers handed out.
    pub fn new(frames_in_flight: usize) -> (t: Self)
        requires
            1 <= frames_in_flight <= MAX_FRAMES_IN_FLIGHT,
        ensures
            t.wf(),
            t.label() == 0,
            t.frame_id() == 0,
            t.frames_in_flight() == frames_in_flight,
            t.slots() == Seq::new(frames_in_flight as nat, |i: int| Seq::<C>::empty()),
    {
        let mut lists: Vec<Vec<C>> = Vec::new();
        let mut i: usize = 0;
        while i < frames_in_flight
            invariant
                i <= frames_in_flight,
                lists@.len() == i,
                forall|j: int| 0 <= j < i ==> (#[trigger] lists@[j])@ == Seq::<C>::empty(),
            decreases frames_in_flight - i,
        {
            lists.push(Vec::new());
            i = i + 1;
        }
        let t = FrameTracker {
            frame_label: 0,
            frame_cnt_in_flight: frames_in_flight,
            frame_id: 0,
            allocated_command_buffers: lists,
        };
        assert(t.slots() =~= Seq::new(frames_in_flight as nat, |i: int| Seq::<C>::empty()));
        t
    }

    /// The slot being recorded: 0 for A, 1 for B, ...
    pub fn current_frame_label(&self) -> (r: usize)
        ensures
            r == self.label(),
    {
        self.frame_label
    }

    /// The number of the frame being recorded; it grows by one per submitted frame.
    pub fn current_frame_num(&self) -> (r: usize)
        ensures
            r == self.frame_id(),
    {
        self.frame_id
    }

    pub fn frame_cnt_in_flight(&self) -> (r: usize)
        ensures
            r == self.frames_in_flight(),
    {
        self.frame_cnt_in_flight
    }

    /// Moves on to the next frame after the current one has been submitted:
    /// the slot advances cyclically and the frame number grows by one.
    pub fn advance(&mut self)
        requires
            old(self).wf(),
            old(self).frame_id() < usize::MAX,
        ensures
            final(self).wf(),
            final(self).label() == next_label(old(self).label(), old(self).frames_in_flight()),
            final(self).frame_id() == old(self).frame_id() + 1,
            final(self).frames_in_flight() == old(self).frames_in_flight(),
            final(self).slots() == old(self).slots(),
    {
        self.frame_label = (self.frame_label + 1) % self.frame_cnt_in_flight;
        self.frame_id = self.frame_id + 1;
    }

    /// Hands back, and forgets, the command buffers of the current slot, so they
    /// can be freed when the slot is acquired again; other slots keep theirs.
    pub fn take_current_commands(&mut self) -> (taken: Vec<C>)
        requires
            old(self).wf(),
        ensures
            final(self).wf(),
            taken@ == old(self).slots()[old(self).label() as int],
            final(self).slots() == old(self).slots().update(old(self).label() as int, Seq::<C>::empty()),
            final(self).label() == old(self).label(),
            final(self).frame_id() == old(self).frame_id(),
            final(self).frames_in_flight() == old(self).frames_in_flight(),
    {
        let mut taken: Vec<C> = Vec::new();
        let ghost old_lists = self.allocated_command_buffers@;
        let label = self.frame_label;
        self.allocated_command_buffers.set_and_swap(label, &mut taken);
        assert(self.slots() =~= old(self).slots().update(label as int, Seq::<C>::empty()));
        taken
    }

    /// Records that `cmd` was handed out while the current slot is recorded.
    pub fn record_command(&mut self, cmd: C)
        requires
            old(self).wf(),
        ensures
            final(self).wf(),
            final(self).slots() == old(self).slots().update(
                old(self).label() as int,
                old(self).slots()[old(self).label() as int].push(cmd),
            ),
            final(self).label() == old(self).label(),
            final(self).frame_id() == old(self).frame_id(),
            final(self).frames_in_flight() == old(self).frames_in_flight(),
    {
        let label = self.frame_label;
        let mut list: Vec<C> = Vec::new();
        self.allocated_command_buffers.set_and_swap(label, &mut list);
        list.push(cmd);
        self.allocated_command_buffers.set_and_swap(label, &mut list);
        assert(self.slots() =~= old(self).slots().update(
            label as int,
            old(self).slots()[label as int].push(cmd),
        ));
    }

    /// The debug prefix of the current frame, e.g. `[frame-A-113]`.
    pub fn current_frame_prefix(&self) -> (s: Vec<char>)
        requires
            self.wf(),
        ensures
            s@ == frame_prefix_spec(self.label(), self.frame_id()),
    {
        let mut s: Vec<char> = vec!['[', 'f', 'r', 'a', 'm', 'e', '-'];
        s.push(frame_tag(self.frame_label));
        s.push('-');
        let digits = format_decimal(self.frame_id);
        append_chars(&mut s, &digits);
        s.push(']');
        assert(s@ =~= frame_prefix_spec(self.label(), self.frame_id()));
        s
    }

    /// The debug name of a command buffer handed out in the current frame:
    /// the frame prefix followed by `debug_name`.
    pub fn command_buffer_name(&self, debug_name: &Vec<char>) -> (s: Vec<char>)
        requires
            self.wf(),
        ensures
            s@ == frame_prefix_spec(self.label(), self.frame_id()) + debug_name@,
    {
        let mut s = self.current_frame_prefix();
        append_chars(&mut s, debug_name);
        s
    }
}

/// The names of one object per slot, `<base>_A`, `<base>_B`, ... (semaphores and
/// fences of the frames in flight are named this way).
pub fn slot_object_names(base: &Vec<char>, frames_in_flight: usize) -> (names: Vec<Vec<char>>)
    requires
        frames_in_flight <= MAX_FRAMES_IN_FLIGHT,
    ensures
        names@.len() == frames_in_flight,
        forall|i: int| 0 <= i < frames_in_flight ==> (#[trigger] names@[i])@ == slot_object_name(base@, i as nat),
{
    let mut names: Vec<Vec<char>> = Vec::new();
    let mut i: usize = 0;
    while i < frames_in_flight
        invariant
            i <= frames_in_flight <= MAX_FRAMES_IN_FLIGHT,
            names@.len() == i,
            forall|j: int| 0 <= j < i ==> (#[trigger] names@[j])@ == slot_object_name(base@, j as nat),
        decreases frames_in_flight - i,
    {
        let mut name: Vec<char> = Vec::new();
        append_chars(&mut name, base);
        name.push('_');
        name.push(frame_tag(i));
        assert(name@ =~= slot_object_name(base@, i as nat));
        names.push(name);
        i = i + 1;
    }
    names
}

/// The names `<base>0`, `<base>1`, ... of `count` numbered objects (per-frame
/// command pools and render-target images are named this way).
pub fn indexed_names(base: &Vec<char>, count: usize) -> (names: Vec<Vec<char>>)
    ensures
        names@.len() == count,
        forall|i: int| 0 <= i < count ==> (#[trigger] names@[i])@ == indexed_name(base@, i as nat),
{
    let mut names: Vec<Vec<char>> = Vec::new();
    let mut i: usize = 0;
    while i < count
        invariant
            i <= count,
            names@.len() == i,
            forall|j: int| 0 <= j < i ==> (#[trigger] names@[j])@ == indexed_name(base@, j as nat),
        decreases count - i,
    {
        let mut name: Vec<char> = Vec::new();
        append_chars(&mut name, base);
        let digits = format_decimal(i);
        append_chars(&mut name, &digits);
        names.push(name);
        i = i + 1;
    }
    names
}

/// After `n` submitted frames the slot being recorded is `(label + n) mod frames_in_flight`:
/// the slots are visited round-robin, one per frame.
pub proof fn lemma_label_after(label: nat, frames_in_flight: nat, n: nat)
    requires
        label < frames_in_flight,
    ensures
        label_after(label, frames_in_flight, n) == (label + n) % frames_in_flight,
    decreases n,
{
    if n > 0 {
        lemma_label_after(label, frames_in_flight, (n - 1) as nat);
        vstd::arithmetic::div_mod::lemma_add_mod_noop_right(1, label + n - 1, frames_in_flight as int);
        assert(label_after(label, frames_in_flight, n)
            == (label_after(label, frames_in_flight, (n - 1) as nat) + 1) % frames_in_flight);
    } else {
        vstd::arithmetic::div_mod::lemma_small_mod(label, frames_in_flight);
    }
}

/// A slot comes around again exactly every `frames_in_flight` frames: its command
/// buffers are reclaimed only after every other slot has been recorded once.
pub proof fn lemma_slot_period(label: nat, frames_in_flight: nat, n: nat)
    requires
        label < frames_in_flight,
    ensures
        label_after(label, frames_in_flight, n) == label <==> n % frames_in_flight == 0,
{
    lemma_label_after(label, frames_in_flight, n);
    let f = frames_in_flight as int;
    vstd::arithmetic::div_mod::lemma_add_mod_noop(label as int, n as int, f);
    vstd::arithmetic::div_mod::lemma_small_mod(label, frames_in_flight);
    let m = (n as int) % f;
    vstd::arithmetic::div_mod::lemma_mod_bound(n as int, f);
    if label + m < f {
        vstd::arithmetic::div_mod::lemma_small_mod((label + m) as nat, frames_in_flight);
    } else {
        vstd::arithmetic::div_mod::lemma_mod_add_multiples_vanish(label + m - f, f);
        vstd::arithmetic::div_mod::lemma_small_mod((label + m - f) as nat, frames_in_flight);
    }
}


/// Different frames get different debug prefixes, so the names of the command
/// buffers of different frames never clash.
pub proof fn lemma_frame_prefixes_distinct(label_a: nat, id_a: nat, label_b: nat, id_b: nat)
    requires
        id_a != id_b,
    ensures
        frame_prefix_spec(label_a, id_a) != frame_prefix_spec(label_b, id_b),
{
    crate::text::lemma_decimal_round_trip(id_a);
    crate::text::lemma_decimal_round_trip(id_b);
    let pa = frame_prefix_spec(label_a, id_a);
    let pb = frame_prefix_spec(label_b, id_b);
    if pa == pb {
        assert(pa.skip(9).drop_last() == decimal(id_a));
        assert(pb.skip(9).drop_last() == decimal(id_b));
    }
}

} // verus!
