use vstd::prelude::*;

use crate::registry::Registry;

verus! {

/// What a keyed state holds: boolean flags and integer values, by name.
pub struct StateView {
    pub flags: Map<Seq<char>, bool>,
    pub values: Map<Seq<char>, i32>,
}

/// One write into a keyed state.
pub enum StateWrite {
    Flag(Seq<char>, bool),
    Value(Seq<char>, i32),
    Clear,
}

/// The state in which nothing has been written.
pub open spec fn empty_state() -> StateView {
    StateView { flags: Map::empty(), values: Map::empty() }
}

/// The flag `k` as read from `v`: false where it was never set.
pub open spec fn flag_read(v: StateView, k: Seq<char>) -> bool {
    if v.flags.contains_key(k) {
        v.flags[k]
    } else {
        false
    }
}

/// The value `k` as read from `v`: zero where it was never set.
pub open spec fn value_read(v: StateView, k: Seq<char>) -> i32 {
    if v.values.contains_key(k) {
        v.values[k]
    } else {
        0
    }
}

/// The state after the write `w`.
pub open spec fn apply_write(v: StateView, w: StateWrite) -> StateView {
    match w {
        StateWrite::Flag(k, b) => StateView { flags: v.flags.insert(k, b), values: v.values },
        StateWrite::Value(k, x) => StateView { flags: v.flags, values: v.values.insert(k, x) },
        StateWrite::Clear => empty_state(),
    }
}

/// The state after the writes `ws`, in order.
pub open spec fn apply_writes(v: StateView, ws: Seq<StateWrite>) -> StateView
    decreases ws.len(),
{
    if ws.len() == 0 {
        v
    } else {
        apply_write(apply_writes(v, ws.drop_last()), ws.last())
    }
}

/// Whether the write `w` stores something under the key `k`.
pub open spec fn writes_key(w: StateWrite, k: Seq<char>) -> bool {
    match w {
        StateWrite::Flag(n, _) => n == k,
        StateWrite::Value(n, _) => n == k,
        StateWrite::Clear => false,
    }
}

/// A key that no write ever stored reads as its default: the flag as false,
/// the value as zero.
pub proof fn lemma_unwritten_key_reads_default(ws: Seq<StateWrite>, k: Seq<char>)
    requires
        forall|i: int| 0 <= i < ws.len() ==> !writes_key(#[trigger] ws[i], k),
    ensures
        flag_read(apply_writes(empty_state(), ws), k) == false,
        value_read(apply_writes(empty_state(), ws), k) == 0,
    decreases ws.len(),
{
    if ws.len() > 0 {
        let rest = ws.drop_last();
        assert forall|i: int| 0 <= i < rest.len() implies !writes_key(#[trigger] rest[i], k) by {
            assert(rest[i] == ws[i]);
        }
        lemma_unwritten_key_reads_default(rest, k);
        assert(!writes_key(ws[ws.len() - 1], k));
    }
}

/// A state of keyed flags and integer values, read and written by scenarios
/// and commands.
pub trait BaseState: Sized {
    /// What the state holds.
    spec fn state_view(&self) -> StateView;

    /// Well-formedness of the representation.
    spec fn well_formed(&self) -> bool;

    /// A state that holds nothing.
    fn new() -> (r: Self)
        ensures
            r.well_formed(),
            r.state_view() == empty_state(),
    ;

    /// Forgets every flag and value.
    fn clear(&mut self)
        requires
            old(self).well_formed(),
        ensures
            final(self).well_formed(),
            final(self).state_view() == apply_write(old(self).state_view(), StateWrite::Clear),
    ;

    /// Sets the flag `name` to `value`.
    fn set_flag(&mut self, name: String, value: bool)
        requires
            old(self).well_formed(),
        ensures
            final(self).well_formed(),
            final(self).state_view() == apply_write(
                old(self).state_view(),
                StateWrite::Flag(name@, value),
            ),
    ;

    /// The flag `name`; false where it was never set.
    fn get_flag(&self, name: String) -> (r: bool)
        requires
            self.well_formed(),
        ensures
            r == flag_read(self.state_view(), name@),
    ;

    /// Sets the integer value `name` to `value`.
    fn set_value(&mut self, name: String, value: i32)
        requires
            old(self).well_formed(),
        ensures
            final(self).well_formed(),
            final(self).state_view() == apply_write(
                old(self).state_view(),
                StateWrite::Value(name@, value),
            ),
    ;

    /// The integer value `name`; zero where it was never set.
    fn get_value(&self, name: String) -> (r: i32)
        requires
            self.well_formed(),
        ensures
            r == value_read(self.state_view(), name@),
    ;
}

/// A ready-made state: a table of flags and a table of integer values.
pub struct BasicState {
    flags: Registry<bool>,
    values: Registry<i32>,
}

impl BaseState for BasicState {
    closed spec fn state_view(&self) -> StateView {
        StateView { flags: self.flags@, values: self.values@ }
    }

    closed spec fn well_formed(&self) -> bool {
        self.flags.wf() && self.values.wf()
    }

    fn new() -> (r: BasicState) {
        BasicState { flags: Registry::new(), values: Registry::new() }
    }

    fn clear(&mut self) {
        self.flags = Registry::new();
        self.values = Registry::new();
    }

    fn set_flag(&mut self, name: String, value: bool) {
        self.flags.insert(name, value);
    }

    fn get_flag(&self, name: String) -> (r: bool) {
        match self.flags.get(&name) {
            Some(b) => *b,
            None => false,
        }
    }

    fn set_value(&mut self, name: String, value: i32) {
        self.values.insert(name, value);
    }

    fn get_value(&self, name: String) -> (r: i32) {
        match self.values.get(&name) {
            Some(x) => *x,
            None => 0,
        }
    }
}

} // verus!
