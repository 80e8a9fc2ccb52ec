use vstd::prelude::*;

verus! {

#[derive(Copy, Clone)]
pub enum Button {
    A,
    B,
    Select,
    Start,
    Up,
    Down,
    Left,
    Right,
}

/// The bit of the status byte that holds `button`.
pub open spec fn button_bit(button: Button) -> u8 {
    match button {
        Button::A => 0,
        Button::B => 1,
        Button::Select => 2,
        Button::Start => 3,
        Button::Up => 4,
        Button::Down => 5,
        Button::Left => 6,
        Button::Right => 7,
    }
}

/// A standard controller read through $4016: eight buttons reported one bit per read.
pub struct Joypad {
    button_index: u8,
    button_status: u8,
}

impl Joypad {
    #[verifier::type_invariant]
    spec fn inv(self) -> bool {
        self.button_index <= 8
    }

    /// The byte holding one bit per pressed button.
    pub closed spec fn status(self) -> u8 {
        self.button_status
    }

    /// How many reads were made since the last write, stopping at 8.
    pub closed spec fn index(self) -> u8 {
        self.button_index
    }

    /// What the next read reports: the next button in the order A, B, Select, Start,
    /// Up, Down, Left, Right, then 1 once all eight were reported.
    pub open spec fn next_read(self) -> u8 {
        if self.index() < 8 { (self.status() >> self.index()) & 1 } else { 1 }
    }

    /// The read count after one more read.
    pub open spec fn next_index(self) -> u8 {
        if self.index() < 8 { (self.index() + 1) as u8 } else { 8 }
    }

    pub fn new() -> (r: Self)
        ensures
            r.status() == 0,
            r.index() == 0,
    {
        Joypad { button_index: 0, button_status: 0 }
    }

    /// A write to $4016 restarts the report at button A.
    pub fn write(&mut self, _value: u8)
        ensures
            final(self).index() == 0,
            final(self).status() == old(self).status(),
    {
        self.button_index = 0;
    }

    pub fn read_status(&self) -> (r: u8)
        ensures
            r == self.status(),
    {
        self.button_status
    }

    /// Returns the state of the next button in the order A, B, Select, Start,
    /// Up, Down, Left, Right; after the eighth read, and until the next write, 1.
    pub fn read(&mut self) -> (r: u8)
        ensures
            r == old(self).next_read(),
            final(self).index() == old(self).next_index(),
            final(self).status() == old(self).status(),
            old(self).index() <= 8,
    {
        proof {
            use_type_invariant(&*self);
        }
        if self.button_index < 8 {
            let result = (self.button_status >> self.button_index) & 1;
            self.button_index = self.button_index + 1;
            result
        } else {
            1
        }
    }

    fn index_of(button: Button) -> (r: u8)
        ensures
            r == button_bit(button),
    {
        match button {
            Button::A => 0,
            Button::B => 1,
            Button::Select => 2,
            Button::Start => 3,
            Button::Up => 4,
            Button::Down => 5,
            Button::Left => 6,
            Button::Right => 7,
        }
    }

    /// Marks `button` pressed (`status`) or released, leaving the other buttons unchanged.
    pub fn set_button_status(&mut self, button: Button, status: bool)
        ensures
            status ==> final(self).status() == old(self).status() | (1u8 << button_bit(button)),
            !status ==> final(self).status() == old(self).status() & !(1u8 << button_bit(button)),
            final(self).index() == old(self).index(),
    {
        proof {
            use_type_invariant(&*self);
        }
        let bit = Self::index_of(button);
        if status {
            self.button_status = self.button_status | (1u8 << bit);
        } else {
            self.button_status = self.button_status & !(1u8 << bit);
        }
    }
}

impl Default for Joypad {
    fn default() -> (r: Self)
        ensures
            r.status() == 0,
            r.index() == 0,
    {
        Joypad::new()
    }
}

/// Law: pressing a button makes the matching read report 1, and releasing it
/// makes it report 0; the other buttons keep their state.
pub proof fn lemma_button_read_back(status: u8, b: Button, other: Button, pressed: bool)
    ensures
        ({
            let s = if pressed { status | (1u8 << button_bit(b)) } else { status & !(1u8 << button_bit(b)) };
            &&& (s >> button_bit(b)) & 1 == (if pressed { 1u8 } else { 0u8 })
            &&& button_bit(other) != button_bit(b) ==>
                (s >> button_bit(other)) & 1 == (status >> button_bit(other)) & 1
        }),
{
    let i = button_bit(b);
    let j = button_bit(other);
    assert(i < 8 && j < 8);
    lemma_status_bits(status, i, j);
}

/// Setting or clearing bit `i` of the status byte changes bit `i` only.
proof fn lemma_status_bits(status: u8, i: u8, j: u8)
    by (bit_vector)
    ensures
        i < 8 ==> ((status | (1u8 << i)) >> i) & 1 == 1u8,
        i < 8 ==> ((status & !(1u8 << i)) >> i) & 1 == 0u8,
        i < 8 && j < 8 && i != j ==> ((status | (1u8 << i)) >> j) & 1 == (status >> j) & 1,
        i < 8 && j < 8 && i != j ==> ((status & !(1u8 << i)) >> j) & 1 == (status >> j) & 1,
{
}

/// Law: after a write to $4016 (read count 0), the `k`-th read of a run of reads in which
/// no button changes gives button `k` of the status byte for `k` below 8 (in the order A,
/// B, Select, Start, Up, Down, Left, Right), and 1 from then on.
pub proof fn lemma_reads_after_write(js: Seq<Joypad>, rs: Seq<u8>)
    requires
        js.len() == rs.len() + 1,
        js[0].index() == 0,
        forall|i: int| 0 <= i < rs.len() ==> #[trigger] rs[i] == js[i].next_read()
            && js[i + 1].index() == js[i].next_index() && js[i + 1].status() == js[i].status(),
    ensures
        forall|i: int| 0 <= i < rs.len() ==> #[trigger] rs[i] == (if i < 8 {
            (js[0].status() >> (i as u8)) & 1
        } else {
            1u8
        }),
    decreases rs.len(),
{
    if rs.len() > 0 {
        let k = rs.len() - 1;
        lemma_reads_after_write(js.drop_last(), rs.drop_last());
        lemma_read_count(js, rs, k);
        assert forall|i: int| 0 <= i < rs.len() implies #[trigger] rs[i] == (if i < 8 {
            (js[0].status() >> (i as u8)) & 1
        } else {
            1u8
        }) by {
            if i < k {
                assert(rs.drop_last()[i] == rs[i]);
                assert(js.drop_last()[0] == js[0]);
            }
        }
    }
}

/// After `k` reads from a write, the read count is `k`, stopping at 8, and the status is
/// unchanged.
proof fn lemma_read_count(js: Seq<Joypad>, rs: Seq<u8>, k: int)
    requires
        js.len() == rs.len() + 1,
        js[0].index() == 0,
        forall|i: int| 0 <= i < rs.len() ==> #[trigger] rs[i] == js[i].next_read()
            && js[i + 1].index() == js[i].next_index() && js[i + 1].status() == js[i].status(),
        0 <= k <= rs.len(),
    ensures
        js[k].index() == (if k < 8 { k } else { 8 }),
        js[k].status() == js[0].status(),
    decreases k,
{
    if k > 0 {
        lemma_read_count(js, rs, k - 1);
        assert(rs[k - 1] == js[k - 1].next_read());
    }
}

} // verus!
