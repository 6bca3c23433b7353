use vstd::prelude::*;

verus! {

/// A source of ids that count upwards: request ids, delivery tags.
#[derive(Clone, Copy, Debug, PartialEq, Eq, Structural)]
pub struct IdSequence {
    pub allow_zero: bool,
    pub id: u64,
}

impl IdSequence {
    pub fn new(allow_zero: bool) -> (r: Self)
        ensures
            r == (IdSequence { allow_zero, id: 0 }),
    {
        IdSequence { allow_zero, id: 0 }
    }

    /// The id that `next` hands out next.
    pub open spec fn upcoming(self) -> u64 {
        if !self.allow_zero && self.id == 0 {
            1
        } else {
            self.id
        }
    }

    pub fn peek(&self) -> (r: u64)
        ensures
            r == self.upcoming(),
    {
        if !self.allow_zero && self.id == 0 {
            1
        } else {
            self.id
        }
    }

    /// Hands out the upcoming id. The id after the largest one starts the
    /// sequence again.
    pub fn next(&mut self) -> (r: u64)
        ensures
            r == old(self).upcoming(),
            final(self).allow_zero == old(self).allow_zero,
            final(self).id == if r == u64::MAX {
                0
            } else {
                r + 1
            },
            r < u64::MAX ==> final(self).upcoming() == r + 1,
            !old(self).allow_zero ==> r != 0,
    {
        if !self.allow_zero && self.id == 0 {
            self.id = 1;
        }
        let id = self.id;
        self.id = if id == u64::MAX {
            0
        } else {
            id + 1
        };
        id
    }
}

} // verus!
