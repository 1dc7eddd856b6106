//! The click counter of the main page.

use vstd::prelude::*;

verus! {

/// Counts the clicks on the main page's button. The count starts at zero and
/// is what the button displays.
#[derive(Debug)]
pub struct Counter {
    count: i32,
}

impl View for Counter {
    type V = nat;

    closed spec fn view(&self) -> nat {
        self.count as nat
    }
}

/// The count after one more click.
pub open spec fn clicked(count: nat) -> nat {
    count + 1
}

/// The count after `clicks` more clicks, one after the other.
pub open spec fn after_clicks(count: nat, clicks: nat) -> nat
    decreases clicks,
{
    if clicks == 0 {
        count
    } else {
        clicked(after_clicks(count, (clicks - 1) as nat))
    }
}

impl Counter {
    #[verifier::type_invariant]
    spec fn never_negative(self) -> bool {
        self.count >= 0
    }

    /// A counter that no click has reached yet.
    pub fn new() -> (counter: Self)
        ensures
            counter@ == 0,
    {
        Counter { count: 0 }
    }

    /// The count to display.
    pub fn count(&self) -> (count: i32)
        ensures
            count == self@,
    {
        proof {
            use_type_invariant(self);
        }
        self.count
    }

    /// Takes one click. The count is held in an `i32`, which has room for
    /// `i32::MAX` clicks and no more.
    pub fn click(&mut self)
        requires
            old(self)@ < i32::MAX,
        ensures
            final(self)@ == clicked(old(self)@),
    {
        proof {
            use_type_invariant(&*self);
        }
        self.count = self.count + 1;
    }
}

/// Any number of clicks adds that number to the count.
pub proof fn lemma_clicks_add_up(count: nat, clicks: nat)
    ensures
        after_clicks(count, clicks) == count + clicks,
    decreases clicks,
{
    if clicks > 0 {
        lemma_clicks_add_up(count, (clicks - 1) as nat);
    }
}

/// On a new counter, which shows zero, the count after any number of clicks is
/// that number.
pub proof fn lemma_count_is_number_of_clicks(clicks: nat)
    ensures
        after_clicks(0, clicks) == clicks,
{
    lemma_clicks_add_up(0, clicks);
}

} // verus!
