//! Buttons that call a body when the player presses the interaction key near them.
use vstd::prelude::*;

verus! {

/// A call sent to the body whose entity id is `target`.
#[derive(Clone, Copy, PartialEq, Eq, Structural, Debug)]
pub struct Interact {
    pub target: u64,
}

/// A button as the interaction check sees it: the entity id of the body it
/// calls, and whether the player stands within the button's range.
#[derive(Clone, Copy, PartialEq, Eq, Structural, Debug)]
pub struct ButtonReach {
    pub target: u64,
    pub in_range: bool,
}

/// The call a button sends, if the player is within its range.
pub open spec fn call_of(b: ButtonReach) -> Option<Interact> {
    if b.in_range {
        Some(Interact { target: b.target })
    } else {
        None
    }
}

/// The calls that a press of the interaction key sends: one for each button
/// in range, in the order of the buttons.
pub open spec fn calls(buttons: Seq<ButtonReach>) -> Seq<Interact> {
    buttons.filter_map(|b: ButtonReach| call_of(b))
}

/// The calls sent on one frame. Without a fresh press of the interaction key
/// nothing is sent; with one, each button within range sends a call to its
/// target, in the order of `buttons`.
pub fn button_interact(key_just_pressed: bool, buttons: &Vec<ButtonReach>) -> (out: Vec<Interact>)
    ensures
        out@ == (if key_just_pressed {
            calls(buttons@)
        } else {
            Seq::<Interact>::empty()
        }),
{
    let mut out: Vec<Interact> = Vec::new();
    if !key_just_pressed {
        return out;
    }
    let mut i: usize = 0;
    while i < buttons.len()
        invariant
            i <= buttons.len(),
            out@ == calls(buttons@.take(i as int)),
        decreases buttons.len() - i,
    {
        proof {
            buttons@.lemma_filter_map_take_succ(|b: ButtonReach| call_of(b), i as int);
        }
        let b = buttons[i];
        if b.in_range {
            out.push(Interact { target: b.target });
        }
        i = i + 1;
    }
    proof {
        assert(buttons@.take(buttons.len() as int) == buttons@);
    }
    out
}

/// No buttons send no calls; adding a button at the end adds exactly its call
/// at the end when it is in range, and nothing otherwise. Together these fix
/// the calls of every row of buttons: one per button in range, in order.
pub proof fn lemma_calls_one_per_button_in_range(s: Seq<ButtonReach>, b: ButtonReach)
    ensures
        calls(Seq::<ButtonReach>::empty()) == Seq::<Interact>::empty(),
        calls(s.push(b)) == (if b.in_range {
            calls(s).push(Interact { target: b.target })
        } else {
            calls(s)
        }),
{
    assert(s.push(b).drop_last() =~= s);
    assert(s.push(b).last() == b);
}

/// The number of calls is the number of buttons in range.
pub proof fn lemma_calls_len(s: Seq<ButtonReach>)
    ensures
        calls(s).len() == s.filter(|b: ButtonReach| b.in_range).len(),
    decreases s.len(),
{
    reveal(Seq::filter);
    if s.len() > 0 {
        lemma_calls_len(s.drop_last());
        lemma_calls_one_per_button_in_range(s.drop_last(), s.last());
        assert(s.drop_last().push(s.last()) =~= s);
    }
}

} // verus!
