use vstd::prelude::*;

verus! {

/// Event-mask bit asking for key-press events on a window.
pub const KEY_PRESS_MASK: u32 = 0x1;

/// Event-mask bit asking for notifications about changes to a window's children.
pub const SUBSTRUCTURE_NOTIFY_MASK: u32 = 0x8_0000;

/// Event-mask bit asking to intercept configuration requests on a window's children.
pub const SUBSTRUCTURE_REDIRECT_MASK: u32 = 0x10_0000;

/// A category of server-generated events that a client may ask to receive.
#[derive(Debug, Clone, Copy, PartialEq, Eq, Structural)]
pub enum Input {
    SubstructureRedirect,
    SubstructureNotify,
    KeyPress,
}

impl Input {
    /// The event-mask bit that stands for this interest.
    pub open spec fn spec_mask(self) -> u32 {
        match self {
            Input::SubstructureRedirect => SUBSTRUCTURE_REDIRECT_MASK,
            Input::SubstructureNotify => SUBSTRUCTURE_NOTIFY_MASK,
            Input::KeyPress => KEY_PRESS_MASK,
        }
    }

    pub fn mask(&self) -> (r: u32)
        ensures
            r == self.spec_mask(),
    {
        match self {
            Input::SubstructureRedirect => SUBSTRUCTURE_REDIRECT_MASK,
            Input::SubstructureNotify => SUBSTRUCTURE_NOTIFY_MASK,
            Input::KeyPress => KEY_PRESS_MASK,
        }
    }
}

/// `m` when `present` holds, no bit otherwise.
pub open spec fn bit_if(present: bool, m: u32) -> u32 {
    if present {
        m
    } else {
        0
    }
}

/// The event mask that asks for exactly the interests in `s`.
pub open spec fn mask_of_set(s: Set<Input>) -> u32 {
    bit_if(s.contains(Input::SubstructureRedirect), SUBSTRUCTURE_REDIRECT_MASK) | bit_if(
        s.contains(Input::SubstructureNotify),
        SUBSTRUCTURE_NOTIFY_MASK,
    ) | bit_if(s.contains(Input::KeyPress), KEY_PRESS_MASK)
}

/// The bitwise OR of the masks of the interests in `s`, taken in order.
pub open spec fn or_of_masks(s: Seq<Input>) -> u32
    decreases s.len(),
{
    if s.len() == 0 {
        0
    } else {
        or_of_masks(s.drop_last()) | s.last().spec_mask()
    }
}

proof fn lemma_mask_of_set_insert(s: Set<Input>, i: Input)
    ensures
        mask_of_set(s.insert(i)) == mask_of_set(s) | i.spec_mask(),
{
    let a = bit_if(s.contains(Input::SubstructureRedirect), SUBSTRUCTURE_REDIRECT_MASK);
    let b = bit_if(s.contains(Input::SubstructureNotify), SUBSTRUCTURE_NOTIFY_MASK);
    let c = bit_if(s.contains(Input::KeyPress), KEY_PRESS_MASK);
    let m = i.spec_mask();
    match i {
        Input::SubstructureRedirect => {
            assert(bit_if(true, SUBSTRUCTURE_REDIRECT_MASK) == m);
            assert(a == 0 || a == m);
            assert((a | b | c) | m == (m | b | c)) by (bit_vector)
                requires
                    a == 0 || a == m,
            ;
        },
        Input::SubstructureNotify => {
            assert(b == 0 || b == m);
            assert((a | b | c) | m == (a | m | c)) by (bit_vector)
                requires
                    b == 0 || b == m,
            ;
        },
        Input::KeyPress => {
            assert(c == 0 || c == m);
            assert((a | b | c) | m == (a | b | m)) by (bit_vector)
                requires
                    c == 0 || c == m,
            ;
        },
    }
    assert(s.insert(i).contains(i));
}

/// The OR of the masks over a sequence is the mask of the set of its elements.
pub proof fn lemma_or_of_masks_is_mask_of_set(s: Seq<Input>)
    ensures
        or_of_masks(s) == mask_of_set(s.to_set()),
    decreases s.len(),
{
    if s.len() == 0 {
        assert(s.to_set() =~= Set::<Input>::empty());
        assert((0u32 | 0u32) | 0u32 == 0u32) by (bit_vector);
    } else {
        let init = s.drop_last();
        lemma_or_of_masks_is_mask_of_set(init);
        assert(s =~= init.push(s.last()));
        assert(s.to_set() =~= init.to_set().insert(s.last())) by {
            init.lemma_push_to_set_commute(s.last());
        }
        lemma_mask_of_set_insert(init.to_set(), s.last());
    }
}

/// The event mask asking for every interest in `inputs`.
pub fn combine(inputs: &Vec<Input>) -> (r: u32)
    ensures
        r == or_of_masks(inputs@),
        r == mask_of_set(inputs@.to_set()),
{
    let mut mask: u32 = 0;
    let mut i: usize = 0;
    while i < inputs.len()
        invariant
            i <= inputs@.len(),
            mask == or_of_masks(inputs@.take(i as int)),
        decreases inputs@.len() - i,
    {
        assert(inputs@.take(i as int + 1).drop_last() =~= inputs@.take(i as int));
        mask = mask | inputs[i].mask();
        i = i + 1;
    }
    assert(inputs@.take(i as int) =~= inputs@);
    proof {
        lemma_or_of_masks_is_mask_of_set(inputs@);
    }
    mask
}

/// Combining interests depends only on which interests are present: neither
/// their order nor repeated entries change the mask.
pub proof fn lemma_combine_depends_on_set_only(a: Seq<Input>, b: Seq<Input>)
    requires
        a.to_set() == b.to_set(),
    ensures
        or_of_masks(a) == or_of_masks(b),
{
    lemma_or_of_masks_is_mask_of_set(a);
    lemma_or_of_masks_is_mask_of_set(b);
}

proof fn lemma_concat_contains(a: Seq<Input>, b: Seq<Input>, x: Input)
    ensures
        (a + b).contains(x) <==> a.contains(x) || b.contains(x),
{
    if (a + b).contains(x) {
        let i = choose|i: int| 0 <= i < (a + b).len() && (a + b)[i] == x;
        if i < a.len() {
            assert(a[i] == x);
        } else {
            assert(b[i - a.len()] == x);
        }
    }
    if a.contains(x) {
        let i = choose|i: int| 0 <= i < a.len() && a[i] == x;
        assert((a + b)[i] == x);
    }
    if b.contains(x) {
        let i = choose|i: int| 0 <= i < b.len() && b[i] == x;
        assert((a + b)[a.len() + i] == x);
    }
}

/// Listing the same interests in another order gives the same mask.
pub proof fn lemma_combine_order_independent(a: Seq<Input>, b: Seq<Input>)
    ensures
        or_of_masks(a + b) == or_of_masks(b + a),
{
    assert((a + b).to_set() =~= (b + a).to_set()) by {
        assert forall|x: Input| (a + b).contains(x) <==> (b + a).contains(x) by {
            lemma_concat_contains(a, b, x);
            lemma_concat_contains(b, a, x);
        }
    }
    lemma_combine_depends_on_set_only(a + b, b + a);
}

/// Listing an interest again does not change the mask.
pub proof fn lemma_combine_duplicate_idempotent(s: Seq<Input>, i: int)
    requires
        0 <= i < s.len(),
    ensures
        or_of_masks(s.push(s[i])) == or_of_masks(s),
{
    assert(s.push(s[i]).to_set() =~= s.to_set()) by {
        s.lemma_push_to_set_commute(s[i]);
        assert(s.contains(s[i]));
    }
    lemma_combine_depends_on_set_only(s.push(s[i]), s);
}

} // verus!
