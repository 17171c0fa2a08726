//! The Right Option key, held down for push-to-talk.

use vstd::prelude::*;

verus! {

/// The key's virtual key code.
pub const RIGHT_OPTION_KEY_CODE: u16 = 61;

/// Key events are made as if they came from the HID system.
pub const EVENT_SOURCE_STATE_HID_SYSTEM_STATE: u32 = 1;

/// Key events are posted at the HID level.
pub const EVENT_TAP_HID: u32 = 0;

/// The Right Option key, and whether it is held down by us.
#[derive(Debug)]
pub struct RightOptionKey {
    pub held: bool,
}

impl RightOptionKey {
    /// The key, not held.
    pub fn new() -> (r: RightOptionKey)
        ensures
            !r.held,
    {
        RightOptionKey { held: false }
    }

    /// What to post for a press: that the key went down, unless it is held
    /// already.
    pub fn press(&self) -> (r: Option<bool>)
        ensures
            r == to_post(self.held, true),
    {
        if self.held {
            None
        } else {
            Some(true)
        }
    }

    /// What to post for a release: that the key went up, if it is held. The
    /// same goes for a key that is given up.
    pub fn release(&self) -> (r: Option<bool>)
        ensures
            r == to_post(self.held, false),
    {
        if self.held {
            Some(false)
        } else {
            None
        }
    }

    /// Notes whether an event went through: the key is then as the event says,
    /// and otherwise as it was.
    pub fn posted(&mut self, key_down: bool, ok: bool)
        ensures
            final(self).held == held_after(old(self).held, key_down, ok),
    {
        if ok {
            self.held = key_down;
        }
    }
}

/// What to post so that the key is down or up, if it is not so already.
pub open spec fn to_post(held: bool, key_down: bool) -> Option<bool> {
    if held == key_down {
        None
    } else {
        Some(key_down)
    }
}

/// Whether the key is held after an event was posted.
pub open spec fn held_after(held: bool, key_down: bool, ok: bool) -> bool {
    if ok {
        key_down
    } else {
        held
    }
}

/// A press or a release in a key's life.
pub struct Use {
    /// Whether it is a press.
    pub press: bool,
    /// Whether the event that it posts, if it posts one, goes through.
    pub ok: bool,
}

/// Whether the key is held after some uses of it.
pub open spec fn held_in_the_end(uses: Seq<Use>) -> bool
    decreases uses.len(),
{
    if uses.len() == 0 {
        false
    } else {
        let held = held_in_the_end(uses.drop_last());
        match to_post(held, uses.last().press) {
            Some(key_down) => held_after(held, key_down, uses.last().ok),
            None => held,
        }
    }
}

/// The events that went through over some uses of the key, in order.
pub open spec fn events_of(uses: Seq<Use>) -> Seq<bool>
    decreases uses.len(),
{
    if uses.len() == 0 {
        seq![]
    } else {
        let before = events_of(uses.drop_last());
        match to_post(held_in_the_end(uses.drop_last()), uses.last().press) {
            Some(key_down) => if uses.last().ok {
                before.push(key_down)
            } else {
                before
            },
            None => before,
        }
    }
}

/// Over a key's life its events alternate, starting with one that it went down,
/// however it is pressed and released and whichever events fail; and it is held
/// exactly while the last of them says that it is down.
pub proof fn law_key_events_alternate(uses: Seq<Use>)
    ensures
        forall|i: int| 0 <= i < events_of(uses).len() ==> #[trigger] events_of(uses)[i] == (i % 2
            == 0),
        held_in_the_end(uses) == (events_of(uses).len() % 2 == 1),
    decreases uses.len(),
{
    if uses.len() > 0 {
        law_key_events_alternate(uses.drop_last());
    }
}

/// A release at the end, if its event goes through, leaves the key up: its
/// events are then as many ups as downs, or none at all.
pub proof fn law_a_last_release_leaves_nothing_held(uses: Seq<Use>, last: Use)
    requires
        !last.press,
        last.ok,
    ensures
        !held_in_the_end(uses.push(last)),
        events_of(uses.push(last)).len() % 2 == 0,
        events_of(uses.push(last)) == if held_in_the_end(uses) {
            events_of(uses).push(false)
        } else {
            events_of(uses)
        },
{
    assert(uses.push(last).drop_last() =~= uses);
    law_key_events_alternate(uses.push(last));
}

/// A press while the key is held and a release while it is not post nothing and
/// change nothing.
pub proof fn law_needless_uses_post_nothing(uses: Seq<Use>, last: Use)
    requires
        last.press == held_in_the_end(uses),
    ensures
        events_of(uses.push(last)) == events_of(uses),
        held_in_the_end(uses.push(last)) == held_in_the_end(uses),
{
    assert(uses.push(last).drop_last() =~= uses);
}

/// A press of a key that is up posts that it went down, and a release of one that
/// is down that it went up; if that goes through, so it is, and if not, it is as
/// it was.
pub proof fn law_presses_and_releases(held: bool)
    ensures
        to_post(false, true) == Some(true),
        to_post(true, false) == Some(false),
        to_post(true, true) is None,
        to_post(false, false) is None,
        held_after(held, true, true),
        !held_after(held, false, true),
        held_after(held, true, false) == held,
        held_after(held, false, false) == held,
{
}

/// A press that goes through leaves the key held, whatever came before.
pub proof fn law_a_press_holds_the_key(uses: Seq<Use>, last: Use)
    requires
        last.press,
        last.ok,
    ensures
        held_in_the_end(uses.push(last)),
        events_of(uses.push(last)) == if held_in_the_end(uses) {
            events_of(uses)
        } else {
            events_of(uses).push(true)
        },
{
    assert(uses.push(last).drop_last() =~= uses);
}

/// The key is the right one: code 61, posted as from the HID system at the HID
/// level.
pub proof fn law_which_key_it_is()
    ensures
        RIGHT_OPTION_KEY_CODE == 61,
        EVENT_SOURCE_STATE_HID_SYSTEM_STATE == 1,
        EVENT_TAP_HID == 0,
{
}

} // verus!
