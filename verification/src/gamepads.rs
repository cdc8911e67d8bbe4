//! The list of connected gamepads, kept in the order in which they appeared,
//! and the choice of the gamepad that flies.

use vstd::prelude::*;
use vstd::string::StringExecFns;

verus! {

/// What the list becomes when the gamepad `id` connects: it is appended
/// unless it is already listed.
pub open spec fn after_connect(ids: Seq<usize>, id: usize) -> Seq<usize> {
    if ids.contains(id) {
        ids
    } else {
        ids.push(id)
    }
}

/// What the list becomes when the gamepad `id` disconnects: every entry for it
/// is dropped and the others keep their order.
pub open spec fn after_disconnect(ids: Seq<usize>, id: usize) -> Seq<usize> {
    ids.filter(other_than(id))
}

/// Holds of every identifier but `id`.
pub open spec fn other_than(id: usize) -> spec_fn(usize) -> bool {
    |x: usize| x != id
}

/// Dropping a gamepad that is not listed leaves the list as it is.
proof fn disconnect_unlisted_is_noop(ids: Seq<usize>, id: usize)
    requires
        !ids.contains(id),
    ensures
        after_disconnect(ids, id) == ids,
    decreases ids.len(),
{
    reveal_with_fuel(Seq::<_>::filter, 1);
    if ids.len() > 0 {
        let rest = ids.drop_last();
        assert(!rest.contains(id)) by {
            if rest.contains(id) {
                let k = choose|k: int| 0 <= k < rest.len() && rest[k] == id;
                assert(ids[k] == id);
            }
        }
        disconnect_unlisted_is_noop(rest, id);
        assert(ids.last() != id) by {
            assert(ids[ids.len() - 1] == ids.last());
        }
        assert(rest.push(ids.last()) =~= ids);
    }
}

/// Membership after a disconnect: exactly the gamepads listed before, but `id`.
proof fn disconnect_membership(ids: Seq<usize>, id: usize, x: usize)
    ensures
        after_disconnect(ids, id).contains(x) <==> (ids.contains(x) && x != id),
{
    broadcast use vstd::seq_lib::group_filter_ensures;
    let pred = other_than(id);
    assert(after_disconnect(ids, id) == ids.filter(pred));
    if after_disconnect(ids, id).contains(x) {
        ids.lemma_filter_contains_rev(pred, x);
        let k = choose|k: int| 0 <= k < ids.filter(pred).len() && ids.filter(pred)[k] == x;
        assert(pred(ids.filter(pred)[k]));
    }
    if ids.contains(x) && x != id {
        let k = choose|k: int| 0 <= k < ids.len() && ids[k] == x;
        ids.lemma_filter_contains(pred, k);
    }
}

/// A disconnect keeps a list free of duplicates.
proof fn disconnect_keeps_no_duplicates(ids: Seq<usize>, id: usize)
    requires
        ids.no_duplicates(),
    ensures
        after_disconnect(ids, id).no_duplicates(),
    decreases ids.len(),
{
    reveal_with_fuel(Seq::<_>::filter, 1);
    if ids.len() > 0 {
        let rest = ids.drop_last();
        assert(rest.no_duplicates()) by {
            assert forall|i: int, j: int| 0 <= i < rest.len() && 0 <= j < rest.len() && i != j
                implies rest[i] != rest[j] by {
                assert(rest[i] == ids[i] && rest[j] == ids[j]);
            }
        }
        disconnect_keeps_no_duplicates(rest, id);
        let last = ids.last();
        if last != id {
            assert(!rest.contains(last)) by {
                if rest.contains(last) {
                    let k = choose|k: int| 0 <= k < rest.len() && rest[k] == last;
                    assert(ids[k] == ids[ids.len() - 1]);
                }
            }
            disconnect_membership(rest, id, last);
            let f = after_disconnect(rest, id);
            assert forall|i: int, j: int| 0 <= i < f.push(last).len() && 0 <= j < f.push(last).len()
                && i != j implies f.push(last)[i] != f.push(last)[j] by {
                if i == f.len() {
                    assert(f[j] == f.push(last)[j]);
                } else if j == f.len() {
                    assert(f[i] == f.push(last)[i]);
                }
            }
        }
    }
}

/// Connecting a gamepad that is already listed leaves the list as it is, so
/// a second connect of the same gamepad changes nothing.
pub proof fn connect_is_idempotent(ids: Seq<usize>, id: usize)
    ensures
        after_connect(after_connect(ids, id), id) == after_connect(ids, id),
        ids.contains(id) ==> after_connect(ids, id) == ids,
{
    assert(after_connect(ids, id).contains(id)) by {
        if !ids.contains(id) {
            assert(ids.push(id)[ids.len() as int] == id);
        }
    }
}

/// A gamepad is listed after it connects and not after it disconnects; every
/// other gamepad stays listed or unlisted as it was.
pub proof fn membership_after_events(ids: Seq<usize>, id: usize, other: usize)
    requires
        other != id,
    ensures
        after_connect(ids, id).contains(id),
        !after_disconnect(ids, id).contains(id),
        after_connect(ids, id).contains(other) == ids.contains(other),
        after_disconnect(ids, id).contains(other) == ids.contains(other),
{
    connect_is_idempotent(ids, id);
    disconnect_membership(ids, id, id);
    disconnect_membership(ids, id, other);
    if !ids.contains(id) {
        assert(ids.push(id).contains(other) ==> ids.contains(other)) by {
            if ids.push(id).contains(other) {
                let k = choose|k: int| 0 <= k < ids.push(id).len() && ids.push(id)[k] == other;
                assert(ids[k] == other);
            }
        }
        assert(ids.contains(other) ==> ids.push(id).contains(other)) by {
            if ids.contains(other) {
                let k = choose|k: int| 0 <= k < ids.len() && ids[k] == other;
                assert(ids.push(id)[k] == other);
            }
        }
    }
}

/// Connects and disconnects keep the list free of duplicates.
pub proof fn events_keep_no_duplicates(ids: Seq<usize>, id: usize)
    requires
        ids.no_duplicates(),
    ensures
        after_connect(ids, id).no_duplicates(),
        after_disconnect(ids, id).no_duplicates(),
{
    disconnect_keeps_no_duplicates(ids, id);
    if !ids.contains(id) {
        let p = ids.push(id);
        assert forall|i: int, j: int| 0 <= i < p.len() && 0 <= j < p.len() && i != j
            implies p[i] != p[j] by {
            if i == ids.len() {
                assert(p[j] == ids[j]);
            } else if j == ids.len() {
                assert(p[i] == ids[i]);
            } else {
                assert(p[i] == ids[i] && p[j] == ids[j]);
            }
        }
    }
}

/// A gamepad that was not listed, connects and then disconnects, leaves the
/// list as it was.
pub proof fn connect_then_disconnect_restores(ids: Seq<usize>, id: usize)
    requires
        !ids.contains(id),
    ensures
        after_disconnect(after_connect(ids, id), id) == ids,
{
    reveal_with_fuel(Seq::<_>::filter, 1);
    disconnect_unlisted_is_noop(ids, id);
    assert(ids.push(id).drop_last() =~= ids);
}

/// A connect never moves a listed gamepad: each position already in use
/// selects the same gamepad as before.
pub proof fn connect_keeps_positions(ids: Seq<usize>, id: usize, index: int)
    requires
        0 <= index < ids.len(),
    ensures
        index < after_connect(ids, id).len(),
        after_connect(ids, id)[index] == ids[index],
{
}

/// A change of the connected gamepads, as the input backend reports it.
/// Gamepads are known by their numeric identifier.
pub enum GamepadEvent {
    Connected(usize),
    Disconnected(usize),
    /// Any other input event (buttons, axes, ...): it does not touch the list.
    Other,
}

/// Whether `f` places each entry of `kept` at an entry of `ids` that holds
/// the same gamepad, later entries at later ones: `kept` lists some of the
/// gamepads of `ids` in their order there.
pub open spec fn embeds_in_order(kept: Seq<usize>, ids: Seq<usize>, f: spec_fn(int) -> int) -> bool {
    &&& forall|k: int| 0 <= k < kept.len() ==> 0 <= #[trigger] f(k) < ids.len() && kept[k] == ids[f(k)]
    &&& forall|k1: int, k2: int| 0 <= k1 < k2 < kept.len() ==> #[trigger] f(k1) < #[trigger] f(k2)
}

/// A disconnect keeps the other gamepads in the order they had: the new
/// list is the old one with some entries left out, so the first gamepad
/// left is the first listed one other than the disconnected gamepad.
pub proof fn disconnect_keeps_order(ids: Seq<usize>, id: usize)
    ensures
        exists|f: spec_fn(int) -> int| embeds_in_order(after_disconnect(ids, id), ids, f),
        ids.len() > 0 && ids[0] != id ==> after_disconnect(ids, id).len() > 0
            && after_disconnect(ids, id)[0] == ids[0],
    decreases ids.len(),
{
    reveal_with_fuel(Seq::<_>::filter, 1);
    let kept = after_disconnect(ids, id);
    if ids.len() == 0 {
        let f = |k: int| k;
        assert(embeds_in_order(kept, ids, f));
    } else {
        let rest = ids.drop_last();
        disconnect_keeps_order(rest, id);
        let before = after_disconnect(rest, id);
        let g = choose|g: spec_fn(int) -> int| embeds_in_order(before, rest, g);
        if ids.last() == id {
            assert(kept == before);
            assert(embeds_in_order(kept, ids, g)) by {
                assert forall|k: int| 0 <= k < kept.len() implies 0 <= #[trigger] g(k) < ids.len()
                    && kept[k] == ids[g(k)] by {
                    assert(rest[g(k)] == ids[g(k)]);
                }
            }
        } else {
            assert(kept == before.push(ids.last()));
            let last = ids.len() - 1;
            let f = |k: int| if k < before.len() { g(k) } else { last };
            assert(embeds_in_order(kept, ids, f)) by {
                assert forall|k: int| 0 <= k < kept.len() implies 0 <= #[trigger] f(k) < ids.len()
                    && kept[k] == ids[f(k)] by {
                    if k < before.len() {
                        assert(rest[g(k)] == ids[g(k)]);
                    }
                }
                assert forall|k1: int, k2: int| 0 <= k1 < k2 < kept.len() implies #[trigger] f(k1)
                    < #[trigger] f(k2) by {
                    if k2 < before.len() {
                        assert(g(k1) < g(k2));
                    } else {
                        assert(0 <= g(k1) < rest.len());
                    }
                }
            }
        }
        if ids[0] != id {
            if rest.len() > 0 {
                assert(rest[0] == ids[0]);
                assert(kept[0] == before[0]);
            } else {
                assert(before.len() == 0);
                assert(kept[0] == ids.last());
            }
        }
    }
}

/// The list after `event`.
pub open spec fn apply_event(ids: Seq<usize>, event: GamepadEvent) -> Seq<usize> {
    match event {
        GamepadEvent::Connected(id) => after_connect(ids, id),
        GamepadEvent::Disconnected(id) => after_disconnect(ids, id),
        GamepadEvent::Other => ids,
    }
}

/// The list after `events`, one after the other.
pub open spec fn after_events(ids: Seq<usize>, events: Seq<GamepadEvent>) -> Seq<usize>
    decreases events.len(),
{
    if events.len() == 0 {
        ids
    } else {
        apply_event(after_events(ids, events.drop_last()), events.last())
    }
}

/// The list that connecting `ids` one after the other builds from nothing.
pub open spec fn connect_all(ids: Seq<usize>) -> Seq<usize>
    decreases ids.len(),
{
    if ids.len() == 0 {
        Seq::empty()
    } else {
        after_connect(connect_all(ids.drop_last()), ids.last())
    }
}

/// Whether the gamepad `x` is listed after `events` that start from `ids`:
/// the last connect or disconnect of `x` decides, and without one, whether
/// `ids` lists it.
pub open spec fn listed_after(ids: Seq<usize>, events: Seq<GamepadEvent>, x: usize) -> bool
    decreases events.len(),
{
    if events.len() == 0 {
        ids.contains(x)
    } else if events.last() == GamepadEvent::Connected(x) {
        true
    } else if events.last() == GamepadEvent::Disconnected(x) {
        false
    } else {
        listed_after(ids, events.drop_last(), x)
    }
}

/// Connecting distinct gamepads one after the other lists them in that order.
proof fn connect_all_distinct(ids: Seq<usize>)
    requires
        ids.no_duplicates(),
    ensures
        connect_all(ids) == ids,
    decreases ids.len(),
{
    if ids.len() > 0 {
        let rest = ids.drop_last();
        assert(rest.no_duplicates()) by {
            assert forall|i: int, j: int| 0 <= i < rest.len() && 0 <= j < rest.len() && i != j
                implies rest[i] != rest[j] by {
                assert(rest[i] == ids[i] && rest[j] == ids[j]);
            }
        }
        connect_all_distinct(rest);
        assert(!rest.contains(ids.last())) by {
            if rest.contains(ids.last()) {
                let k = choose|k: int| 0 <= k < rest.len() && rest[k] == ids.last();
                assert(ids[k] == ids[ids.len() - 1]);
            }
        }
        assert(rest.push(ids.last()) =~= ids);
    }
}

/// Connecting gamepads one after the other lists each of them once.
pub proof fn connect_all_lists_each_once(ids: Seq<usize>, x: usize)
    ensures
        connect_all(ids).no_duplicates(),
        connect_all(ids).contains(x) == ids.contains(x),
    decreases ids.len(),
{
    if ids.len() == 0 {
    } else {
        let rest = ids.drop_last();
        connect_all_lists_each_once(rest, x);
        events_keep_no_duplicates(connect_all(rest), ids.last());
        if x == ids.last() {
            membership_after_events(connect_all(rest), x, if x == 0 { 1 } else { 0 });
            assert(ids[ids.len() - 1] == x);
        } else {
            membership_after_events(connect_all(rest), ids.last(), x);
            if ids.contains(x) {
                let k = choose|k: int| 0 <= k < ids.len() && ids[k] == x;
                assert(rest[k] == x);
            }
            if rest.contains(x) {
                let k = choose|k: int| 0 <= k < rest.len() && rest[k] == x;
                assert(ids[k] == x);
            }
        }
    }
}

/// Over any sequence of connects and disconnects, starting from the gamepads
/// connected at start-up, the list holds each gamepad at most once, and it
/// holds a gamepad exactly when its last connect or disconnect was a connect,
/// or, with neither, when it was connected at start-up. So a gamepad that
/// disconnects is missing from every later list until it connects again.
pub proof fn gamepad_list_over_events(initial: Seq<usize>, events: Seq<GamepadEvent>, x: usize)
    ensures
        after_events(connect_all(initial), events).no_duplicates(),
        after_events(connect_all(initial), events).contains(x) == listed_after(
            initial,
            events,
            x,
        ),
    decreases events.len(),
{
    if events.len() == 0 {
        connect_all_lists_each_once(initial, x);
    } else {
        let earlier = events.drop_last();
        gamepad_list_over_events(initial, earlier, x);
        let list = after_events(connect_all(initial), earlier);
        match events.last() {
            GamepadEvent::Connected(id) => {
                events_keep_no_duplicates(list, id);
                if id == x {
                    membership_after_events(list, x, if x == 0 { 1 } else { 0 });
                } else {
                    membership_after_events(list, id, x);
                }
            },
            GamepadEvent::Disconnected(id) => {
                events_keep_no_duplicates(list, id);
                if id == x {
                    membership_after_events(list, x, if x == 0 { 1 } else { 0 });
                } else {
                    membership_after_events(list, id, x);
                }
            },
            GamepadEvent::Other => {},
        }
    }
}

/// The gamepads known to the client, oldest first.
pub struct GamepadRegistry {
    ids: Vec<usize>,
}

impl View for GamepadRegistry {
    type V = Seq<usize>;

    closed spec fn view(&self) -> Seq<usize> {
        self.ids@
    }
}

impl GamepadRegistry {
    /// The registry of the gamepads that were already connected at start-up,
    /// in the order the backend lists them; each is recorded as a connect,
    /// so an identifier listed twice is kept once.
    pub fn from_initial(ids: Vec<usize>) -> (reg: Self)
        ensures
            reg@ == connect_all(ids@),
            ids@.no_duplicates() ==> reg@ == ids@,
    {
        let mut reg = GamepadRegistry { ids: Vec::new() };
        let mut i: usize = 0;
        while i < ids.len()
            invariant
                i <= ids@.len(),
                reg@ == connect_all(ids@.take(i as int)),
            decreases ids@.len() - i,
        {
            proof {
                assert(ids@.take(i + 1).drop_last() =~= ids@.take(i as int));
            }
            reg.connect(ids[i]);
            i = i + 1;
        }
        proof {
            assert(ids@.take(ids@.len() as int) =~= ids@);
            if ids@.no_duplicates() {
                connect_all_distinct(ids@);
            }
        }
        reg
    }

    /// The identifiers of the known gamepads, oldest first.
    pub fn ids(&self) -> (res: Vec<usize>)
        ensures
            res@ == self@,
    {
        self.ids.clone()
    }

    /// Whether the gamepad `id` is known.
    pub fn contains(&self, id: usize) -> (res: bool)
        ensures
            res == self@.contains(id),
    {
        let mut i: usize = 0;
        while i < self.ids.len()
            invariant
                i <= self.ids@.len(),
                forall|j: int| 0 <= j < i ==> self.ids@[j] != id,
            decreases self.ids@.len() - i,
        {
            if self.ids[i] == id {
                return true;
            }
            i = i + 1;
        }
        false
    }

    /// Records that the gamepad `id` connected.
    pub fn connect(&mut self, id: usize)
        ensures
            final(self)@ == after_connect(old(self)@, id),
    {
        if !self.contains(id) {
            self.ids.push(id);
        }
    }

    /// Records that the gamepad `id` disconnected.
    pub fn disconnect(&mut self, id: usize)
        ensures
            final(self)@ == after_disconnect(old(self)@, id),
    {
        let ghost old_ids = self.ids@;
        let mut kept: Vec<usize> = Vec::new();
        let mut i: usize = 0;
        while i < self.ids.len()
            invariant
                self.ids@ == old_ids,
                i <= old_ids.len(),
                kept@ == after_disconnect(old_ids.take(i as int), id),
            decreases old_ids.len() - i,
        {
            proof {
                assert(old_ids.take(i + 1).drop_last() =~= old_ids.take(i as int));
                reveal_with_fuel(Seq::<_>::filter, 1);
            }
            if self.ids[i] != id {
                kept.push(self.ids[i]);
            }
            i = i + 1;
        }
        proof {
            assert(old_ids.take(old_ids.len() as int) =~= old_ids);
        }
        self.ids = kept;
    }

    /// Applies an input event. Returns the identifiers whose names the
    /// gamepad list must show now, or `None` where the list did not change.
    pub fn handle_event(&mut self, event: GamepadEvent) -> (shown: Option<Vec<usize>>)
        ensures
            final(self)@ == apply_event(old(self)@, event),
            match event {
                GamepadEvent::Connected(id) => {
                    &&& final(self)@ == after_connect(old(self)@, id)
                    &&& shown matches Some(v) && v@ == final(self)@
                },
                GamepadEvent::Disconnected(id) => {
                    &&& final(self)@ == after_disconnect(old(self)@, id)
                    &&& shown matches Some(v) && v@ == final(self)@
                },
                GamepadEvent::Other => {
                    &&& final(self)@ == old(self)@
                    &&& shown is None
                },
            },
    {
        match event {
            GamepadEvent::Connected(id) => {
                self.connect(id);
                Some(self.ids())
            },
            GamepadEvent::Disconnected(id) => {
                self.disconnect(id);
                Some(self.ids())
            },
            GamepadEvent::Other => None,
        }
    }

    /// The gamepad at position `index` of the list, if there is one: the one
    /// whose sticks fly the Crazyflie.
    pub fn selected(&self, index: usize) -> (res: Option<usize>)
        ensures
            index < self@.len() ==> res == Some(self@[index as int]),
            index >= self@.len() ==> res is None,
    {
        if index < self.ids.len() {
            Some(self.ids[index])
        } else {
            None
        }
    }
}

/// The text the gamepad list shows in place of names when no gamepad is
/// connected.
pub open spec fn no_gamepad_label() -> Seq<char> {
    "No gamepad detected"@
}

/// The entries of the gamepad list: the names of the known gamepads, or a
/// single entry saying that there is none.
pub fn display_labels(names: Vec<String>) -> (labels: Vec<String>)
    ensures
        names@.len() == 0 ==> labels@.len() == 1 && labels@[0]@ == no_gamepad_label(),
        names@.len() > 0 ==> labels@ == names@,
{
    if names.len() == 0 {
        let mut labels: Vec<String> = Vec::new();
        labels.push(String::from_str("No gamepad detected"));
        labels
    } else {
        names
    }
}

} // verus!
