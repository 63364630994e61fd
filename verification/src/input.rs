use crate::input::ser::{InputEvent, VirtualAction, VirtualButton, VirtualKey};
use vstd::prelude::*;

pub mod ser;

verus! {

/// Actions that the player triggers with keys and mouse buttons.
pub trait InputAction: Sized + Copy {
    fn same_action(&self, other: &Self) -> (r: bool)
        ensures
            r == (*self == *other),
    ;

    /// Keys bound to actions when the configuration does not say otherwise.
    fn get_default_key_mapping() -> Vec<(VirtualKey, Self)>;

    /// Mouse buttons bound to actions when the configuration does not say otherwise.
    fn get_default_mouse_mapping() -> Vec<(VirtualButton, Self)>;
}

/// Two opposite actions; `left` counts negative, `right` positive.
#[derive(Copy, Clone, Debug)]
pub struct Axis<A> {
    pub left: A,
    pub right: A,
}

/// Value of an axis when `pressed` are held: 1 when `right` is held (whatever `left`),
/// -1 when only `left` is, 0 when neither is.
pub open spec fn axis_value<A>(pressed: Set<A>, axis: Axis<A>) -> i8 {
    if pressed.contains(axis.right) {
        1i8
    } else if pressed.contains(axis.left) {
        -1i8
    } else {
        0i8
    }
}

/// The bindings as a map: each key once, bound to the action of its last binding (as
/// a map built binding after binding keeps the last one).
pub open spec fn bindings_map<K, A>(mapping: Seq<(K, A)>) -> Map<K, A>
    decreases mapping.len(),
{
    if mapping.len() == 0 {
        Map::empty()
    } else {
        bindings_map(mapping.drop_last()).insert(mapping.last().0, mapping.last().1)
    }
}

/// The action bound to `k`, if any.
pub open spec fn bound_action<K, A>(bindings: Map<K, A>, k: K) -> Option<A> {
    if bindings.contains_key(k) {
        Some(bindings[k])
    } else {
        None
    }
}

/// State of the player's inputs: which actions are held, which were pressed since the
/// last frame, and the bindings of keys and mouse buttons to actions.
pub struct Input<A> {
    /// Actions currently held (each once).
    pressed: Vec<A>,
    /// Actions pressed since the last `prepare` (each once).
    just_pressed: Vec<A>,
    key_mapping: Vec<(VirtualKey, A)>,
    mouse_mapping: Vec<(VirtualButton, A)>,
}

/// Is `a` in `v`?
fn contains_action<A: InputAction>(v: &Vec<A>, a: &A) -> (r: bool)
    ensures
        r == v@.contains(*a),
{
    let mut i: usize = 0;
    while i < v.len()
        invariant
            i <= v@.len(),
            forall|k: int| 0 <= k < i ==> v@[k] != *a,
        decreases v@.len() - i,
    {
        if v[i].same_action(a) {
            return true;
        }
        i = i + 1;
    }
    false
}

/// Add `a` to `v` unless it is there.
fn insert_action<A: InputAction>(v: &mut Vec<A>, a: A)
    ensures
        forall|x: A| final(v)@.contains(x) <==> (old(v)@.contains(x) || x == a),
{
    if !contains_action(v, &a) {
        v.push(a);
        proof {
            assert forall|x: A| v@.contains(x) <==> (old(v)@.contains(x) || x == a) by {
                if old(v)@.contains(x) {
                    let k = choose|k: int| 0 <= k < old(v)@.len() && #[trigger] old(v)@[k] == x;
                    assert(v@[k] == x);
                }
                if x == a {
                    assert(v@[v@.len() - 1] == a);
                }
            }
        }
    }
}

/// Everything but `a`.
pub open spec fn other_than<A>(a: A) -> spec_fn(A) -> bool {
    |x: A| x != a
}

/// Remove every occurrence of `a` from `v`.
fn remove_action<A: InputAction>(v: &mut Vec<A>, a: A)
    ensures
        forall|x: A| final(v)@.contains(x) <==> (old(v)@.contains(x) && x != a),
{
    let ghost keep = other_than(a);
    let mut kept: Vec<A> = Vec::new();
    let mut i: usize = 0;
    while i < v.len()
        invariant
            i <= v@.len(),
            *v == *old(v),
            keep == other_than(a),
            kept@ == v@.take(i as int).filter(keep),
        decreases v@.len() - i,
    {
        let item = v[i];
        let ghost before = kept@;
        let same = item.same_action(&a);
        if !same {
            kept.push(item);
        }
        proof {
            let t = v@.take(i as int + 1);
            assert(t.drop_last() == v@.take(i as int));
            assert(t.last() == item);
            assert(keep(item) == !same);
            reveal(Seq::filter);
            assert(t.filter(keep) == if keep(t.last()) {
                t.drop_last().filter(keep).push(t.last())
            } else {
                t.drop_last().filter(keep)
            });
        }
        i = i + 1;
    }
    proof {
        assert(v@.take(i as int) == v@);
        assert forall|x: A| kept@.contains(x) <==> (v@.contains(x) && x != a) by {
            if kept@.contains(x) {
                v@.lemma_filter_contains_rev(keep, x);
                let k = choose|k: int| 0 <= k < kept@.len() && kept@[k] == x;
                v@.lemma_filter_pred(keep, k);
            }
            if v@.contains(x) && x != a {
                let k = choose|k: int| 0 <= k < v@.len() && v@[k] == x;
                v@.lemma_filter_contains(keep, k);
            }
        }
    }
    *v = kept;
}

/// The action bound to `k`, if any: its last binding.
fn find_key_binding<A: Copy>(mapping: &Vec<(VirtualKey, A)>, k: VirtualKey) -> (r: Option<A>)
    ensures
        r == bound_action(bindings_map(mapping@), k),
{
    let mut i: usize = mapping.len();
    assert(mapping@.take(i as int) =~= mapping@);
    while i > 0
        invariant
            i <= mapping@.len(),
            bound_action(bindings_map(mapping@), k) == bound_action(bindings_map(mapping@.take(i as int)), k),
        decreases i,
    {
        let (key, action) = mapping[i - 1];
        proof {
            let t = mapping@.take(i as int);
            assert(t.drop_last() =~= mapping@.take(i - 1));
            assert(t.last() == mapping@[i - 1]);
        }
        if key == k {
            return Some(action);
        }
        i = i - 1;
    }
    proof {
        assert(mapping@.take(0) =~= Seq::<(VirtualKey, A)>::empty());
    }
    None
}

/// The action bound to `k`, if any: its last binding.
fn find_button_binding<A: Copy>(mapping: &Vec<(VirtualButton, A)>, k: VirtualButton) -> (r: Option<A>)
    ensures
        r == bound_action(bindings_map(mapping@), k),
{
    let mut i: usize = mapping.len();
    assert(mapping@.take(i as int) =~= mapping@);
    while i > 0
        invariant
            i <= mapping@.len(),
            bound_action(bindings_map(mapping@), k) == bound_action(bindings_map(mapping@.take(i as int)), k),
        decreases i,
    {
        let (key, action) = mapping[i - 1];
        proof {
            let t = mapping@.take(i as int);
            assert(t.drop_last() =~= mapping@.take(i - 1));
            assert(t.last() == mapping@[i - 1]);
        }
        if key == k {
            return Some(action);
        }
        i = i - 1;
    }
    proof {
        assert(mapping@.take(0) =~= Seq::<(VirtualButton, A)>::empty());
    }
    None
}

impl<A: InputAction> Default for Input<A> {
    /// Nothing held, no binding.
    fn default() -> (r: Self)
        ensures
            r.spec_pressed() == Set::<A>::empty(),
            r.spec_just_pressed() == Set::<A>::empty(),
            r.spec_key_mapping() == Map::<VirtualKey, A>::empty(),
            r.spec_mouse_mapping() == Map::<VirtualButton, A>::empty(),
    {
        Input::new(Vec::new(), Vec::new())
    }
}

impl<A: InputAction> Input<A> {
    /// Actions currently held.
    pub closed spec fn spec_pressed(&self) -> Set<A> {
        Set::new(|a: A| self.pressed@.contains(a))
    }

    /// Actions pressed since the last `prepare`.
    pub closed spec fn spec_just_pressed(&self) -> Set<A> {
        Set::new(|a: A| self.just_pressed@.contains(a))
    }

    /// The key bindings: one action per key.
    pub closed spec fn spec_key_mapping(&self) -> Map<VirtualKey, A> {
        bindings_map(self.key_mapping@)
    }

    /// The mouse button bindings: one action per button.
    pub closed spec fn spec_mouse_mapping(&self) -> Map<VirtualButton, A> {
        bindings_map(self.mouse_mapping@)
    }

    /// Nothing held, with the given bindings.
    pub fn new(key_mapping: Vec<(VirtualKey, A)>, mouse_mapping: Vec<(VirtualButton, A)>) -> (r: Self)
        ensures
            r.spec_pressed() == Set::<A>::empty(),
            r.spec_just_pressed() == Set::<A>::empty(),
            r.spec_key_mapping() == bindings_map(key_mapping@),
            r.spec_mouse_mapping() == bindings_map(mouse_mapping@),
    {
        let r = Self { pressed: Vec::new(), just_pressed: Vec::new(), key_mapping, mouse_mapping };
        assert(r.spec_pressed() =~= Set::<A>::empty());
        assert(r.spec_just_pressed() =~= Set::<A>::empty());
        r
    }

    /// Start of a frame: nothing was just pressed yet.
    pub fn prepare(&mut self)
        ensures
            final(self).spec_just_pressed() == Set::<A>::empty(),
            final(self).spec_pressed() == old(self).spec_pressed(),
            final(self).spec_key_mapping() == old(self).spec_key_mapping(),
            final(self).spec_mouse_mapping() == old(self).spec_mouse_mapping(),
    {
        self.just_pressed.clear();
        assert(self.spec_just_pressed() =~= Set::<A>::empty());
    }

    /// Pressing an action holds it and counts it as just pressed; releasing it stops
    /// holding it.
    fn apply_action(&mut self, action: A, press: VirtualAction)
        ensures
            final(self).spec_key_mapping() == old(self).spec_key_mapping(),
            final(self).spec_mouse_mapping() == old(self).spec_mouse_mapping(),
            match press {
                VirtualAction::Pressed => final(self).spec_pressed() == old(self).spec_pressed().insert(action)
                    && final(self).spec_just_pressed() == old(self).spec_just_pressed().insert(action),
                VirtualAction::Release => final(self).spec_pressed() == old(self).spec_pressed().remove(action)
                    && final(self).spec_just_pressed() == old(self).spec_just_pressed(),
                VirtualAction::Repeat => final(self).spec_pressed() == old(self).spec_pressed()
                    && final(self).spec_just_pressed() == old(self).spec_just_pressed(),
            },
    {
        match press {
            VirtualAction::Pressed => {
                insert_action(&mut self.pressed, action);
                insert_action(&mut self.just_pressed, action);
                assert(self.spec_pressed() =~= old(self).spec_pressed().insert(action));
                assert(self.spec_just_pressed() =~= old(self).spec_just_pressed().insert(action));
            },
            VirtualAction::Release => {
                remove_action(&mut self.pressed, action);
                assert(self.spec_pressed() =~= old(self).spec_pressed().remove(action));
            },
            VirtualAction::Repeat => {},
        }
    }

    /// A key or button event: the action bound to it (if any) is pressed or released;
    /// repeats and other events change nothing.
    pub fn process_event(&mut self, ev: InputEvent)
        ensures
            final(self).spec_key_mapping() == old(self).spec_key_mapping(),
            final(self).spec_mouse_mapping() == old(self).spec_mouse_mapping(),
            ({
                let bound = match ev {
                    InputEvent::KeyEvent(k, _) => bound_action(old(self).spec_key_mapping(), k),
                    InputEvent::MouseEvent(b, _) => bound_action(old(self).spec_mouse_mapping(), b),
                    InputEvent::Nothing => None,
                };
                let press = match ev {
                    InputEvent::KeyEvent(_, p) => p,
                    InputEvent::MouseEvent(_, p) => p,
                    InputEvent::Nothing => VirtualAction::Repeat,
                };
                match (bound, press) {
                    (Some(a), VirtualAction::Pressed) => final(self).spec_pressed() == old(self).spec_pressed().insert(a)
                        && final(self).spec_just_pressed() == old(self).spec_just_pressed().insert(a),
                    (Some(a), VirtualAction::Release) => final(self).spec_pressed() == old(self).spec_pressed().remove(a)
                        && final(self).spec_just_pressed() == old(self).spec_just_pressed(),
                    _ => final(self).spec_pressed() == old(self).spec_pressed()
                        && final(self).spec_just_pressed() == old(self).spec_just_pressed(),
                }
            }),
    {
        match ev {
            InputEvent::KeyEvent(key, press) => {
                if let Some(action) = find_key_binding(&self.key_mapping, key) {
                    self.apply_action(action, press);
                }
            },
            InputEvent::MouseEvent(btn, press) => {
                if let Some(action) = find_button_binding(&self.mouse_mapping, btn) {
                    self.apply_action(action, press);
                }
            },
            InputEvent::Nothing => {},
        }
    }

    /// Value of an axis: -1 when only `left` is held, 1 when `right` is held (whatever
    /// `left`), 0 when neither is.
    pub fn get_axis(&self, axis: Axis<A>) -> (r: i8)
        ensures
            r == axis_value(self.spec_pressed(), axis),
    {
        let left = contains_action(&self.pressed, &axis.left);
        let right = contains_action(&self.pressed, &axis.right);
        match (left, right) {
            (true, true) => 1,
            (true, false) => -1,
            (false, true) => 1,
            (false, false) => 0,
        }
    }

    /// Was the action pressed since the last `prepare`?
    pub fn is_just_pressed(&self, action: A) -> (r: bool)
        ensures
            r == self.spec_just_pressed().contains(action),
    {
        contains_action(&self.just_pressed, &action)
    }

    /// Is the action held?
    pub fn is_pressed(&self, action: A) -> (r: bool)
        ensures
            r == self.spec_pressed().contains(action),
    {
        contains_action(&self.pressed, &action)
    }
}

/// Pressing an action and releasing it leaves it not held, and holds nothing else
/// than releasing it alone would; the press still counts as just pressed until the next
/// `prepare`.
pub proof fn law_press_then_release<A>(pressed: Set<A>, just_pressed: Set<A>, a: A)
    ensures
        !pressed.insert(a).remove(a).contains(a),
        pressed.insert(a).remove(a) == pressed.remove(a),
        just_pressed.insert(a).contains(a),
{
    assert(pressed.insert(a).remove(a) =~= pressed.remove(a));
}

} // verus!
