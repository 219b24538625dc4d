use vstd::prelude::*;

verus! {

/// The keys of `keys` as character sequences.
pub open spec fn key_views(keys: Seq<String>) -> Seq<Seq<char>> {
    keys.map_values(|k: String| k@)
}

/// Whether no key occurs twice in `keys`.
pub open spec fn no_duplicates(keys: Seq<Seq<char>>) -> bool {
    forall|i: int, j: int| 0 <= i < keys.len() && 0 <= j < keys.len() && i != j ==> keys[i] != keys[j]
}

/// Keyboard state: the keys held down, the last key seen and the modifiers of
/// the last event.
#[derive(Clone, Debug)]
pub struct KeyboardState {
    /// Currently pressed keys, each once
    pub keys_pressed: Vec<String>,
    /// The last key that was pressed or released
    pub last_key: Option<String>,
    /// Whether Shift was held
    pub shift_key: bool,
    /// Whether Ctrl was held
    pub ctrl_key: bool,
    /// Whether Alt was held
    pub alt_key: bool,
    /// Whether Meta (Windows/Command) was held
    pub meta_key: bool,
}

/// The modifier keys of a keyboard event.
#[derive(Clone, Copy, Debug, PartialEq, Eq, Structural)]
pub struct KeyModifiers {
    pub shift: bool,
    pub ctrl: bool,
    pub alt: bool,
    pub meta: bool,
}

/// Which side effects a handled keyboard event asks for.
#[derive(Clone, Copy, Debug, PartialEq, Eq, Structural)]
pub struct KeyEventEffects {
    /// Whether the event passed the key filter and changed the state
    pub handled: bool,
    /// Whether to prevent the event's default action
    pub prevent_default: bool,
    /// Whether to stop the event's propagation
    pub stop_propagation: bool,
}

/// The set of keys held down.
pub open spec fn pressed_set(s: KeyboardState) -> Set<Seq<char>> {
    key_views(s.keys_pressed@).to_set()
}

/// Whether an event for `key` passes the filter `target_key`.
pub open spec fn passes_filter(target_key: Option<String>, key: Seq<char>) -> bool {
    match target_key {
        Some(t) => t@ == key,
        None => true,
    }
}

/// Whether the state is well formed: no key is recorded as pressed twice.
pub open spec fn keyboard_wf(s: KeyboardState) -> bool {
    no_duplicates(key_views(s.keys_pressed@))
}

/// Whether `after` holds the last key and modifiers of an event for `key`.
pub open spec fn records_event(after: KeyboardState, key: Seq<char>, mods: KeyModifiers) -> bool {
    &&& after.last_key matches Some(k) && k@ == key
    &&& after.shift_key == mods.shift
    &&& after.ctrl_key == mods.ctrl
    &&& after.alt_key == mods.alt
    &&& after.meta_key == mods.meta
}

/// The position of `key` in `keys`, or `None`.
fn find_key(keys: &Vec<String>, key: &String) -> (idx: Option<usize>)
    ensures
        match idx {
            Some(i) => i < keys@.len() && keys@[i as int]@ == key@,
            None => !key_views(keys@).contains(key@),
        },
{
    let n = keys.len();
    for i in 0..n
        invariant
            n == keys@.len(),
            forall|j: int| 0 <= j < i ==> keys@[j]@ != key@,
    {
        if keys[i] == *key {
            return Some(i);
        }
    }
    proof {
        if key_views(keys@).contains(key@) {
            let j = choose|j: int| 0 <= j < key_views(keys@).len() && key_views(keys@)[j] == key@;
            assert(keys@[j]@ == key@);
        }
    }
    None
}

impl Default for KeyboardState {
    /// No key pressed and no modifiers.
    fn default() -> (s: Self)
        ensures
            s.keys_pressed@.len() == 0,
            s.last_key is None,
            !s.shift_key && !s.ctrl_key && !s.alt_key && !s.meta_key,
            keyboard_wf(s),
    {
        KeyboardState {
            keys_pressed: Vec::new(),
            last_key: None,
            shift_key: false,
            ctrl_key: false,
            alt_key: false,
            meta_key: false,
        }
    }
}

impl KeyboardState {
    /// A key went down. An event that fails the filter `target_key` changes
    /// nothing; otherwise `key` joins the pressed keys and the event's key and
    /// modifiers are recorded.
    pub fn key_down(&mut self, target_key: &Option<String>, key: String, mods: KeyModifiers,
        prevent_default: bool, stop_propagation: bool) -> (effects: KeyEventEffects)
        ensures
            keyboard_wf(*old(self)) ==> keyboard_wf(*final(self)),
            effects.handled == passes_filter(*target_key, key@),
            effects.prevent_default == (effects.handled && prevent_default),
            effects.stop_propagation == (effects.handled && stop_propagation),
            !effects.handled ==> *final(self) == *old(self),
            effects.handled ==> {
                &&& pressed_set(*final(self)) == apply_key_event(pressed_set(*old(self)), KeyEvent::Down(key@))
                &&& records_event(*final(self), key@, mods)
                &&& final(self).last_key matches Some(k) && k@ == key@
                &&& final(self).shift_key == mods.shift
                &&& final(self).ctrl_key == mods.ctrl
                &&& final(self).alt_key == mods.alt
                &&& final(self).meta_key == mods.meta
            },
    {
        if let Some(target) = target_key {
            if key != *target {
                return KeyEventEffects { handled: false, prevent_default: false, stop_propagation: false };
            }
        }
        let ghost old_keys = key_views(self.keys_pressed@);
        match find_key(&self.keys_pressed, &key) {
            Some(i) => {
                proof {
                    assert(old_keys[i as int] == key@);
                    assert(old_keys.contains(key@));
                    assert(old_keys.to_set() =~= old_keys.to_set().insert(key@));
                }
            },
            None => {
                let k = key.clone();
                self.keys_pressed.push(k);
                proof {
                    assert(key_views(self.keys_pressed@) =~= old_keys.push(key@));
                    old_keys.lemma_push_to_set_commute(key@);
                    if no_duplicates(old_keys) {
                        assert forall|a: int, b: int| 0 <= a < old_keys.len() + 1 && 0 <= b < old_keys.len() + 1 && a != b
                            implies old_keys.push(key@)[a] != old_keys.push(key@)[b] by {
                            if a == old_keys.len() {
                                assert(old_keys[b] != key@);
                            } else if b == old_keys.len() {
                                assert(old_keys[a] != key@);
                            }
                        }
                    }
                }
            },
        }
        self.last_key = Some(key);
        self.shift_key = mods.shift;
        self.ctrl_key = mods.ctrl;
        self.alt_key = mods.alt;
        self.meta_key = mods.meta;
        KeyEventEffects { handled: true, prevent_default, stop_propagation }
    }

    /// A key went up. An event that fails the filter `target_key` changes
    /// nothing; otherwise `key` leaves the pressed keys and the event's key
    /// and modifiers are recorded.
    pub fn key_up(&mut self, target_key: &Option<String>, key: String, mods: KeyModifiers,
        prevent_default: bool, stop_propagation: bool) -> (effects: KeyEventEffects)
        ensures
            keyboard_wf(*old(self)) ==> keyboard_wf(*final(self)),
            effects.handled == passes_filter(*target_key, key@),
            effects.prevent_default == (effects.handled && prevent_default),
            effects.stop_propagation == (effects.handled && stop_propagation),
            !effects.handled ==> *final(self) == *old(self),
            effects.handled ==> {
                &&& pressed_set(*final(self)) == apply_key_event(pressed_set(*old(self)), KeyEvent::Up(key@))
                &&& records_event(*final(self), key@, mods)
                &&& final(self).last_key matches Some(k) && k@ == key@
                &&& final(self).shift_key == mods.shift
                &&& final(self).ctrl_key == mods.ctrl
                &&& final(self).alt_key == mods.alt
                &&& final(self).meta_key == mods.meta
            },
    {
        if let Some(target) = target_key {
            if key != *target {
                return KeyEventEffects { handled: false, prevent_default: false, stop_propagation: false };
            }
        }
        let ghost old_keys = key_views(self.keys_pressed@);
        let mut kept: Vec<String> = Vec::new();
        let n = self.keys_pressed.len();
        for i in 0..n
            invariant
                n == self.keys_pressed@.len(),
                old_keys == key_views(self.keys_pressed@),
                key_views(kept@).to_set() == old_keys.take(i as int).to_set().remove(key@),
                no_duplicates(old_keys) ==> no_duplicates(key_views(kept@)),
                forall|a: int| 0 <= a < kept@.len() ==> old_keys.take(i as int).contains(#[trigger] kept@[a]@),
        {
            let ghost before = key_views(kept@);
            let k = &self.keys_pressed[i];
            assert(old_keys.take(i + 1) =~= old_keys.take(i as int).push(k@));
            proof {
                old_keys.take(i as int).lemma_push_to_set_commute(k@);
            }
            if *k != key {
                kept.push(k.clone());
                assert(key_views(kept@) =~= before.push(k@));
                proof {
                    before.lemma_push_to_set_commute(k@);
                    assert(key_views(kept@).to_set() =~= old_keys.take(i + 1).to_set().remove(key@));
                    if no_duplicates(old_keys) {
                        assert forall|a: int, b: int| 0 <= a < before.len() + 1 && 0 <= b < before.len() + 1 && a != b
                            implies before.push(k@)[a] != before.push(k@)[b] by {
                            if a == before.len() || b == before.len() {
                                let c = if a == before.len() { b } else { a };
                                assert(old_keys.take(i as int).contains(kept@[c]@));
                                let w = choose|w: int| 0 <= w < i && old_keys.take(i as int)[w] == kept@[c]@;
                                assert(old_keys[w] == kept@[c]@);
                                assert(old_keys[i as int] == k@);
                            }
                        }
                    }
                    assert forall|a: int| 0 <= a < kept@.len() implies old_keys.take(i + 1).contains(#[trigger] kept@[a]@) by {
                        if a < before.len() {
                            assert(old_keys.take(i as int).contains(kept@[a]@));
                            let w = choose|w: int| 0 <= w < i && old_keys.take(i as int)[w] == kept@[a]@;
                            assert(old_keys.take(i + 1)[w] == kept@[a]@);
                        } else {
                            assert(old_keys.take(i + 1)[i as int] == k@);
                        }
                    }
                }
            } else {
                proof {
                    assert(key_views(kept@).to_set() =~= old_keys.take(i + 1).to_set().remove(key@));
                    assert forall|a: int| 0 <= a < kept@.len() implies old_keys.take(i + 1).contains(#[trigger] kept@[a]@) by {
                        assert(old_keys.take(i as int).contains(kept@[a]@));
                        let w = choose|w: int| 0 <= w < i && old_keys.take(i as int)[w] == kept@[a]@;
                        assert(old_keys.take(i + 1)[w] == kept@[a]@);
                    }
                }
            }
        }
        assert(old_keys.take(n as int) =~= old_keys);
        self.keys_pressed = kept;
        self.last_key = Some(key);
        self.shift_key = mods.shift;
        self.ctrl_key = mods.ctrl;
        self.alt_key = mods.alt;
        self.meta_key = mods.meta;
        KeyEventEffects { handled: true, prevent_default, stop_propagation }
    }
}

/// Which keys a keyboard hook listens for.
#[derive(Clone, Debug, PartialEq)]
pub enum KeyFilter {
    /// No filter, listen for all keys
    AnyKey,
    /// Filter for specific keys
    Keys(Vec<String>),
}

impl KeyFilter {
    /// The filter for a single key; the empty key means no filter.
    fn from_key(key: String) -> (f: KeyFilter)
        ensures
            key@.len() == 0 ==> f is AnyKey,
            key@.len() != 0 ==> (f matches KeyFilter::Keys(keys) && key_views(keys@) == seq![key@]),
    {
        if key.as_str().is_empty() {
            KeyFilter::AnyKey
        } else {
            let keys = vec![key];
            assert(key_views(keys@) =~= seq![keys@[0]@]);
            KeyFilter::Keys(keys)
        }
    }

    /// The set of keys the filter admits, each once (`None`: every key).
    pub fn key_set(&self) -> (set: Option<Vec<String>>)
        ensures
            match self {
                KeyFilter::AnyKey => set is None,
                KeyFilter::Keys(keys) => set matches Some(v) && {
                    &&& no_duplicates(key_views(v@))
                    &&& key_views(v@).to_set() == key_views(keys@).to_set()
                },
            },
    {
        match self {
            KeyFilter::AnyKey => None,
            KeyFilter::Keys(keys) => {
                let mut out: Vec<String> = Vec::new();
                let n = keys.len();
                for i in 0..n
                    invariant
                        n == keys@.len(),
                        no_duplicates(key_views(out@)),
                        key_views(out@).to_set() == key_views(keys@.take(i as int)).to_set(),
                {
                    let ghost before = key_views(out@);
                    let k = &keys[i];
                    assert(key_views(keys@.take(i + 1)) =~= key_views(keys@.take(i as int)).push(k@));
                    proof {
                        key_views(keys@.take(i as int)).lemma_push_to_set_commute(k@);
                    }
                    match find_key(&out, k) {
                        Some(j) => {
                            assert(before[j as int] == k@);
                            assert(before.contains(k@));
                            assert(before.to_set().insert(k@) =~= before.to_set());
                        },
                        None => {
                            out.push(k.clone());
                            assert(key_views(out@) =~= before.push(k@));
                            proof {
                                before.lemma_push_to_set_commute(k@);
                            }
                            assert forall|a: int, b: int| 0 <= a < before.len() + 1 && 0 <= b < before.len() + 1 && a != b
                                implies before.push(k@)[a] != before.push(k@)[b] by {
                                if a == before.len() {
                                    assert(before[b] != k@);
                                } else if b == before.len() {
                                    assert(before[a] != k@);
                                }
                            }
                        },
                    }
                }
                assert(keys@.take(n as int) =~= keys@);
                Some(out)
            },
        }
    }
}

// A conversion's result cannot be written as one spec value, since no spec
// expression builds a `Vec`; each `from` below states its result in its own
// `ensures` instead, and `obeys_from_spec` is false.
impl From<String> for KeyFilter {
    /// The filter for one key; the empty key means no filter.
    fn from(key: String) -> (f: KeyFilter)
        ensures
            key@.len() == 0 ==> f is AnyKey,
            key@.len() != 0 ==> (f matches KeyFilter::Keys(keys) && key_views(keys@) == seq![key@]),
    {
        KeyFilter::from_key(key)
    }
}

impl vstd::std_specs::convert::FromSpecImpl<String> for KeyFilter {
    open spec fn obeys_from_spec() -> bool {
        false
    }

    open spec fn from_spec(v: String) -> KeyFilter {
        vstd::pervasive::arbitrary()
    }
}

impl<'a> From<&'a str> for KeyFilter {
    /// The filter for one key; the empty key means no filter.
    fn from(key: &'a str) -> (f: KeyFilter)
        ensures
            key@.len() == 0 ==> f is AnyKey,
            key@.len() != 0 ==> (f matches KeyFilter::Keys(keys) && key_views(keys@) == seq![key@]),
    {
        KeyFilter::from_key(key.to_string())
    }
}

impl<'a> vstd::std_specs::convert::FromSpecImpl<&'a str> for KeyFilter {
    open spec fn obeys_from_spec() -> bool {
        false
    }

    open spec fn from_spec(v: &'a str) -> KeyFilter {
        vstd::pervasive::arbitrary()
    }
}

impl From<Vec<String>> for KeyFilter {
    /// The filter for the keys of `keys` (an empty list admits no key).
    fn from(keys: Vec<String>) -> (f: KeyFilter)
        ensures
            f matches KeyFilter::Keys(k) && key_views(k@) == key_views(keys@),
    {
        KeyFilter::Keys(keys)
    }
}

impl vstd::std_specs::convert::FromSpecImpl<Vec<String>> for KeyFilter {
    open spec fn obeys_from_spec() -> bool {
        false
    }

    open spec fn from_spec(v: Vec<String>) -> KeyFilter {
        vstd::pervasive::arbitrary()
    }
}

impl<'a> From<Vec<&'a str>> for KeyFilter {
    /// The filter for the keys of `keys` (an empty list admits no key).
    fn from(keys: Vec<&'a str>) -> (f: KeyFilter)
        ensures
            f matches KeyFilter::Keys(k) && key_views(k@) == keys@.map_values(|s: &str| s@),
    {
        let mut out: Vec<String> = Vec::new();
        let n = keys.len();
        for i in 0..n
            invariant
                n == keys@.len(),
                key_views(out@) == keys@.take(i as int).map_values(|s: &str| s@),
        {
            let k = keys[i].to_string();
            out.push(k);
            assert(keys@.take(i + 1).map_values(|s: &str| s@) =~= keys@.take(i as int).map_values(|s: &str| s@).push(keys@[i as int]@));
            assert(key_views(out@) =~= keys@.take(i + 1).map_values(|s: &str| s@));
        }
        assert(keys@.take(n as int) =~= keys@);
        KeyFilter::Keys(out)
    }
}

impl<'a> vstd::std_specs::convert::FromSpecImpl<Vec<&'a str>> for KeyFilter {
    open spec fn obeys_from_spec() -> bool {
        false
    }

    open spec fn from_spec(v: Vec<&'a str>) -> KeyFilter {
        vstd::pervasive::arbitrary()
    }
}

/// Whether a keyboard hook with the key set `key_set` (`None`: every key)
/// passes an event for `key` to its handler.
pub fn key_admitted(key_set: &Option<Vec<String>>, key: &String) -> (admitted: bool)
    ensures
        admitted == match key_set {
            Some(keys) => key_views(keys@).contains(key@),
            None => true,
        },
{
    match key_set {
        Some(keys) => {
            let found = find_key(keys, key);
            proof {
                if let Some(i) = found {
                    assert(key_views(keys@)[i as int] == key@);
                }
            }
            found.is_some()
        },
        None => true,
    }
}

/// Which keyboard listeners to attach.
#[derive(Clone, Copy, Debug, PartialEq, Eq, Structural)]
pub struct KeyListeners {
    pub keydown: bool,
    pub keyup: bool,
}

/// Whether `name` occurs among the event names `events`.
pub open spec fn names_event(events: Seq<String>, name: Seq<char>) -> bool {
    exists|i: int| 0 <= i < events.len() && (#[trigger] events[i])@ == name
}

/// The listeners that the event names `events` ask for: `keydown` and
/// `keyup` are recognised, other names are ignored.
pub fn listened_key_events(events: &Vec<String>) -> (l: KeyListeners)
    ensures
        l.keydown == names_event(events@, "keydown"@),
        l.keyup == names_event(events@, "keyup"@),
{
    let down = "keydown".to_string();
    let up = "keyup".to_string();
    let mut l = KeyListeners { keydown: false, keyup: false };
    let n = events.len();
    for i in 0..n
        invariant
            n == events@.len(),
            down@ == "keydown"@,
            up@ == "keyup"@,
            l.keydown == names_event(events@.take(i as int), "keydown"@),
            l.keyup == names_event(events@.take(i as int), "keyup"@),
    {
        let ghost prefix = events@.take(i as int);
        let ghost next = events@.take(i + 1);
        assert(next =~= prefix.push(events@[i as int]));
        if events[i] == down {
            l.keydown = true;
        }
        if events[i] == up {
            l.keyup = true;
        }
        proof {
            assert forall|name: Seq<char>| names_event(next, name) <==> (names_event(prefix, name) || events@[i as int]@ == name) by {
                if names_event(next, name) {
                    let j = choose|j: int| 0 <= j < next.len() && (#[trigger] next[j])@ == name;
                    if j < prefix.len() {
                        assert(prefix[j] == next[j]);
                    }
                }
                if names_event(prefix, name) {
                    let j = choose|j: int| 0 <= j < prefix.len() && (#[trigger] prefix[j])@ == name;
                    assert(next[j] == prefix[j]);
                }
                if events@[i as int]@ == name {
                    assert(next[i as int] == events@[i as int]);
                }
            }
        }
    }
    assert(events@.take(n as int) =~= events@);
    l
}

/// Whether `key` is currently pressed.
pub fn is_key_pressed(keyboard: &KeyboardState, key: &str) -> (pressed: bool)
    ensures
        pressed == pressed_set(*keyboard).contains(key@),
{
    let k = key.to_string();
    let found = find_key(&keyboard.keys_pressed, &k);
    proof {
        if let Some(i) = found {
            assert(key_views(keyboard.keys_pressed@)[i as int] == key@);
        }
    }
    found.is_some()
}

/// Whether every key of `keys` is currently pressed.
pub fn is_combo_pressed(keyboard: &KeyboardState, keys: &[&str]) -> (pressed: bool)
    ensures
        pressed == forall|i: int| 0 <= i < keys@.len() ==> pressed_set(*keyboard).contains(#[trigger] keys@[i]@),
{
    let n = keys.len();
    for i in 0..n
        invariant
            n == keys@.len(),
            forall|j: int| 0 <= j < i ==> pressed_set(*keyboard).contains(#[trigger] keys@[j]@),
    {
        if !is_key_pressed(keyboard, keys[i]) {
            return false;
        }
    }
    true
}

/// Pressing and then releasing a key leaves it released and every other
/// key as it was; when it was not pressed before, the pressed set is back
/// where it started.
pub proof fn lemma_press_release(before: Set<Seq<char>>, key: Seq<char>)
    ensures
        !before.contains(key) ==> before.insert(key).remove(key) == before,
        !before.insert(key).remove(key).contains(key),
        forall|k: Seq<char>| k != key ==> (before.insert(key).remove(key).contains(k) <==> before.contains(k)),
        before.insert(key).contains(key),
{
    if !before.contains(key) {
        assert(before.insert(key).remove(key) =~= before);
    }
}

/// A handled key event, by the key it is for.
pub enum KeyEvent {
    Down(Seq<char>),
    Up(Seq<char>),
}

/// The key an event is for.
pub open spec fn event_key(e: KeyEvent) -> Seq<char> {
    match e {
        KeyEvent::Down(k) => k,
        KeyEvent::Up(k) => k,
    }
}

/// The pressed set after one handled event, as `key_down` and `key_up` change it.
pub open spec fn apply_key_event(pressed: Set<Seq<char>>, e: KeyEvent) -> Set<Seq<char>> {
    match e {
        KeyEvent::Down(k) => pressed.insert(k),
        KeyEvent::Up(k) => pressed.remove(k),
    }
}

/// The pressed set after the handled events of `events`, in order.
pub open spec fn apply_key_events(pressed: Set<Seq<char>>, events: Seq<KeyEvent>) -> Set<Seq<char>>
    decreases events.len(),
{
    if events.len() == 0 {
        pressed
    } else {
        apply_key_event(apply_key_events(pressed, events.drop_last()), events.last())
    }
}

/// Whether the last event of `events` for `key` was a key-down (`None`: no event for it).
pub open spec fn last_event_down(events: Seq<KeyEvent>, key: Seq<char>) -> Option<bool>
    decreases events.len(),
{
    if events.len() == 0 {
        None
    } else if event_key(events.last()) == key {
        Some(events.last() is Down)
    } else {
        last_event_down(events.drop_last(), key)
    }
}

/// After any sequence of handled events a key is pressed exactly when its
/// last event went down, or, with no event for it, when it was pressed before.
pub proof fn lemma_pressed_follows_last_event(pressed: Set<Seq<char>>, events: Seq<KeyEvent>, key: Seq<char>)
    ensures
        apply_key_events(pressed, events).contains(key) == match last_event_down(events, key) {
            Some(down) => down,
            None => pressed.contains(key),
        },
    decreases events.len(),
{
    if events.len() > 0 {
        lemma_pressed_follows_last_event(pressed, events.drop_last(), key);
    }
}

/// A recorded event holds exactly the event's key and each of its modifiers
/// under the same name: Shift in `shift_key`, Ctrl in `ctrl_key`, Alt in
/// `alt_key` and Meta in `meta_key`.
pub proof fn lemma_recorded_modifiers(after: KeyboardState, key: Seq<char>, mods: KeyModifiers)
    requires
        records_event(after, key, mods),
    ensures
        after.last_key is Some && after.last_key->0@ == key,
        after.shift_key == mods.shift,
        after.ctrl_key == mods.ctrl,
        after.alt_key == mods.alt,
        after.meta_key == mods.meta,
{
}

} // verus!
