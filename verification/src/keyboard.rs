//! Key presses for a virtual keyboard.

use vstd::prelude::*;
use vstd::string::*;

verus! {

/// The name under which the virtual keyboard appears. The blocker of hotkeys leaves a device with
/// this prefix alone; otherwise it would hide the pressed keys from the compositor.
pub const VIRTUAL_KEYBOARD_NAME: &'static str =
    "handy-keys passthrough: Handy Wayland text input";

/// How text is pasted.
#[derive(Clone, Copy, Debug, PartialEq, Eq, Structural)]
pub enum PasteMethod {
    CtrlV,
    CtrlShiftV,
    ShiftInsert,
    /// Any way that takes no keys.
    Other,
}

/// What is pressed once the text is in.
#[derive(Clone, Copy, Debug, PartialEq, Eq, Structural)]
pub enum AutoSubmitKey {
    Enter,
    CtrlEnter,
    CmdEnter,
}

/// A key that is pressed here.
#[derive(Clone, Copy, Debug, PartialEq, Eq, Structural)]
pub enum Key {
    LeftCtrl,
    LeftShift,
    LeftMeta,
    V,
    Insert,
    Enter,
}

#[verifier::external_type_specification]
#[verifier::external_body]
pub struct ExKeyCode(evdev::KeyCode);

#[verifier::external_type_specification]
#[verifier::external_body]
#[verifier::reject_recursive_types(T)]
pub struct ExAttributeSetRef<T>(evdev::AttributeSetRef<T>);

/// The keys that a virtual keyboard has.
#[verifier::external_body]
pub struct KeySet {
    keys: evdev::AttributeSet<evdev::KeyCode>,
}

/// The codes of the keys of a set.
pub uninterp spec fn key_codes(keys: KeySet) -> Set<u16>;

/// The codes of the keys of a set, in the form in which a keyboard is set up with it.
pub uninterp spec fn attribute_codes(keys: &evdev::AttributeSetRef<evdev::KeyCode>) -> Set<u16>;

/// `evdev::AttributeSet::new`: a set without keys.
#[verifier::external_body]
fn no_keys() -> (keys: KeySet)
    ensures
        key_codes(keys) == Set::<u16>::empty(),
{
    KeySet { keys: evdev::AttributeSet::new() }
}

/// `evdev::AttributeSetRef::insert`: adds a key. A code beyond the largest one of the kernel would
/// panic.
#[verifier::external_body]
fn insert_key(keys: &mut KeySet, code: u16)
    requires
        code <= 0x2ff,
    ensures
        key_codes(*final(keys)) == key_codes(*old(keys)).insert(code),
{
    keys.keys.insert(evdev::KeyCode::new(code))
}

/// `evdev::AttributeSet::deref`: the same set.
#[verifier::external_body]
fn as_attributes(keys: &KeySet) -> (attributes: &evdev::AttributeSetRef<evdev::KeyCode>)
    ensures
        attribute_codes(attributes) == key_codes(*keys),
{
    &keys.keys
}

/// `evdev::KeyCode::code` of the constants for the keys: the codes of the kernel.
#[verifier::external_body]
fn key_code(key: Key) -> (code: u16)
    ensures
        code == key.code_of(),
{
    match key {
        Key::LeftCtrl => evdev::KeyCode::KEY_LEFTCTRL.code(),
        Key::LeftShift => evdev::KeyCode::KEY_LEFTSHIFT.code(),
        Key::LeftMeta => evdev::KeyCode::KEY_LEFTMETA.code(),
        Key::V => evdev::KeyCode::KEY_V.code(),
        Key::Insert => evdev::KeyCode::KEY_INSERT.code(),
        Key::Enter => evdev::KeyCode::KEY_ENTER.code(),
    }
}

impl Key {
    /// The kernel's code of the key.
    pub open spec fn code_of(self) -> u16 {
        match self {
            Key::LeftCtrl => 29,
            Key::LeftShift => 42,
            Key::LeftMeta => 125,
            Key::V => 47,
            Key::Insert => 110,
            Key::Enter => 28,
        }
    }
}

/// A change of one key: its code, and 1 for down or 0 for up.
pub type KeyChange = (u16, i32);

/// The keys are pressed in order and released in the reverse order.
pub open spec fn chord(keys: Seq<Key>) -> Seq<KeyChange> {
    Seq::new(
        2 * keys.len(),
        |place: int|
            if place < keys.len() {
                (keys[place].code_of(), 1i32)
            } else {
                (keys[2 * keys.len() - 1 - place].code_of(), 0i32)
            },
    )
}

/// The changes that press the keys in order and release them in the reverse order.
fn press(keys: &[Key]) -> (changes: Vec<KeyChange>)
    requires
        2 * keys@.len() <= usize::MAX,
    ensures
        changes@ == chord(keys@),
{
    let mut changes: Vec<KeyChange> = Vec::new();
    for place in 0..keys.len()
        invariant
            changes@ =~= chord(keys@).take(place as int),
    {
        changes.push((key_code(keys[place]), 1));
    }
    let count: usize = keys.len();
    for released in 0..count
        invariant
            count == keys@.len(),
            changes@ =~= chord(keys@).take(count + released),
    {
        changes.push((key_code(keys[count - 1 - released]), 0));
    }
    changes
}

/// The keys of a way to paste, those that are held first; none for a way that takes no keys.
pub open spec fn paste_keys(paste_method: PasteMethod) -> Option<Seq<Key>> {
    match paste_method {
        PasteMethod::CtrlV => Some(seq![Key::LeftCtrl, Key::V]),
        PasteMethod::CtrlShiftV => Some(seq![Key::LeftCtrl, Key::LeftShift, Key::V]),
        PasteMethod::ShiftInsert => Some(seq![Key::LeftShift, Key::Insert]),
        PasteMethod::Other => None,
    }
}

/// The keys to press once the text is in, those that are held first.
pub open spec fn submit_keys(auto_submit_key: AutoSubmitKey) -> Seq<Key> {
    match auto_submit_key {
        AutoSubmitKey::Enter => seq![Key::Enter],
        AutoSubmitKey::CtrlEnter => seq![Key::LeftCtrl, Key::Enter],
        AutoSubmitKey::CmdEnter => seq![Key::LeftMeta, Key::Enter],
    }
}

/// The key changes that paste.
pub fn send_paste_key_combo(paste_method: &PasteMethod) -> (changes: Result<
    Vec<KeyChange>,
    String,
>)
    ensures
        changes is Ok <==> paste_keys(*paste_method) is Some,
        changes matches Ok(sequence) ==> sequence@ == chord(paste_keys(*paste_method)->0),
        changes matches Err(message) ==> message@ == "Unsupported Wayland paste method"@,
{
    match paste_method {
        PasteMethod::CtrlV => Ok(press(&[Key::LeftCtrl, Key::V])),
        PasteMethod::CtrlShiftV => Ok(press(&[Key::LeftCtrl, Key::LeftShift, Key::V])),
        PasteMethod::ShiftInsert => Ok(press(&[Key::LeftShift, Key::Insert])),
        PasteMethod::Other => Err("Unsupported Wayland paste method".to_string()),
    }
}

/// The key changes that submit.
pub fn send_auto_submit_key(auto_submit_key: AutoSubmitKey) -> (changes: Vec<KeyChange>)
    ensures
        changes@ == chord(submit_keys(auto_submit_key)),
{
    match auto_submit_key {
        AutoSubmitKey::Enter => press(&[Key::Enter]),
        AutoSubmitKey::CtrlEnter => press(&[Key::LeftCtrl, Key::Enter]),
        AutoSubmitKey::CmdEnter => press(&[Key::LeftMeta, Key::Enter]),
    }
}

/// The codes that occur in key changes.
pub open spec fn codes_of(changes: Seq<KeyChange>) -> Set<u16> {
    changes.map_values(|change: KeyChange| change.0).to_set()
}

/// The keys that a keyboard needs for the key changes.
pub fn supported_keys(changes: &[KeyChange]) -> (keys: KeySet)
    requires
        forall|place: int| 0 <= place < changes@.len() ==> (#[trigger] changes@[place]).0 <= 0x2ff,
    ensures
        key_codes(keys) == codes_of(changes@),
{
    let mut keys = no_keys();
    assert(key_codes(keys) =~= codes_of(changes@.take(0)));
    for place in 0..changes.len()
        invariant
            forall|place: int|
                0 <= place < changes@.len() ==> (#[trigger] changes@[place]).0 <= 0x2ff,
            key_codes(keys) == codes_of(changes@.take(place as int)),
    {
        insert_key(&mut keys, changes[place].0);
        proof {
            let code = |change: KeyChange| change.0;
            let seen = changes@.take(place as int).map_values(code);
            let now = changes@.take(place + 1).map_values(code);
            assert(now =~= seen.push(changes@[place as int].0));
            assert forall|key: u16| now.to_set().contains(key) == seen.to_set().insert(
                changes@[place as int].0,
            ).contains(key) by {
                if seen.contains(key) {
                    let at = choose|at: int| 0 <= at < seen.len() && seen[at] == key;
                    assert(now[at] == key);
                }
                assert(now[place as int] == changes@[place as int].0);
            }
            assert(now.to_set() =~= seen.to_set().insert(changes@[place as int].0));
        }
    }
    assert(changes@.take(changes@.len() as int) =~= changes@);
    keys
}

impl KeySet {
    /// The set in the form in which a keyboard is set up with it.
    pub fn attributes(&self) -> (attributes: &evdev::AttributeSetRef<evdev::KeyCode>)
        ensures
            attribute_codes(attributes) == key_codes(*self),
    {
        as_attributes(self)
    }
}

/// A step of emitting key changes.
#[derive(Clone, Copy, Debug, PartialEq, Eq, Structural)]
pub enum KeyboardStage {
    Open,
    Configure,
    Create,
    Emit,
}

impl KeyboardStage {
    /// What a failure at this step is reported with.
    pub open spec fn prefix_text(self) -> Seq<char> {
        match self {
            KeyboardStage::Open => "Failed to open /dev/uinput: "@,
            KeyboardStage::Configure => "Failed to configure the Wayland keyboard: "@,
            KeyboardStage::Create => "Failed to create the Wayland keyboard: "@,
            KeyboardStage::Emit => "Failed to emit Wayland keyboard input: "@,
        }
    }

    /// The report of a failure at this step, with the system's own words.
    pub fn report(&self, error: &str) -> (message: String)
        ensures
            message@ == self.prefix_text() + error@,
    {
        let prefix: &'static str = match self {
            KeyboardStage::Open => "Failed to open /dev/uinput: ",
            KeyboardStage::Configure => "Failed to configure the Wayland keyboard: ",
            KeyboardStage::Create => "Failed to create the Wayland keyboard: ",
            KeyboardStage::Emit => "Failed to emit Wayland keyboard input: ",
        };
        prefix.to_string().concat(error)
    }
}

/// The keys that are down after the changes.
pub open spec fn held(changes: Seq<KeyChange>) -> Set<u16>
    decreases changes.len(),
{
    if changes.len() == 0 {
        Set::empty()
    } else if changes.last().1 == 0 {
        held(changes.drop_last()).remove(changes.last().0)
    } else {
        held(changes.drop_last()).insert(changes.last().0)
    }
}

/// A chord leaves no key down.
pub proof fn a_chord_leaves_no_key_down(keys: Seq<Key>)
    ensures
        held(chord(keys)) == Set::<u16>::empty(),
{
    held_within_chord(keys, 2 * keys.len());
    assert(chord(keys).take(2 * keys.len() as int) =~= chord(keys));
    assert(held(chord(keys)) =~= Set::empty());
}

/// Part way through a chord only keys are down that are still to be released.
proof fn held_within_chord(keys: Seq<Key>, count: nat)
    requires
        count <= 2 * keys.len(),
    ensures
        forall|code: u16|
            #[trigger] held(chord(keys).take(count as int)).contains(code) ==> exists|place: int|
                0 <= place < 2 * keys.len() - count && place < keys.len() && (
                #[trigger] keys[place]).code_of() == code,
    decreases count,
{
    if count > 0 {
        let before = (count - 1) as nat;
        held_within_chord(keys, before);
        let now = chord(keys).take(count as int);
        assert(now.drop_last() =~= chord(keys).take(before as int));
        assert forall|code: u16| #[trigger] held(now).contains(code) implies exists|place: int|
            0 <= place < 2 * keys.len() - count && place < keys.len() && (
            #[trigger] keys[place]).code_of() == code by {
            if now.last().1 == 1 && code == now.last().0 {
                assert(keys[before as int].code_of() == code);
            } else {
                assert(held(chord(keys).take(before as int)).contains(code));
                let place = choose|place: int|
                    0 <= place < 2 * keys.len() - before && place < keys.len() && (
                    #[trigger] keys[place]).code_of() == code;
                assert(keys[place].code_of() == code);
            }
        }
    }
}

/// A chord mirrors itself: each key goes down in its turn, and comes up as far from the end as it
/// went down from the beginning.
pub proof fn a_chord_mirrors_itself(keys: Seq<Key>, place: int)
    requires
        0 <= place < keys.len(),
    ensures
        chord(keys).len() == 2 * keys.len(),
        chord(keys)[place] == (keys[place].code_of(), 1i32),
        chord(keys)[2 * keys.len() - 1 - place] == (keys[place].code_of(), 0i32),
{
}

/// The codes are those that the kernel gives the keys.
pub proof fn keys_have_the_codes_of_the_kernel()
    ensures
        Key::Enter.code_of() == 28 && Key::LeftCtrl.code_of() == 29 && Key::LeftShift.code_of()
            == 42,
        Key::V.code_of() == 47 && Key::Insert.code_of() == 110 && Key::LeftMeta.code_of() == 125,
{
}

/// Every way to paste by keys holds its modifiers and strikes its last key.
pub proof fn each_way_to_paste_has_its_keys(paste_method: PasteMethod)
    ensures
        paste_keys(paste_method) is None <==> paste_method == PasteMethod::Other,
        paste_method == PasteMethod::CtrlV ==> paste_keys(paste_method)->0 == seq![
            Key::LeftCtrl,
            Key::V,
        ],
        paste_method == PasteMethod::CtrlShiftV ==> paste_keys(paste_method)->0 == seq![
            Key::LeftCtrl,
            Key::LeftShift,
            Key::V,
        ],
        paste_method == PasteMethod::ShiftInsert ==> paste_keys(paste_method)->0 == seq![
            Key::LeftShift,
            Key::Insert,
        ],
{
}

/// Every way to submit strikes Enter last, and holds at most the one modifier that it names.
pub proof fn each_way_to_submit_strikes_enter(auto_submit_key: AutoSubmitKey)
    ensures
        submit_keys(auto_submit_key).last() == Key::Enter,
        auto_submit_key == AutoSubmitKey::Enter <==> submit_keys(auto_submit_key).len() == 1,
        submit_keys(auto_submit_key).len() <= 2,
        auto_submit_key == AutoSubmitKey::CtrlEnter ==> submit_keys(auto_submit_key)[0]
            == Key::LeftCtrl,
        auto_submit_key == AutoSubmitKey::CmdEnter ==> submit_keys(auto_submit_key)[0]
            == Key::LeftMeta,
{
}

/// A keyboard has a key exactly if some change is one of that key.
pub proof fn a_keyboard_has_exactly_the_changed_keys(changes: Seq<KeyChange>, code: u16)
    ensures
        codes_of(changes).contains(code) <==> exists|place: int|
            0 <= place < changes.len() && (#[trigger] changes[place]).0 == code,
{
    let codes = changes.map_values(|change: KeyChange| change.0);
    if codes_of(changes).contains(code) {
        let place = choose|place: int| 0 <= place < codes.len() && codes[place] == code;
        assert(changes[place].0 == code);
    }
    if exists|place: int| 0 <= place < changes.len() && (#[trigger] changes[place]).0 == code {
        let place = choose|place: int|
            0 <= place < changes.len() && (#[trigger] changes[place]).0 == code;
        assert(codes[place] == code);
    }
}

/// What a failure to press keys is reported with, by its step.
pub proof fn each_keyboard_step_has_its_words()
    ensures
        KeyboardStage::Open.prefix_text() == "Failed to open /dev/uinput: "@,
        KeyboardStage::Configure.prefix_text() == "Failed to configure the Wayland keyboard: "@,
        KeyboardStage::Create.prefix_text() == "Failed to create the Wayland keyboard: "@,
        KeyboardStage::Emit.prefix_text() == "Failed to emit Wayland keyboard input: "@,
{
}

} // verus!
