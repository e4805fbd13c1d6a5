use vstd::prelude::*;
use crate::geometry::Vec2;

verus! {

/// The modifier and repeat flags the host reports for one active key.
#[derive(Clone, Copy, Debug, PartialEq, Eq, Structural)]
pub struct WebKeyEvent {
    pub alt: bool,
    pub ctrl: bool,
    pub meta: bool,
    pub shift: bool,
    pub repeat: bool,
}

/// One discrete key event of the normalized control state: the key code and
/// its flags, copied verbatim from the raw snapshot.
#[derive(Clone, Debug, PartialEq, Eq)]
pub struct KeyEvent {
    pub code: String,
    pub alt: bool,
    pub ctrl: bool,
    pub meta: bool,
    pub shift: bool,
    pub repeat: bool,
}

/// A raw input snapshot as the host reports it: the keys active this sample
/// as an ordered association list (presence means active; release is implied
/// by absence on a later sample), two optional click slots, and the
/// last-known pointer position.
#[derive(Clone, Debug, PartialEq, Eq)]
pub struct WebControl {
    pub keys: Vec<(String, WebKeyEvent)>,
    pub click: [Option<Vec2>; 2],
    pub mouse: Vec2,
}

/// The normalized per-frame control state handed to the simulation: one key
/// event per active key in the snapshot's order, exactly two click slots, and
/// the pointer position.  Click and pointer coordinates stay in the host's
/// space; mapping them into logical space is the caller's concern.
#[derive(Clone, Debug, PartialEq, Eq)]
pub struct Control {
    pub keys: Vec<KeyEvent>,
    pub click: [Option<Vec2>; 2],
    pub mouse: Vec2,
}

/// `e` carries the key code `code` and the flags of `w`, verbatim.
pub open spec fn event_matches(e: KeyEvent, code: Seq<char>, w: WebKeyEvent) -> bool {
    &&& e.code@ == code
    &&& e.alt == w.alt
    &&& e.ctrl == w.ctrl
    &&& e.meta == w.meta
    &&& e.shift == w.shift
    &&& e.repeat == w.repeat
}

/// `c` is the normalization of `raw`: as many key events as active keys, each
/// carrying its entry's code and flags in the snapshot's order, and the click
/// slots and pointer position copied unchanged.
pub open spec fn normalized(raw: WebControl, c: Control) -> bool {
    &&& c.keys@.len() == raw.keys@.len()
    &&& forall|i: int|
        0 <= i < raw.keys@.len() ==> event_matches(
            #[trigger] c.keys@[i],
            raw.keys@[i].0@,
            raw.keys@[i].1,
        )
    &&& c.click == raw.click
    &&& c.mouse == raw.mouse
}

/// Projects a raw snapshot into the normalized control state: one key event
/// per active key, emitted in the snapshot's own order with the flags copied
/// verbatim, and the click slots and pointer position passed through
/// untouched.
pub fn normalize(raw: &WebControl) -> (c: Control)
    ensures
        normalized(*raw, c),
{
    let mut keys: Vec<KeyEvent> = Vec::new();
    let mut i: usize = 0;
    while i < raw.keys.len()
        invariant
            0 <= i <= raw.keys@.len(),
            keys@.len() == i,
            forall|j: int|
                0 <= j < i ==> event_matches(
                    #[trigger] keys@[j],
                    raw.keys@[j].0@,
                    raw.keys@[j].1,
                ),
        decreases raw.keys@.len() - i,
    {
        let entry = &raw.keys[i];
        keys.push(KeyEvent {
            code: entry.0.clone(),
            alt: entry.1.alt,
            ctrl: entry.1.ctrl,
            meta: entry.1.meta,
            shift: entry.1.shift,
            repeat: entry.1.repeat,
        });
        i += 1;
    }
    Control { keys, click: raw.click, mouse: raw.mouse }
}

} // verus!
