use vstd::prelude::*;

use crate::key_event::{KeyEvent, RawKeyEvent, ResolveError};

verus! {

/// Wire-level type tag of a key-press event.
pub const KEY_PRESS: i32 = 2;

/// Smallest type tag of an event category that the protocol defines.
pub const FIRST_EVENT_TAG: i32 = 2;

/// Largest type tag of an event category that the protocol defines.
pub const LAST_EVENT_TAG: i32 = 35;

/// A raw event record: its type tag and, for key events, the key fields.
#[derive(Debug, Clone, Copy, PartialEq, Eq, Structural)]
pub struct RawEvent {
    pub type_: i32,
    pub xkey: RawKeyEvent,
}

/// Every event category of the protocol that is not modelled as an `Event`.
#[derive(Debug, Clone, Copy, PartialEq, Eq, Structural)]
pub enum EventCategory {
    KeyRelease,
    ButtonPress,
    ButtonRelease,
    MotionNotify,
    EnterNotify,
    LeaveNotify,
    FocusIn,
    FocusOut,
    KeymapNotify,
    Expose,
    GraphicsExpose,
    NoExpose,
    VisibilityNotify,
    CreateNotify,
    DestroyNotify,
    UnmapNotify,
    MapNotify,
    MapRequest,
    ReparentNotify,
    ConfigureNotify,
    ConfigureRequest,
    GravityNotify,
    ResizeRequest,
    CirculateNotify,
    CirculateRequest,
    PropertyNotify,
    SelectionClear,
    SelectionRequest,
    SelectionNotify,
    ColormapNotify,
    ClientMessage,
    MappingNotify,
    GenericEvent,
}

impl EventCategory {
    /// The wire-level type tag of the category.
    pub open spec fn spec_tag(self) -> i32 {
        match self {
            EventCategory::KeyRelease => 3,
            EventCategory::ButtonPress => 4,
            EventCategory::ButtonRelease => 5,
            EventCategory::MotionNotify => 6,
            EventCategory::EnterNotify => 7,
            EventCategory::LeaveNotify => 8,
            EventCategory::FocusIn => 9,
            EventCategory::FocusOut => 10,
            EventCategory::KeymapNotify => 11,
            EventCategory::Expose => 12,
            EventCategory::GraphicsExpose => 13,
            EventCategory::NoExpose => 14,
            EventCategory::VisibilityNotify => 15,
            EventCategory::CreateNotify => 16,
            EventCategory::DestroyNotify => 17,
            EventCategory::UnmapNotify => 18,
            EventCategory::MapNotify => 19,
            EventCategory::MapRequest => 20,
            EventCategory::ReparentNotify => 21,
            EventCategory::ConfigureNotify => 22,
            EventCategory::ConfigureRequest => 23,
            EventCategory::GravityNotify => 24,
            EventCategory::ResizeRequest => 25,
            EventCategory::CirculateNotify => 26,
            EventCategory::CirculateRequest => 27,
            EventCategory::PropertyNotify => 28,
            EventCategory::SelectionClear => 29,
            EventCategory::SelectionRequest => 30,
            EventCategory::SelectionNotify => 31,
            EventCategory::ColormapNotify => 32,
            EventCategory::ClientMessage => 33,
            EventCategory::MappingNotify => 34,
            EventCategory::GenericEvent => 35,
        }
    }

    pub fn tag(&self) -> (r: i32)
        ensures
            r == self.spec_tag(),
    {
        match self {
            EventCategory::KeyRelease => 3,
            EventCategory::ButtonPress => 4,
            EventCategory::ButtonRelease => 5,
            EventCategory::MotionNotify => 6,
            EventCategory::EnterNotify => 7,
            EventCategory::LeaveNotify => 8,
            EventCategory::FocusIn => 9,
            EventCategory::FocusOut => 10,
            EventCategory::KeymapNotify => 11,
            EventCategory::Expose => 12,
            EventCategory::GraphicsExpose => 13,
            EventCategory::NoExpose => 14,
            EventCategory::VisibilityNotify => 15,
            EventCategory::CreateNotify => 16,
            EventCategory::DestroyNotify => 17,
            EventCategory::UnmapNotify => 18,
            EventCategory::MapNotify => 19,
            EventCategory::MapRequest => 20,
            EventCategory::ReparentNotify => 21,
            EventCategory::ConfigureNotify => 22,
            EventCategory::ConfigureRequest => 23,
            EventCategory::GravityNotify => 24,
            EventCategory::ResizeRequest => 25,
            EventCategory::CirculateNotify => 26,
            EventCategory::CirculateRequest => 27,
            EventCategory::PropertyNotify => 28,
            EventCategory::SelectionClear => 29,
            EventCategory::SelectionRequest => 30,
            EventCategory::SelectionNotify => 31,
            EventCategory::ColormapNotify => 32,
            EventCategory::ClientMessage => 33,
            EventCategory::MappingNotify => 34,
            EventCategory::GenericEvent => 35,
        }
    }

    /// The category of a type tag, for tags of known categories other than key press.
    pub open spec fn spec_from_tag(tag: i32) -> Option<EventCategory> {
        match tag {
            3 => Some(EventCategory::KeyRelease),
            4 => Some(EventCategory::ButtonPress),
            5 => Some(EventCategory::ButtonRelease),
            6 => Some(EventCategory::MotionNotify),
            7 => Some(EventCategory::EnterNotify),
            8 => Some(EventCategory::LeaveNotify),
            9 => Some(EventCategory::FocusIn),
            10 => Some(EventCategory::FocusOut),
            11 => Some(EventCategory::KeymapNotify),
            12 => Some(EventCategory::Expose),
            13 => Some(EventCategory::GraphicsExpose),
            14 => Some(EventCategory::NoExpose),
            15 => Some(EventCategory::VisibilityNotify),
            16 => Some(EventCategory::CreateNotify),
            17 => Some(EventCategory::DestroyNotify),
            18 => Some(EventCategory::UnmapNotify),
            19 => Some(EventCategory::MapNotify),
            20 => Some(EventCategory::MapRequest),
            21 => Some(EventCategory::ReparentNotify),
            22 => Some(EventCategory::ConfigureNotify),
            23 => Some(EventCategory::ConfigureRequest),
            24 => Some(EventCategory::GravityNotify),
            25 => Some(EventCategory::ResizeRequest),
            26 => Some(EventCategory::CirculateNotify),
            27 => Some(EventCategory::CirculateRequest),
            28 => Some(EventCategory::PropertyNotify),
            29 => Some(EventCategory::SelectionClear),
            30 => Some(EventCategory::SelectionRequest),
            31 => Some(EventCategory::SelectionNotify),
            32 => Some(EventCategory::ColormapNotify),
            33 => Some(EventCategory::ClientMessage),
            34 => Some(EventCategory::MappingNotify),
            35 => Some(EventCategory::GenericEvent),
            _ => None,
        }
    }

    pub fn from_tag(tag: i32) -> (r: Option<EventCategory>)
        ensures
            r == EventCategory::spec_from_tag(tag),
    {
        match tag {
            3 => Some(EventCategory::KeyRelease),
            4 => Some(EventCategory::ButtonPress),
            5 => Some(EventCategory::ButtonRelease),
            6 => Some(EventCategory::MotionNotify),
            7 => Some(EventCategory::EnterNotify),
            8 => Some(EventCategory::LeaveNotify),
            9 => Some(EventCategory::FocusIn),
            10 => Some(EventCategory::FocusOut),
            11 => Some(EventCategory::KeymapNotify),
            12 => Some(EventCategory::Expose),
            13 => Some(EventCategory::GraphicsExpose),
            14 => Some(EventCategory::NoExpose),
            15 => Some(EventCategory::VisibilityNotify),
            16 => Some(EventCategory::CreateNotify),
            17 => Some(EventCategory::DestroyNotify),
            18 => Some(EventCategory::UnmapNotify),
            19 => Some(EventCategory::MapNotify),
            20 => Some(EventCategory::MapRequest),
            21 => Some(EventCategory::ReparentNotify),
            22 => Some(EventCategory::ConfigureNotify),
            23 => Some(EventCategory::ConfigureRequest),
            24 => Some(EventCategory::GravityNotify),
            25 => Some(EventCategory::ResizeRequest),
            26 => Some(EventCategory::CirculateNotify),
            27 => Some(EventCategory::CirculateRequest),
            28 => Some(EventCategory::PropertyNotify),
            29 => Some(EventCategory::SelectionClear),
            30 => Some(EventCategory::SelectionRequest),
            31 => Some(EventCategory::SelectionNotify),
            32 => Some(EventCategory::ColormapNotify),
            33 => Some(EventCategory::ClientMessage),
            34 => Some(EventCategory::MappingNotify),
            35 => Some(EventCategory::GenericEvent),
            _ => None,
        }
    }

    /// The protocol's name of the category.
    pub open spec fn spec_name(self) -> Seq<char> {
        match self {
            EventCategory::KeyRelease => "KeyRelease"@,
            EventCategory::ButtonPress => "ButtonPress"@,
            EventCategory::ButtonRelease => "ButtonRelease"@,
            EventCategory::MotionNotify => "MotionNotify"@,
            EventCategory::EnterNotify => "EnterNotify"@,
            EventCategory::LeaveNotify => "LeaveNotify"@,
            EventCategory::FocusIn => "FocusIn"@,
            EventCategory::FocusOut => "FocusOut"@,
            EventCategory::KeymapNotify => "KeymapNotify"@,
            EventCategory::Expose => "Expose"@,
            EventCategory::GraphicsExpose => "GraphicExpose"@,
            EventCategory::NoExpose => "NoExpose"@,
            EventCategory::VisibilityNotify => "VisibilityNotify"@,
            EventCategory::CreateNotify => "CreateNotify"@,
            EventCategory::DestroyNotify => "DestroyNotify"@,
            EventCategory::UnmapNotify => "UnmapNotify"@,
            EventCategory::MapNotify => "MapNotify"@,
            EventCategory::MapRequest => "MapRequest"@,
            EventCategory::ReparentNotify => "ReparentNotify"@,
            EventCategory::ConfigureNotify => "ConfigureNotify"@,
            EventCategory::ConfigureRequest => "ConfigureRequest"@,
            EventCategory::GravityNotify => "GravityNotify"@,
            EventCategory::ResizeRequest => "ResizeRequest"@,
            EventCategory::CirculateNotify => "CirculateNotify"@,
            EventCategory::CirculateRequest => "CirculateRequest"@,
            EventCategory::PropertyNotify => "PropertyNotify"@,
            EventCategory::SelectionClear => "SelectionClear"@,
            EventCategory::SelectionRequest => "SelectionRequest"@,
            EventCategory::SelectionNotify => "SelectionNotify"@,
            EventCategory::ColormapNotify => "ColormapNotify"@,
            EventCategory::ClientMessage => "ClientMessage"@,
            EventCategory::MappingNotify => "MappingNotify"@,
            EventCategory::GenericEvent => "GenericEvent"@,
        }
    }

    pub fn name(&self) -> (r: &'static str)
        ensures
            r@ == self.spec_name(),
    {
        match self {
            EventCategory::KeyRelease => "KeyRelease",
            EventCategory::ButtonPress => "ButtonPress",
            EventCategory::ButtonRelease => "ButtonRelease",
            EventCategory::MotionNotify => "MotionNotify",
            EventCategory::EnterNotify => "EnterNotify",
            EventCategory::LeaveNotify => "LeaveNotify",
            EventCategory::FocusIn => "FocusIn",
            EventCategory::FocusOut => "FocusOut",
            EventCategory::KeymapNotify => "KeymapNotify",
            EventCategory::Expose => "Expose",
            EventCategory::GraphicsExpose => "GraphicExpose",
            EventCategory::NoExpose => "NoExpose",
            EventCategory::VisibilityNotify => "VisibilityNotify",
            EventCategory::CreateNotify => "CreateNotify",
            EventCategory::DestroyNotify => "DestroyNotify",
            EventCategory::UnmapNotify => "UnmapNotify",
            EventCategory::MapNotify => "MapNotify",
            EventCategory::MapRequest => "MapRequest",
            EventCategory::ReparentNotify => "ReparentNotify",
            EventCategory::ConfigureNotify => "ConfigureNotify",
            EventCategory::ConfigureRequest => "ConfigureRequest",
            EventCategory::GravityNotify => "GravityNotify",
            EventCategory::ResizeRequest => "ResizeRequest",
            EventCategory::CirculateNotify => "CirculateNotify",
            EventCategory::CirculateRequest => "CirculateRequest",
            EventCategory::PropertyNotify => "PropertyNotify",
            EventCategory::SelectionClear => "SelectionClear",
            EventCategory::SelectionRequest => "SelectionRequest",
            EventCategory::SelectionNotify => "SelectionNotify",
            EventCategory::ColormapNotify => "ColormapNotify",
            EventCategory::ClientMessage => "ClientMessage",
            EventCategory::MappingNotify => "MappingNotify",
            EventCategory::GenericEvent => "GenericEvent",
        }
    }
}

/// A received event that falls outside the modelled set.
#[derive(Debug, Clone, Copy, PartialEq, Eq, Structural)]
pub enum UnsupportedCategoryError {
    /// A category that the protocol defines and this library does not model.
    Known(EventCategory),
    /// A type tag outside every category that the protocol defines.
    Unknown(i32),
}

/// Why a raw event could not be decoded.
#[derive(Debug, Clone, Copy, PartialEq, Eq, Structural)]
pub enum DecodeError {
    Unsupported(UnsupportedCategoryError),
    Resolve(ResolveError),
}

/// A decoded event.
#[derive(Debug, Clone, Copy, PartialEq, Eq, Structural)]
pub enum Event {
    KeyPress(KeyEvent),
}

/// The error that a record of type tag `tag`, other than key press, decodes to.
pub open spec fn spec_unsupported(tag: i32) -> UnsupportedCategoryError {
    match EventCategory::spec_from_tag(tag) {
        Some(c) => UnsupportedCategoryError::Known(c),
        None => UnsupportedCategoryError::Unknown(tag),
    }
}

impl Event {
    /// The outcome of decoding `raw`, given what resolving its keycode gave
    /// (which matters for key presses only).
    pub open spec fn spec_decode(raw: RawEvent, resolved: Result<u64, ResolveError>) -> Result<
        Event,
        DecodeError,
    > {
        if raw.type_ == KEY_PRESS {
            match KeyEvent::spec_decode(raw.xkey, resolved) {
                Ok(e) => Ok(Event::KeyPress(e)),
                Err(e) => Err(DecodeError::Resolve(e)),
            }
        } else {
            Err(DecodeError::Unsupported(spec_unsupported(raw.type_)))
        }
    }

    /// Decodes a raw event by its type tag. Only key presses decode; `resolve`
    /// is asked for their keycode's symbol, and nothing else.
    pub fn from_xevent<F: Fn(u8) -> Result<u64, ResolveError>>(xevent: RawEvent, resolve: F) -> (r:
        Result<Event, DecodeError>)
        requires
            xevent.type_ == KEY_PRESS ==> resolve.requires((xevent.xkey.spec_keycode(),)),
        ensures
            xevent.type_ != KEY_PRESS ==> r == Err::<Event, DecodeError>(
                DecodeError::Unsupported(spec_unsupported(xevent.type_)),
            ),
            xevent.type_ == KEY_PRESS ==> exists|resolved: Result<u64, ResolveError>|
                #![trigger Event::spec_decode(xevent, resolved)]
                resolve.ensures((xevent.xkey.spec_keycode(),), resolved) && r == Event::spec_decode(
                    xevent,
                    resolved,
                ),
    {
        if xevent.type_ == KEY_PRESS {
            let r = KeyEvent::from_xevent(xevent.xkey, resolve);
            let ghost key_result = r;
            let out = match r {
                Ok(e) => Ok(Event::KeyPress(e)),
                Err(e) => Err(DecodeError::Resolve(e)),
            };
            proof {
                let resolved = choose|resolved: Result<u64, ResolveError>|
                    resolve.ensures((xevent.xkey.spec_keycode(),), resolved) && key_result
                        == KeyEvent::spec_decode(xevent.xkey, resolved);
                assert(out == Event::spec_decode(xevent, resolved));
            }
            out
        } else {
            match EventCategory::from_tag(xevent.type_) {
                Some(c) => Err(DecodeError::Unsupported(UnsupportedCategoryError::Known(c))),
                None => Err(DecodeError::Unsupported(UnsupportedCategoryError::Unknown(xevent.type_))),
            }
        }
    }
}

/// The known categories are exactly the tags after key press up to the last
/// defined tag, and each is found under its own tag.
pub proof fn lemma_from_tag_inverts_tag(tag: i32)
    ensures
        EventCategory::spec_from_tag(tag).is_some() <==> FIRST_EVENT_TAG < tag <= LAST_EVENT_TAG,
        EventCategory::spec_from_tag(tag) matches Some(c) ==> c.spec_tag() == tag,
{
}

/// Every category has a tag in the defined range, under which it is found.
pub proof fn lemma_every_category_is_found_by_tag(c: EventCategory)
    ensures
        FIRST_EVENT_TAG < c.spec_tag() <= LAST_EVENT_TAG,
        EventCategory::spec_from_tag(c.spec_tag()) == Some(c),
{
}

/// Every record that is not a key press is refused, naming its category when
/// the tag is one the protocol defines, and carrying the raw tag otherwise.
pub proof fn lemma_non_key_press_is_unsupported(raw: RawEvent, resolved: Result<u64, ResolveError>)
    requires
        raw.type_ != KEY_PRESS,
    ensures
        Event::spec_decode(raw, resolved) matches Err(DecodeError::Unsupported(u)) && match u {
            UnsupportedCategoryError::Known(c) => c.spec_tag() == raw.type_,
            UnsupportedCategoryError::Unknown(t) => t == raw.type_ && !(FIRST_EVENT_TAG <= t
                <= LAST_EVENT_TAG),
        },
{
    lemma_from_tag_inverts_tag(raw.type_);
}

} // verus!
