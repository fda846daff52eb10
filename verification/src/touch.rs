//! From raw input events to touch samples, and from touch samples to pointer
//! events of the protocol.

use vstd::prelude::*;

verus! {

/// Button mask of a pointer event with the primary button down.
pub const MOUSE_LEFT: u8 = 0x01;

/// Button mask of a pointer event with no button down.
pub const MOUSE_UNKNOWN: u8 = 0x00;

/// A position or a tilt on two axes.
#[derive(Debug, Clone, Copy, PartialEq, Eq, Structural)]
pub struct Coord {
    pub x: i32,
    pub y: i32,
}

/// One touch sample: what the input device has reported up to a
/// synchronization boundary.
#[derive(Debug, Clone, Copy)]
pub struct Touch {
    /// The touch position.
    pub position: Coord,
    /// The touch pressure.
    pub pressure: i32,
    /// When the sample was completed, in milliseconds.
    pub timestamp: i64,
    /// How far above the surface the stylus hovers.
    pub distance: Option<i32>,
    /// The device's button code.
    pub button: Option<i32>,
    pub stylus_back: Option<i32>,
    pub stylus_side: Option<i32>,
    pub stylus_tilt: Option<Coord>,
}

/// What a raw input event reports.
#[derive(Debug, Clone, Copy, PartialEq, Eq, Structural)]
pub enum EventCode {
    AbsX,
    AbsY,
    AbsMtPositionX,
    AbsMtPositionY,
    AbsPressure,
    AbsMtPressure,
    AbsMtDistance,
    AbsTiltX,
    AbsTiltY,
    BtnTouch,
    BtnStylus,
    BtnStylus2,
    /// The synchronization boundary that completes a sample.
    SynReport,
    /// Anything else; it is passed over.
    Other,
}

/// A raw input event.
#[derive(Debug, Clone, Copy, PartialEq, Eq, Structural)]
pub struct InputEvent {
    pub code: EventCode,
    pub value: i32,
}

/// Why a touch sample could not be used.
#[derive(Debug, Clone, Copy, PartialEq, Eq, Structural)]
pub enum TouchError {
    /// The synchronization boundary came before a position on both axes and
    /// a pressure had been reported.
    IncompleteSample,
    /// The position does not fit a pointer event of the protocol.
    PositionOutOfRange,
    /// The input device could not be opened or read.
    DeviceFailed,
}

/// What the reader of the input device sends to the session.
#[derive(Debug, Clone, Copy)]
pub enum TouchMessage {
    /// One touch sample.
    Sample(Touch),
    /// The reader has given up; no sample follows.
    PipelineFailed(TouchError),
}

/// The pointer event that a touch sample calls for.
#[derive(Debug, Clone, Copy, PartialEq, Eq, Structural)]
pub struct PointerAction {
    pub button_mask: u8,
    pub x: u16,
    pub y: u16,
    /// Whether to ask the server for the whole panel anew, not incrementally.
    pub request_full_update: bool,
}

/// The button mask for a device button code: the code 1 is the primary
/// button, any other code is no button.
pub open spec fn spec_mouse_btn_to_vnc(button: Option<i32>) -> Option<u8> {
    match button {
        Some(code) => Some(
            if code == 1 {
                MOUSE_LEFT
            } else {
                MOUSE_UNKNOWN
            },
        ),
        None => None,
    }
}

/// Turns a device button code into a button mask of the protocol.
pub fn mouse_btn_to_vnc(button: Option<i32>) -> (mask: Option<u8>)
    ensures
        mask == spec_mouse_btn_to_vnc(button),
{
    match button {
        Some(code) => {
            let btn = if code == 1 {
                MOUSE_LEFT
            } else {
                MOUSE_UNKNOWN
            };
            Some(btn)
        },
        None => None,
    }
}

/// The stylus hovers: the sample carries a positive distance.
pub open spec fn hovers(touch: &Touch) -> bool {
    touch.distance matches Some(d) && d > 0
}

/// The button mask to send: none while the stylus hovers, else the last
/// known one.
pub open spec fn pointer_button(touch: &Touch, last_button: u8) -> u8 {
    if hovers(touch) {
        MOUSE_UNKNOWN
    } else {
        last_button
    }
}

/// The position fits a pointer event of the protocol.
pub open spec fn position_in_range(touch: &Touch) -> bool {
    0 <= touch.position.x <= u16::MAX && 0 <= touch.position.y <= u16::MAX
}

/// The pointer event for a touch sample, `last_button` being the last known
/// button mask; an error where the position does not fit.
pub open spec fn spec_touch_vnc(touch: &Touch, last_button: u8) -> Result<
    PointerAction,
    TouchError,
> {
    if position_in_range(touch) {
        Ok(
            PointerAction {
                button_mask: pointer_button(touch, last_button),
                x: touch.position.x as u16,
                y: touch.position.y as u16,
                request_full_update: touch.stylus_back == Some(1i32),
            },
        )
    } else {
        Err(TouchError::PositionOutOfRange)
    }
}

/// The pointer event for a touch sample, `last_button` being the last known
/// button mask.
///
/// While the stylus hovers no button is sent, whatever the last known mask
/// is. A stylus back button that has become active asks for the whole panel
/// anew.
pub fn touch_vnc(touch: &Touch, last_button: u8) -> (action: Result<PointerAction, TouchError>)
    ensures
        action == spec_touch_vnc(touch, last_button),
        action is Ok <==> position_in_range(touch),
        hovers(touch) && action is Ok ==> action.unwrap().button_mask == MOUSE_UNKNOWN,
{
    let send_button: u8 = match touch.distance {
        Some(d) => if d > 0 {
            MOUSE_UNKNOWN
        } else {
            last_button
        },
        None => last_button,
    };
    let x = touch.position.x;
    let y = touch.position.y;
    if x < 0 || x > 65535 || y < 0 || y > 65535 {
        return Err(TouchError::PositionOutOfRange);
    }
    let request_full_update = match touch.stylus_back {
        Some(v) => v == 1,
        None => false,
    };
    Ok(PointerAction { button_mask: send_button, x: x as u16, y: y as u16, request_full_update })
}

/// Listens for touch samples: it takes the raw events of the input device
/// one by one and holds what has been reported of the sample that is being
/// read.
#[derive(Debug, Clone, Copy)]
pub struct TouchEventListener {
    pub x: Option<i32>,
    pub y: Option<i32>,
    pub pressure: Option<i32>,
    pub button: Option<i32>,
    pub stylus_back: Option<i32>,
    pub stylus_side: Option<i32>,
    pub syn: Option<i32>,
    pub distance: Option<i32>,
    pub tilt_x: Option<i32>,
    pub tilt_y: Option<i32>,
}

impl TouchEventListener {
    /// Nothing reported yet.
    pub open spec fn spec_new() -> TouchEventListener {
        TouchEventListener {
            x: None,
            y: None,
            pressure: None,
            button: None,
            stylus_back: None,
            stylus_side: None,
            syn: None,
            distance: None,
            tilt_x: None,
            tilt_y: None,
        }
    }

    /// The state after one more event.
    pub open spec fn recorded(self, event: InputEvent) -> TouchEventListener {
        let v = Some(event.value);
        match event.code {
            EventCode::AbsX => TouchEventListener { x: v, ..self },
            EventCode::AbsY => TouchEventListener { y: v, ..self },
            EventCode::AbsMtPositionX => TouchEventListener { x: v, ..self },
            EventCode::AbsMtPositionY => TouchEventListener { y: v, ..self },
            EventCode::AbsPressure => TouchEventListener { pressure: v, ..self },
            EventCode::AbsMtPressure => TouchEventListener { pressure: v, ..self },
            EventCode::AbsMtDistance => TouchEventListener { distance: v, ..self },
            EventCode::AbsTiltX => TouchEventListener { tilt_x: v, ..self },
            EventCode::AbsTiltY => TouchEventListener { tilt_y: v, ..self },
            EventCode::BtnTouch => TouchEventListener { button: v, ..self },
            EventCode::BtnStylus => TouchEventListener { stylus_back: v, ..self },
            EventCode::BtnStylus2 => TouchEventListener { stylus_side: v, ..self },
            EventCode::SynReport => TouchEventListener { syn: v, ..self },
            EventCode::Other => self,
        }
    }

    /// The state after the first `n` events of `events`, starting with
    /// nothing reported.
    pub open spec fn recorded_prefix(events: Seq<InputEvent>, n: nat) -> TouchEventListener
        decreases n,
    {
        if n == 0 {
            TouchEventListener::spec_new()
        } else {
            TouchEventListener::recorded_prefix(events, (n - 1) as nat).recorded(events[n - 1])
        }
    }

    /// The sample, once the synchronization boundary has been seen: `None`
    /// before the boundary, an error where the position or the pressure is
    /// missing at the boundary.
    pub open spec fn finished(self, timestamp: i64) -> Result<Option<Touch>, TouchError> {
        if self.syn is None {
            Ok(None)
        } else if self.x is None || self.y is None || self.pressure is None {
            Err(TouchError::IncompleteSample)
        } else {
            Ok(
                Some(
                    Touch {
                        position: Coord { x: self.x.unwrap(), y: self.y.unwrap() },
                        pressure: self.pressure.unwrap(),
                        timestamp,
                        distance: self.distance,
                        button: self.button,
                        stylus_back: self.stylus_back,
                        stylus_side: self.stylus_side,
                        stylus_tilt: if self.tilt_x is Some && self.tilt_y is Some {
                            Some(Coord { x: self.tilt_x.unwrap(), y: self.tilt_y.unwrap() })
                        } else {
                            None
                        },
                    },
                ),
            )
        }
    }

    /// Starts a sample with nothing reported.
    pub fn new() -> (pending: TouchEventListener)
        ensures
            pending == TouchEventListener::spec_new(),
    {
        TouchEventListener {
            x: None,
            y: None,
            pressure: None,
            button: None,
            stylus_back: None,
            stylus_side: None,
            syn: None,
            distance: None,
            tilt_x: None,
            tilt_y: None,
        }
    }

    /// Takes one raw event into the sample.
    pub fn record(&mut self, event: &InputEvent)
        ensures
            *final(self) == old(self).recorded(*event),
    {
        let v = Some(event.value);
        match event.code {
            EventCode::AbsX => {
                self.x = v;
            },
            EventCode::AbsY => {
                self.y = v;
            },
            EventCode::AbsMtPositionX => {
                self.x = v;
            },
            EventCode::AbsMtPositionY => {
                self.y = v;
            },
            EventCode::AbsPressure => {
                self.pressure = v;
            },
            EventCode::AbsMtPressure => {
                self.pressure = v;
            },
            EventCode::AbsMtDistance => {
                self.distance = v;
            },
            EventCode::AbsTiltX => {
                self.tilt_x = v;
            },
            EventCode::AbsTiltY => {
                self.tilt_y = v;
            },
            EventCode::BtnTouch => {
                self.button = v;
            },
            EventCode::BtnStylus => {
                self.stylus_back = v;
            },
            EventCode::BtnStylus2 => {
                self.stylus_side = v;
            },
            EventCode::SynReport => {
                self.syn = v;
            },
            EventCode::Other => {},
        }
    }

    /// Takes the next raw event, read at clock reading `timestamp`. At a
    /// synchronization boundary the sample is handed out, or the error that
    /// keeps it from being one, and the listener starts the next sample with
    /// nothing reported.
    pub fn next_touch(&mut self, event: &InputEvent, timestamp: i64) -> (sample: Result<
        Option<Touch>,
        TouchError,
    >)
        ensures
            sample == old(self).recorded(*event).finished(timestamp),
            *final(self) == if old(self).recorded(*event).syn is Some {
                TouchEventListener::spec_new()
            } else {
                old(self).recorded(*event)
            },
    {
        self.record(event);
        let sample = self.finish(timestamp);
        if self.syn.is_some() {
            *self = TouchEventListener::new();
        }
        sample
    }

    /// The sample, if the synchronization boundary has been seen, stamped
    /// with `timestamp`.
    pub fn finish(&self, timestamp: i64) -> (sample: Result<Option<Touch>, TouchError>)
        ensures
            sample == self.finished(timestamp),
    {
        if self.syn.is_none() {
            return Ok(None);
        }
        match (self.x, self.y, self.pressure) {
            (Some(x), Some(y), Some(pressure)) => {
                let stylus_tilt = match (self.tilt_x, self.tilt_y) {
                    (Some(tx), Some(ty)) => Some(Coord { x: tx, y: ty }),
                    _ => None,
                };
                Ok(
                    Some(
                        Touch {
                            position: Coord { x, y },
                            pressure,
                            timestamp,
                            distance: self.distance,
                            button: self.button,
                            stylus_back: self.stylus_back,
                            stylus_side: self.stylus_side,
                            stylus_tilt,
                        },
                    ),
                )
            },
            _ => Err(TouchError::IncompleteSample),
        }
    }
}

/// What reading one sample from a run of raw events gave.
#[derive(Debug, Clone, Copy)]
pub struct NextTouch {
    /// The sample; `None` where the events ended before a synchronization
    /// boundary.
    pub sample: Result<Option<Touch>, TouchError>,
    /// How many events were read.
    pub consumed: usize,
}

/// No event of `events` before position `n` is a synchronization boundary.
pub open spec fn no_boundary_before(events: Seq<InputEvent>, n: int) -> bool {
    forall|i: int| 0 <= i < n ==> (#[trigger] events[i]).code != EventCode::SynReport
}

/// Reads one touch sample from the front of `events`: the events up to and
/// with the first synchronization boundary, or all of them where there is no
/// boundary. The sample is stamped with `timestamp`.
pub fn read_touch(events: &[InputEvent], timestamp: i64) -> (next: NextTouch)
    ensures
        next.consumed <= events@.len(),
        next.consumed > 0 ==> no_boundary_before(events@, next.consumed - 1),
        next.consumed < events@.len() ==> next.consumed > 0,
        next.consumed > 0 && events@[next.consumed - 1].code == EventCode::SynReport
            || next.consumed == events@.len() && no_boundary_before(
            events@,
            events@.len() as int,
        ),
        next.sample == TouchEventListener::recorded_prefix(events@, next.consumed as nat).finished(
            timestamp,
        ),
{
    let mut pending = TouchEventListener::new();
    let mut i: usize = 0;
    while i < events.len()
        invariant
            i <= events@.len(),
            no_boundary_before(events@, i as int),
            pending == TouchEventListener::recorded_prefix(events@, i as nat),
            pending.syn is None,
        decreases events@.len() - i,
    {
        let event = events[i];
        pending.record(&event);
        i += 1;
        if pending.syn.is_some() {
            return NextTouch { sample: pending.finish(timestamp), consumed: i };
        }
    }
    NextTouch { sample: pending.finish(timestamp), consumed: i }
}

} // verus!
