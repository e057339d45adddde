//! The event dispatch loop's core: the mapping from native events to UI
//! script deliveries, and the continue/stop control the loop governs.
//!
//! The loop itself is driven by the native event source and executes each
//! delivery's script against the UI surface under exclusive access; the
//! functions here decide, from the event alone, what is delivered and
//! whether the loop keeps running.

use vstd::prelude::*;
use vstd::string::StringExecFns;

verus! {

/// The window theme reported by the native source.
pub enum Theme {
    Light,
    Dark,
    Unspecified,
}

/// A window's inner size in physical pixels.
pub struct InnerSize {
    pub width: u32,
    pub height: u32,
}

/// One occurrence requiring the loop's attention. The scale factor travels
/// as its JSON number text, rendered at the native boundary; host callbacks
/// are run by the loop's driver directly and do not pass through here.
/// `Other` stands for every native event kind the loop ignores.
pub enum DispatchEvent {
    WindowFocusChanged(bool),
    ScaleFactorChanged(String, InnerSize),
    ThemeChanged(Theme),
    CloseRequested,
    MenuActivated(u32),
    Other,
}

/// The loop's own state: keep waiting for events, or terminate.
pub enum ControlFlow {
    Wait,
    Exit,
}

/// One pending UI delivery: the event name and the JSON payload handed to
/// the UI-side dispatcher.
pub struct Delivery {
    pub event_name: String,
    pub payload: String,
}

impl View for Delivery {
    type V = (Seq<char>, Seq<char>);

    open spec fn view(&self) -> (Seq<char>, Seq<char>) {
        (self.event_name@, self.payload@)
    }
}

/// The decimal digit characters.
pub open spec fn dec_digit_char(d: int) -> char {
    if d == 0 {
        '0'
    } else if d == 1 {
        '1'
    } else if d == 2 {
        '2'
    } else if d == 3 {
        '3'
    } else if d == 4 {
        '4'
    } else if d == 5 {
        '5'
    } else if d == 6 {
        '6'
    } else if d == 7 {
        '7'
    } else if d == 8 {
        '8'
    } else {
        '9'
    }
}

/// The decimal rendering of a non-negative integer, without leading zeros.
pub open spec fn dec_str(n: int) -> Seq<char>
    decreases n,
{
    if n < 10 {
        seq![dec_digit_char(n)]
    } else {
        dec_str(n / 10) + seq![dec_digit_char(n % 10)]
    }
}

fn digit_str(d: u32) -> (r: &'static str)
    requires
        d < 10,
    ensures
        r@ == seq![dec_digit_char(d as int)],
{
    proof {
        reveal_strlit("0");
        reveal_strlit("1");
        reveal_strlit("2");
        reveal_strlit("3");
        reveal_strlit("4");
        reveal_strlit("5");
        reveal_strlit("6");
        reveal_strlit("7");
        reveal_strlit("8");
        reveal_strlit("9");
    }
    let r = match d {
        0 => "0",
        1 => "1",
        2 => "2",
        3 => "3",
        4 => "4",
        5 => "5",
        6 => "6",
        7 => "7",
        8 => "8",
        _ => "9",
    };
    proof {
        assert(r@ =~= seq![dec_digit_char(d as int)]);
    }
    r
}

/// Renders `n` in decimal.
pub fn u32_to_string(n: u32) -> (r: String)
    ensures
        r@ == dec_str(n as int),
    decreases n,
{
    if n < 10 {
        String::from_str(digit_str(n))
    } else {
        let mut r = u32_to_string(n / 10);
        r.append(digit_str(n % 10));
        r
    }
}

/// The JSON encoding of a boolean.
pub open spec fn json_bool(b: bool) -> Seq<char> {
    if b {
        "true"@
    } else {
        "false"@
    }
}

/// The theme name delivered to the UI; an unspecified theme is the empty
/// string.
pub open spec fn theme_text(t: Theme) -> Seq<char> {
    match t {
        Theme::Dark => "dark"@,
        Theme::Light => "light"@,
        Theme::Unspecified => ""@,
    }
}

/// Payload for a focus change: `{"focused":<bool>}`.
pub open spec fn focus_payload(focused: bool) -> Seq<char> {
    "{\"focused\":"@ + json_bool(focused) + "}"@
}

/// Payload for a scale-factor change, keys in the serialized order:
/// `{"newInnerSize":{"height":<h>,"width":<w>},"scaleFactor":<sf>}`.
pub open spec fn scale_payload(scale_factor: Seq<char>, size: InnerSize) -> Seq<char> {
    "{\"newInnerSize\":{\"height\":"@ + dec_str(size.height as int) + ",\"width\":"@ + dec_str(
        size.width as int,
    ) + "},\"scaleFactor\":"@ + scale_factor + "}"@
}

/// Payload for a theme change: `{"theme":"<name>"}`.
pub open spec fn theme_payload(t: Theme) -> Seq<char> {
    "{\"theme\":\""@ + theme_text(t) + "\"}"@
}

/// Payload for a menu activation: `{"menuId":<id>}`.
pub open spec fn menu_payload(id: u32) -> Seq<char> {
    "{\"menuId\":"@ + dec_str(id as int) + "}"@
}

/// Whether the loop delivers anything to the UI for this event.
pub open spec fn is_deliverable(e: DispatchEvent) -> bool {
    match e {
        DispatchEvent::WindowFocusChanged(_) => true,
        DispatchEvent::ScaleFactorChanged(_, _) => true,
        DispatchEvent::ThemeChanged(_) => true,
        DispatchEvent::MenuActivated(_) => true,
        DispatchEvent::CloseRequested => false,
        DispatchEvent::Other => false,
    }
}

/// The event name under which a deliverable event reaches the UI.
pub open spec fn event_name_of(e: DispatchEvent) -> Seq<char> {
    match e {
        DispatchEvent::WindowFocusChanged(_) => "window.focused"@,
        DispatchEvent::ScaleFactorChanged(_, _) => "window.scaleFactorChanged"@,
        DispatchEvent::ThemeChanged(_) => "window.themeChanged"@,
        DispatchEvent::MenuActivated(_) => "menu.clicked"@,
        _ => ""@,
    }
}

/// The JSON payload a deliverable event carries.
pub open spec fn payload_of(e: DispatchEvent) -> Seq<char> {
    match e {
        DispatchEvent::WindowFocusChanged(f) => focus_payload(f),
        DispatchEvent::ScaleFactorChanged(sf, size) => scale_payload(sf@, size),
        DispatchEvent::ThemeChanged(t) => theme_payload(t),
        DispatchEvent::MenuActivated(id) => menu_payload(id),
        _ => ""@,
    }
}

/// The script that invokes the fixed UI-side dispatcher with an event name
/// and a JSON payload.
pub open spec fn script_for(event_name: Seq<char>, payload: Seq<char>) -> Seq<char> {
    "TauriLite.__emit__(\""@ + event_name + "\", "@ + payload + ")"@
}

impl Delivery {
    /// The single script-execution request this delivery issues against the
    /// UI surface.
    pub fn script(&self) -> (r: String)
        ensures
            r@ == script_for(self.event_name@, self.payload@),
    {
        let mut r = String::from_str("TauriLite.__emit__(\"");
        r.append(self.event_name.as_str());
        r.append("\", ");
        r.append(self.payload.as_str());
        r.append(")");
        r
    }
}

fn render_focus_payload(focused: bool) -> (r: String)
    ensures
        r@ == focus_payload(focused),
{
    let mut r = String::from_str("{\"focused\":");
    if focused {
        r.append("true");
    } else {
        r.append("false");
    }
    r.append("}");
    r
}

fn render_scale_payload(scale_factor: &str, size: &InnerSize) -> (r: String)
    ensures
        r@ == scale_payload(scale_factor@, *size),
{
    let mut r = String::from_str("{\"newInnerSize\":{\"height\":");
    r.append(u32_to_string(size.height).as_str());
    r.append(",\"width\":");
    r.append(u32_to_string(size.width).as_str());
    r.append("},\"scaleFactor\":");
    r.append(scale_factor);
    r.append("}");
    r
}

fn render_theme_payload(t: &Theme) -> (r: String)
    ensures
        r@ == theme_payload(*t),
{
    let mut r = String::from_str("{\"theme\":\"");
    match t {
        Theme::Dark => r.append("dark"),
        Theme::Light => r.append("light"),
        Theme::Unspecified => r.append(""),
    }
    r.append("\"}");
    r
}

fn render_menu_payload(id: u32) -> (r: String)
    ensures
        r@ == menu_payload(id),
{
    let mut r = String::from_str("{\"menuId\":");
    r.append(u32_to_string(id).as_str());
    r.append("}");
    r
}

/// Handles the window-level events: focus, scale factor and theme changes
/// become deliveries; a close request flips the loop's state to `Exit` and
/// delivers nothing. Every other event leaves the state untouched.
pub fn handle_window_event(event: &DispatchEvent, control_flow: &mut ControlFlow) -> (d: Option<
    Delivery,
>)
    ensures
        event is CloseRequested ==> *final(control_flow) is Exit && d is None,
        !(event is CloseRequested) ==> *final(control_flow) == *old(control_flow),
        is_deliverable(*event) && !(event is MenuActivated) ==> (d matches Some(del) && del@ == (
            event_name_of(*event),
            payload_of(*event),
        )),
        !is_deliverable(*event) || event is MenuActivated ==> d is None,
{
    match event {
        DispatchEvent::WindowFocusChanged(focused) => Some(
            Delivery {
                event_name: String::from_str("window.focused"),
                payload: render_focus_payload(*focused),
            },
        ),
        DispatchEvent::ScaleFactorChanged(scale_factor, size) => Some(
            Delivery {
                event_name: String::from_str("window.scaleFactorChanged"),
                payload: render_scale_payload(scale_factor.as_str(), size),
            },
        ),
        DispatchEvent::ThemeChanged(t) => Some(
            Delivery {
                event_name: String::from_str("window.themeChanged"),
                payload: render_theme_payload(t),
            },
        ),
        DispatchEvent::CloseRequested => {
            *control_flow = ControlFlow::Exit;
            None
        },
        _ => None,
    }
}

/// One iteration of the event dispatch loop: the state first resets to
/// `Wait`, so idle periods fire no UI work, and the event then decides the
/// outcome — a close request exits, a deliverable event yields exactly its
/// fixed name and payload, and everything else is ignored.
pub fn handle(event: &DispatchEvent, control_flow: &mut ControlFlow) -> (d: Option<Delivery>)
    ensures
        event is CloseRequested ==> *final(control_flow) is Exit,
        !(event is CloseRequested) ==> *final(control_flow) is Wait,
        is_deliverable(*event) ==> (d matches Some(del) && del@ == (
            event_name_of(*event),
            payload_of(*event),
        )),
        !is_deliverable(*event) ==> d is None,
{
    *control_flow = ControlFlow::Wait;
    match event {
        DispatchEvent::MenuActivated(id) => Some(
            Delivery {
                event_name: String::from_str("menu.clicked"),
                payload: render_menu_payload(*id),
            },
        ),
        DispatchEvent::Other => None,
        _ => handle_window_event(event, control_flow),
    }
}

/// The deliveries the loop issues for an event sequence, in arrival order,
/// cut off at the first close request.
pub open spec fn spec_deliveries(events: Seq<DispatchEvent>) -> Seq<(Seq<char>, Seq<char>)>
    decreases events.len(),
{
    if events.len() == 0 {
        Seq::empty()
    } else if events[0] is CloseRequested {
        Seq::empty()
    } else if is_deliverable(events[0]) {
        seq![(event_name_of(events[0]), payload_of(events[0]))] + spec_deliveries(events.skip(1))
    } else {
        spec_deliveries(events.skip(1))
    }
}

/// Whether an event sequence makes the loop terminate.
pub open spec fn spec_exits(events: Seq<DispatchEvent>) -> bool {
    exists|j: int| 0 <= j < events.len() && events[j] is CloseRequested
}

/// The views of a delivery sequence.
pub open spec fn deliveries_view(s: Seq<Delivery>) -> Seq<(Seq<char>, Seq<char>)> {
    s.map_values(|d: Delivery| d@)
}

/// Runs the dispatch loop over a finite event sequence: events are handled
/// strictly in order, one at a time, each deliverable event yielding one
/// delivery, until the sequence ends or a close request flips the state to
/// `Exit` — after which no further event is processed.
pub fn run_dispatch(events: &Vec<DispatchEvent>) -> (r: (Vec<Delivery>, ControlFlow))
    ensures
        deliveries_view(r.0@) == spec_deliveries(events@),
        r.1 is Exit <==> spec_exits(events@),
{
    let mut deliveries: Vec<Delivery> = Vec::new();
    let mut flow = ControlFlow::Wait;
    let mut i: usize = 0;
    proof {
        assert(events@.skip(0) =~= events@);
        assert(deliveries_view(deliveries@) =~= Seq::<(Seq<char>, Seq<char>)>::empty());
    }
    loop
        invariant
            0 <= i <= events@.len(),
            flow is Wait,
            forall|j: int| 0 <= j < i ==> !(events@[j] is CloseRequested),
            deliveries_view(deliveries@) + spec_deliveries(events@.skip(i as int))
                =~= spec_deliveries(events@),
        decreases events@.len() - i,
    {
        if i == events.len() {
            proof {
                assert(events@.skip(i as int) =~= Seq::<DispatchEvent>::empty());
                assert(deliveries_view(deliveries@) + spec_deliveries(events@.skip(i as int))
                    =~= deliveries_view(deliveries@));
            }
            return (deliveries, flow);
        }
        let ghost pre = deliveries_view(deliveries@);
        let d = handle(&events[i], &mut flow);
        proof {
            assert(events@.skip(i as int)[0] == events@[i as int]);
            assert(events@.skip(i as int).skip(1) =~= events@.skip(i as int + 1));
        }
        match d {
            Some(del) => {
                proof {
                    assert(deliveries_view(deliveries@.push(del)) =~= pre + seq![del@]);
                }
                deliveries.push(del);
            },
            None => {},
        }
        match flow {
            ControlFlow::Exit => {
                proof {
                    assert(events@[i as int] is CloseRequested);
                    assert(spec_deliveries(events@.skip(i as int)) =~= Seq::<(
                        Seq<char>,
                        Seq<char>,
                    )>::empty());
                    assert(deliveries_view(deliveries@) =~= spec_deliveries(events@));
                    assert(spec_exits(events@));
                }
                return (deliveries, ControlFlow::Exit);
            },
            ControlFlow::Wait => {
                proof {
                    assert(!(events@[i as int] is CloseRequested));
                    if is_deliverable(events@[i as int]) {
                        assert(deliveries_view(deliveries@) =~= pre + seq![
                            (event_name_of(events@[i as int]), payload_of(events@[i as int])),
                        ]);
                        assert(deliveries_view(deliveries@) + spec_deliveries(
                            events@.skip(i as int + 1),
                        ) =~= spec_deliveries(events@));
                    } else {
                        assert(deliveries_view(deliveries@) + spec_deliveries(
                            events@.skip(i as int + 1),
                        ) =~= spec_deliveries(events@));
                    }
                }
                i = i + 1;
            },
        }
    }
}

/// Law: while the loop keeps waiting, the UI observes exactly one
/// script-execution call per event, in the events' own order, each carrying
/// the event's fixed name and payload.
pub proof fn lemma_one_delivery_per_event(events: Seq<DispatchEvent>)
    requires
        forall|j: int| 0 <= j < events.len() ==> is_deliverable(events[j]),
    ensures
        spec_deliveries(events).len() == events.len(),
        forall|j: int| 0 <= j < events.len() ==> spec_deliveries(events)[j] == (
            event_name_of(events[j]),
            payload_of(events[j]),
        ),
    decreases events.len(),
{
    if events.len() > 0 {
        assert(forall|j: int|
            0 <= j < events.skip(1).len() ==> is_deliverable(#[trigger] events.skip(1)[j]));
        lemma_one_delivery_per_event(events.skip(1));
    }
}

/// Law: a close request is terminal — the loop exits, and the deliveries are
/// exactly those of the events that preceded it; nothing at or after the
/// close request is processed.
pub proof fn lemma_close_stops_processing(events: Seq<DispatchEvent>, k: int)
    requires
        0 <= k < events.len(),
        events[k] is CloseRequested,
        forall|j: int| 0 <= j < k ==> !(events[j] is CloseRequested),
    ensures
        spec_exits(events),
        spec_deliveries(events) == spec_deliveries(events.take(k)),
    decreases k,
{
    if k == 0 {
        assert(spec_deliveries(events.take(0)) =~= Seq::<(Seq<char>, Seq<char>)>::empty());
    } else {
        lemma_close_stops_processing(events.skip(1), k - 1);
        assert(events.skip(1).take(k - 1) =~= events.take(k).skip(1));
        assert(events.take(k)[0] == events[0]);
        assert(spec_deliveries(events) =~= spec_deliveries(events.take(k)));
    }
}

} // verus!
