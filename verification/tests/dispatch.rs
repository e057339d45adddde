use tauri_lite::event_loop::{
    handle, handle_window_event, run_dispatch, u32_to_string, ControlFlow, Delivery, DispatchEvent,
    InnerSize, Theme,
};

fn focus(f: bool) -> DispatchEvent {
    DispatchEvent::WindowFocusChanged(f)
}

#[test]
fn focus_event_delivers_fixed_name_and_payload() {
    let mut flow = ControlFlow::Wait;
    let d = handle(&focus(true), &mut flow).unwrap();
    assert_eq!(d.event_name, "window.focused");
    assert_eq!(d.payload, "{\"focused\":true}");
    assert!(matches!(flow, ControlFlow::Wait));

    let d = handle(&focus(false), &mut flow).unwrap();
    assert_eq!(d.payload, "{\"focused\":false}");
}

#[test]
fn scale_factor_event_delivers_size_and_factor() {
    let mut flow = ControlFlow::Wait;
    let event = DispatchEvent::ScaleFactorChanged(
        "1.25".to_string(),
        InnerSize { width: 800, height: 600 },
    );
    let d = handle(&event, &mut flow).unwrap();
    assert_eq!(d.event_name, "window.scaleFactorChanged");
    assert_eq!(
        d.payload,
        "{\"newInnerSize\":{\"height\":600,\"width\":800},\"scaleFactor\":1.25}"
    );
}

#[test]
fn zero_size_scale_factor_payload_is_exact() {
    let mut flow = ControlFlow::Wait;
    let event =
        DispatchEvent::ScaleFactorChanged("2".to_string(), InnerSize { width: 0, height: 0 });
    let d = handle(&event, &mut flow).unwrap();
    assert_eq!(d.payload, "{\"newInnerSize\":{\"height\":0,\"width\":0},\"scaleFactor\":2}");
}

#[test]
fn close_as_first_event_delivers_nothing() {
    let events = vec![DispatchEvent::CloseRequested, focus(true)];
    let (deliveries, flow) = run_dispatch(&events);
    assert!(matches!(flow, ControlFlow::Exit));
    assert!(deliveries.is_empty());
}

#[test]
fn theme_events_deliver_theme_names() {
    let mut flow = ControlFlow::Wait;
    let d = handle(&DispatchEvent::ThemeChanged(Theme::Dark), &mut flow).unwrap();
    assert_eq!(d.event_name, "window.themeChanged");
    assert_eq!(d.payload, "{\"theme\":\"dark\"}");
    let d = handle(&DispatchEvent::ThemeChanged(Theme::Light), &mut flow).unwrap();
    assert_eq!(d.payload, "{\"theme\":\"light\"}");
    let d = handle(&DispatchEvent::ThemeChanged(Theme::Unspecified), &mut flow).unwrap();
    assert_eq!(d.payload, "{\"theme\":\"\"}");
}

#[test]
fn menu_event_delivers_menu_id() {
    let mut flow = ControlFlow::Wait;
    let d = handle(&DispatchEvent::MenuActivated(42), &mut flow).unwrap();
    assert_eq!(d.event_name, "menu.clicked");
    assert_eq!(d.payload, "{\"menuId\":42}");
}

#[test]
fn ignored_event_delivers_nothing() {
    let mut flow = ControlFlow::Wait;
    assert!(handle(&DispatchEvent::Other, &mut flow).is_none());
    assert!(matches!(flow, ControlFlow::Wait));
}

#[test]
fn handle_resets_control_flow_to_wait() {
    let mut flow = ControlFlow::Exit;
    let d = handle(&DispatchEvent::Other, &mut flow);
    assert!(d.is_none());
    assert!(matches!(flow, ControlFlow::Wait));
}

#[test]
fn close_requested_flips_control_flow_to_exit() {
    let mut flow = ControlFlow::Wait;
    let d = handle(&DispatchEvent::CloseRequested, &mut flow);
    assert!(d.is_none());
    assert!(matches!(flow, ControlFlow::Exit));
}

#[test]
fn window_event_handler_keeps_flow_for_deliverables() {
    let mut flow = ControlFlow::Wait;
    let d = handle_window_event(&focus(true), &mut flow);
    assert!(d.is_some());
    assert!(matches!(flow, ControlFlow::Wait));
}

#[test]
fn n_events_yield_n_deliveries_in_order() {
    let events = vec![
        focus(true),
        DispatchEvent::MenuActivated(7),
        DispatchEvent::ThemeChanged(Theme::Dark),
        focus(false),
    ];
    let (deliveries, flow) = run_dispatch(&events);
    assert!(matches!(flow, ControlFlow::Wait));
    assert_eq!(deliveries.len(), 4);
    let expected: Vec<(&str, &str)> = vec![
        ("window.focused", "{\"focused\":true}"),
        ("menu.clicked", "{\"menuId\":7}"),
        ("window.themeChanged", "{\"theme\":\"dark\"}"),
        ("window.focused", "{\"focused\":false}"),
    ];
    for (d, (name, payload)) in deliveries.iter().zip(expected.iter()) {
        assert_eq!(d.event_name, *name);
        assert_eq!(d.payload, *payload);
    }
}

#[test]
fn close_stops_processing_of_later_events() {
    let events = vec![
        focus(true),
        DispatchEvent::CloseRequested,
        DispatchEvent::MenuActivated(9),
        focus(false),
    ];
    let (deliveries, flow) = run_dispatch(&events);
    assert!(matches!(flow, ControlFlow::Exit));
    assert_eq!(deliveries.len(), 1);
    assert_eq!(deliveries[0].event_name, "window.focused");
}

#[test]
fn ignored_events_produce_no_deliveries_but_keep_order() {
    let events = vec![DispatchEvent::Other, focus(true), DispatchEvent::Other];
    let (deliveries, flow) = run_dispatch(&events);
    assert!(matches!(flow, ControlFlow::Wait));
    assert_eq!(deliveries.len(), 1);
    assert_eq!(deliveries[0].payload, "{\"focused\":true}");
}

#[test]
fn delivery_script_invokes_ui_dispatcher() {
    let d = Delivery {
        event_name: "window.focused".to_string(),
        payload: "{\"focused\":true}".to_string(),
    };
    assert_eq!(
        d.script(),
        "TauriLite.__emit__(\"window.focused\", {\"focused\":true})"
    );
}

#[test]
fn u32_renders_in_decimal() {
    assert_eq!(u32_to_string(0), "0");
    assert_eq!(u32_to_string(9), "9");
    assert_eq!(u32_to_string(10), "10");
    assert_eq!(u32_to_string(405), "405");
    assert_eq!(u32_to_string(u32::MAX), "4294967295");
}
