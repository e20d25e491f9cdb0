use hyoka::{
    BufferError, ConfigState, Event, Fixed, FixedRect, Interaction, Interface, MouseEvent, Object, Panel,
    Rect, RegistryError, Request, Role, Runner, SurfaceSize, Tag, UiOutcome, Viewport,
};

fn obj(raw: u64) -> Object {
    Object::from_raw(raw)
}

fn quiet() -> UiOutcome {
    UiOutcome { interaction: None, redraw: false }
}

fn bar_runner() -> (Runner, Object, Object) {
    let mut runner = Runner::new(Panel::new(None));
    let surface = obj(10);
    let layer = obj(11);
    let setup = runner.open_bar(surface, layer).unwrap();
    assert_eq!(
        setup,
        vec![
            Request::LayerSize { layer_surface: layer, width: 0, height: 35 },
            Request::LayerAnchor { layer_surface: layer, anchor: 13 },
            Request::LayerExclusiveZone { layer_surface: layer, zone: 35 },
            Request::Commit { surface },
            Request::Flush,
        ]
    );
    (runner, surface, layer)
}

/// A configured bar with the pointer on it, at x = 100.
fn pointed_bar() -> (Runner, Object, Object) {
    let (mut runner, bar, layer) = bar_runner();
    runner.dispatch_wayland_event(
        Event::Resize { object: layer, size: SurfaceSize { width: 800, height: 35 } },
        quiet(),
        &vec![],
    );
    runner.dispatch_wayland_event(Event::Enter { surface: bar, serial: 1 }, quiet(), &vec![]);
    let moved = Event::Mouse(MouseEvent::Moved { x: Fixed(100 * 256), y: Fixed(10 * 256) });
    runner.dispatch_wayland_event(moved, quiet(), &vec![]);
    (runner, bar, layer)
}

fn buffer_len(runner: &Runner, i: usize) -> usize {
    match &runner.window_manager.windows[i].state.config_state {
        ConfigState::Configured { buffer, .. } => buffer.byte_len(),
        ConfigState::Unconfigured { .. } => panic!("not configured"),
    }
}

fn damage_of(reqs: &[Request]) -> Vec<Rect> {
    reqs.iter()
        .filter_map(|r| match r {
            Request::Damage { rect, .. } => Some(*rect),
            _ => None,
        })
        .collect()
}

fn fire_frame(runner: &mut Runner, surface: Object, cb: u64, changed: &Vec<FixedRect>) -> Vec<Request> {
    runner.window_manager.name_frame(surface, obj(cb)).unwrap();
    runner.dispatch_wayland_event(Event::CallbackDone(obj(cb)), quiet(), changed)
}

#[test]
fn panel_end_to_end() {
    let (mut runner, surface, layer) = bar_runner();
    assert!(matches!(
        runner.window_manager.windows[0].state.config_state,
        ConfigState::Unconfigured { scale_factor: 1 }
    ));
    let reqs = runner.dispatch_wayland_event(
        Event::Resize { object: layer, size: SurfaceSize { width: 800, height: 35 } },
        quiet(),
        &vec![],
    );
    assert_eq!(buffer_len(&runner, 0), 112000);
    assert_eq!(
        reqs[0],
        Request::CreateBuffer { buffer: 1, width: 800, height: 35, stride: 3200, size: 112000 }
    );
    assert_eq!(reqs[1], Request::Attach { surface, buffer: 1 });
    assert_eq!(reqs[2], Request::Frame { surface });
    assert_eq!(reqs[3], Request::Commit { surface });
    assert_eq!(reqs[4], Request::Flush);

    let drawn = fire_frame(&mut runner, surface, 20, &vec![]);
    assert_eq!(drawn[0], Request::Destroy { object: obj(20), interface: Interface::Callback });
    assert_eq!(damage_of(&drawn), vec![Rect { x: 0, y: 0, width: 800, height: 35 }]);
    assert!(drawn.contains(&Request::Commit { surface }));

    let reqs = runner.dispatch_wayland_event(Event::Rescale { surface, factor: 2 }, quiet(), &vec![]);
    assert_eq!(buffer_len(&runner, 0), 1600 * 70 * 4);
    assert_eq!(
        reqs[0],
        Request::CreateBuffer { buffer: 2, width: 1600, height: 70, stride: 6400, size: 448000 }
    );
    assert_eq!(reqs[1], Request::Attach { surface, buffer: 2 });
    assert_eq!(reqs[2], Request::DestroyBuffer { buffer: 1 });
    assert_eq!(reqs[3], Request::SetBufferScale { surface, scale: 2 });
    let drawn = fire_frame(&mut runner, surface, 21, &vec![]);
    assert_eq!(damage_of(&drawn), vec![Rect { x: 0, y: 0, width: 800, height: 35 }]);

    runner.dispatch_wayland_event(Event::Enter { surface, serial: 7 }, quiet(), &vec![]);
    assert_eq!(runner.window_manager.focused, Some(surface));
    assert_eq!(runner.window_manager.windows[0].state.serial, Some(7));
    runner.dispatch_wayland_event(Event::Mouse(MouseEvent::Left), quiet(), &vec![]);
    assert_eq!(runner.window_manager.focused, None);
    assert!(runner.window_manager.focused().is_none());
    assert_eq!(runner.window_manager.windows[0].state.serial, None);
    assert_eq!(runner.window_manager.windows[0].state.shape, None);
}

#[test]
fn resize_sequence_buffer_len() {
    let (mut runner, _surface, layer) = bar_runner();
    for (w, h) in [(100u32, 20u32), (640, 48), (1920, 35)] {
        runner.dispatch_wayland_event(
            Event::Resize { object: layer, size: SurfaceSize { width: w, height: h } },
            quiet(),
            &vec![],
        );
    }
    assert_eq!(buffer_len(&runner, 0), 1920 * 35 * 4);
}

#[test]
fn rescale_twice_allocates_once() {
    let (mut runner, surface, layer) = bar_runner();
    runner.dispatch_wayland_event(
        Event::Resize { object: layer, size: SurfaceSize { width: 800, height: 35 } },
        quiet(),
        &vec![],
    );
    let first = runner.dispatch_wayland_event(Event::Rescale { surface, factor: 2 }, quiet(), &vec![]);
    assert!(first.iter().any(|r| matches!(r, Request::CreateBuffer { .. })));
    let second = runner.dispatch_wayland_event(Event::Rescale { surface, factor: 2 }, quiet(), &vec![]);
    assert!(second.is_empty());
    assert_eq!(buffer_len(&runner, 0), 1600 * 70 * 4);
}

#[test]
fn rescale_before_configuration_sets_first_scale() {
    let (mut runner, surface, layer) = bar_runner();
    let reqs = runner.dispatch_wayland_event(Event::Rescale { surface, factor: 3 }, quiet(), &vec![]);
    assert_eq!(reqs, vec![Request::SetBufferScale { surface, scale: 3 }, Request::Flush]);
    runner.dispatch_wayland_event(
        Event::Resize { object: layer, size: SurfaceSize { width: 10, height: 10 } },
        quiet(),
        &vec![],
    );
    assert_eq!(buffer_len(&runner, 0), 30 * 30 * 4);
}

#[test]
fn unfit_sizes_are_refused() {
    let (mut runner, _surface, _layer) = bar_runner();
    let w = &mut runner.window_manager.windows[0];
    assert_eq!(w.resize(SurfaceSize { width: 0, height: 35 }, 1).unwrap_err(), BufferError::Empty);
    assert_eq!(
        w.resize(SurfaceSize { width: 40000, height: 40000 }, 1).unwrap_err(),
        BufferError::TooLarge
    );
    assert_eq!(w.rescale(0, 1).unwrap_err(), BufferError::ZeroScale);
    assert!(matches!(w.state.config_state, ConfigState::Unconfigured { scale_factor: 1 }));
    assert!(Viewport::new(SurfaceSize { width: 23170, height: 23170 }, 1).is_some());
    assert!(Viewport::new(SurfaceSize { width: 23171, height: 23171 }, 1).is_none());
}

#[test]
fn close_window_forgets_identities() {
    let (mut runner, bar, layer) = pointed_bar();
    let (s, x, p, pos) = (obj(30), obj(31), obj(32), obj(33));
    let role = Role::Popup { xdg_surface: x, popup: p, positioner: pos, size: SurfaceSize { width: 50, height: 20 } };
    let reqs = runner.open_tooltip(b"hi".to_vec(), s, role);
    assert_eq!(
        reqs,
        vec![
            Request::PositionerSize { positioner: pos, width: 50, height: 20 },
            Request::PositionerAnchorRect { positioner: pos, x: 100, y: 36, width: 1, height: 1 },
            Request::PositionerAnchor { positioner: pos, anchor: 2 },
            Request::PositionerGravity { positioner: pos, gravity: 2 },
            Request::PositionerConstraint { positioner: pos, adjustment: 3 },
            Request::GetPopup { xdg_surface: x, popup: p, positioner: pos, parent: None },
            Request::LayerGetPopup { layer_surface: layer, popup: p },
            Request::Commit { surface: s },
            Request::Flush,
        ]
    );
    assert_eq!(runner.tooltip, Some(s));
    runner.dispatch_wayland_event(Event::Enter { surface: s, serial: 3 }, quiet(), &vec![]);
    assert!(runner.window_manager.find_by_object(p).is_some());
    let reqs = runner.close_tooltip();
    assert_eq!(
        reqs,
        vec![
            Request::Destroy { object: p, interface: Interface::XdgPopup },
            Request::Destroy { object: x, interface: Interface::XdgSurface },
            Request::Destroy { object: pos, interface: Interface::XdgPositioner },
            Request::Destroy { object: s, interface: Interface::Surface },
        ]
    );
    assert!(runner.window_manager.find_by_object(s).is_none());
    assert!(runner.window_manager.find_by_object(p).is_none());
    assert!(runner.window_manager.focused().is_none());
    assert_eq!(runner.window_manager.focused, None);
    assert!(runner.window_manager.find_by_object(bar).is_some());
}

#[test]
fn tooltip_needs_content_and_pointer() {
    let (mut runner, _bar, _layer) = bar_runner();
    let (s, x, p, pos) = (obj(30), obj(31), obj(32), obj(33));
    let role = Role::Popup { xdg_surface: x, popup: p, positioner: pos, size: SurfaceSize { width: 50, height: 20 } };
    let discard = vec![
        Request::Destroy { object: pos, interface: Interface::XdgPositioner },
        Request::Destroy { object: x, interface: Interface::XdgSurface },
        Request::Destroy { object: s, interface: Interface::Surface },
    ];
    assert_eq!(runner.open_tooltip(b"t".to_vec(), s, role), discard);
    assert_eq!(runner.tooltip, None);
    let (mut runner, _bar, _layer) = pointed_bar();
    let empty = Role::Popup { xdg_surface: x, popup: p, positioner: pos, size: SurfaceSize { width: 0, height: 20 } };
    assert_eq!(runner.open_tooltip(b"".to_vec(), s, empty), discard);
    assert_eq!(runner.window_manager.windows.len(), 1);
}

#[test]
fn pointer_leave_closes_the_tooltip() {
    let (mut runner, bar, _layer) = pointed_bar();
    let (s, x, p, pos) = (obj(30), obj(31), obj(32), obj(33));
    let role = Role::Popup { xdg_surface: x, popup: p, positioner: pos, size: SurfaceSize { width: 50, height: 20 } };
    runner.open_tooltip(b"hi".to_vec(), s, role);
    assert_eq!(runner.window_manager.windows.len(), 2);
    let reqs = runner.dispatch_wayland_event(Event::Mouse(MouseEvent::Left), quiet(), &vec![]);
    assert_eq!(runner.tooltip, None);
    assert_eq!(runner.window_manager.windows.len(), 1);
    assert!(runner.window_manager.find_by_object(bar).is_some());
    assert!(reqs.contains(&Request::Destroy { object: p, interface: Interface::XdgPopup }));
    assert_eq!(reqs.last(), Some(&Request::Flush));
}

#[test]
fn duplicate_identities_are_refused() {
    let (mut runner, bar, layer) = bar_runner();
    assert_eq!(runner.open_bar(bar, obj(99)).unwrap_err(), RegistryError::DuplicateKey);
    assert_eq!(runner.open_bar(obj(98), layer).unwrap_err(), RegistryError::DuplicateKey);
    assert_eq!(runner.open_bar(obj(97), obj(97)).unwrap_err(), RegistryError::DuplicateKey);
    assert_eq!(runner.window_manager.windows.len(), 1);
}

#[test]
fn frame_callbacks_are_not_subscribed_twice() {
    let (mut runner, surface, layer) = bar_runner();
    assert_eq!(runner.window_manager.name_frame(surface, obj(5)).unwrap_err(), RegistryError::NotFound);
    runner.dispatch_wayland_event(
        Event::Resize { object: layer, size: SurfaceSize { width: 8, height: 8 } },
        quiet(),
        &vec![],
    );
    let again = runner.window_manager.windows[0].request_redraw();
    assert!(again.is_empty());
    runner.window_manager.name_frame(surface, obj(5)).unwrap();
    assert_eq!(runner.window_manager.name_frame(surface, obj(6)).unwrap_err(), RegistryError::DuplicateKey);
    assert!(runner.dispatch_wayland_event(Event::CallbackDone(obj(6)), quiet(), &vec![]).is_empty());
}

#[test]
fn unchanged_frame_has_no_damage() {
    let (mut runner, surface, layer) = bar_runner();
    runner.dispatch_wayland_event(
        Event::Resize { object: layer, size: SurfaceSize { width: 100, height: 30 } },
        quiet(),
        &vec![],
    );
    let first = fire_frame(&mut runner, surface, 40, &vec![]);
    assert_eq!(damage_of(&first), vec![Rect { x: 0, y: 0, width: 100, height: 30 }]);
    runner.window_manager.windows[0].request_redraw();
    let second = fire_frame(&mut runner, surface, 41, &vec![]);
    assert!(damage_of(&second).is_empty());
    assert!(second.contains(&Request::Commit { surface }));
    runner.window_manager.windows[0].request_redraw();
    let changed = vec![FixedRect { x: Fixed(10 * 256 + 128), y: Fixed(-64), width: Fixed(256), height: Fixed(300) }];
    let third = fire_frame(&mut runner, surface, 42, &changed);
    assert_eq!(damage_of(&third), vec![Rect { x: 10, y: -1, width: 2, height: 2 }]);
}

#[test]
fn round_out_covers_fractional_rectangles() {
    let r = Rect::round_out(FixedRect { x: Fixed(0), y: Fixed(0), width: Fixed(800 * 256), height: Fixed(35 * 256) });
    assert_eq!(r, Rect { x: 0, y: 0, width: 800, height: 35 });
    let r = Rect::round_out(FixedRect { x: Fixed(-1), y: Fixed(257), width: Fixed(1), height: Fixed(0) });
    assert_eq!(r, Rect { x: -1, y: 1, width: 1, height: 1 });
    assert_eq!(Fixed(-300).as_i32(), -1);
    assert_eq!(Fixed(300).as_i32(), 1);
    assert_eq!(Fixed(-255).as_i32(), 0);
}

#[test]
fn motion_goes_to_focused_window_only() {
    let (mut runner, bar, layer) = bar_runner();
    runner.dispatch_wayland_event(
        Event::Resize { object: layer, size: SurfaceSize { width: 50, height: 20 } },
        quiet(),
        &vec![],
    );
    let moved = Event::Mouse(MouseEvent::Moved { x: Fixed(512), y: Fixed(256) });
    assert!(runner.dispatch_wayland_event(moved, quiet(), &vec![]).is_empty());
    assert_eq!(runner.window_manager.windows[0].state.cursor, None);
    runner.dispatch_wayland_event(Event::Enter { surface: bar, serial: 2 }, quiet(), &vec![]);
    runner.dispatch_wayland_event(moved, quiet(), &vec![]);
    let (s, p) = (obj(30), obj(32));
    let role = Role::Popup { xdg_surface: obj(31), popup: p, positioner: obj(33), size: SurfaceSize { width: 50, height: 20 } };
    runner.open_tooltip(b"tip".to_vec(), s, role);
    runner.dispatch_wayland_event(
        Event::Resize { object: p, size: SurfaceSize { width: 50, height: 20 } },
        quiet(),
        &vec![],
    );
    assert_eq!(runner.window_manager.windows[1].state.cursor, None);

    let pointer = UiOutcome { interaction: Some(Interaction::Pointer), redraw: false };
    runner.dispatch_wayland_event(Event::Enter { surface: bar, serial: 9 }, quiet(), &vec![]);
    let reqs = runner.dispatch_wayland_event(moved, pointer, &vec![]);
    assert_eq!(reqs, vec![Request::SetCursorShape { serial: 9, shape: 4 }, Request::Flush]);
    assert_eq!(runner.window_manager.windows[0].state.cursor, Some((Fixed(512), Fixed(256))));
    assert_eq!(runner.window_manager.windows[1].state.cursor, None);
    let again = runner.dispatch_wayland_event(moved, pointer, &vec![]);
    assert_eq!(again, vec![Request::Flush]);
    assert_eq!(runner.tooltip_anchor(), Some((2, 36)));

    let pressed = Event::Mouse(MouseEvent::Pressed { button: 0x110 });
    let hidden = UiOutcome { interaction: Some(Interaction::Hidden), redraw: true };
    let reqs = runner.dispatch_wayland_event(pressed, hidden, &vec![]);
    assert!(reqs.contains(&Request::HideCursor { serial: 9 }));
    assert!(runner.window_manager.windows[0].state.frame_requested);

    runner.dispatch_wayland_event(Event::Mouse(MouseEvent::Left), pointer, &vec![]);
    let w = &runner.window_manager.windows[0];
    assert_eq!((w.state.cursor, w.state.serial, w.state.shape), (None, None, None));
    assert_eq!(runner.window_manager.focused, None);
}

#[test]
fn events_for_stale_objects_are_dropped() {
    let (mut runner, _bar, _layer) = bar_runner();
    let gone = obj(1234);
    for e in [
        Event::Resize { object: gone, size: SurfaceSize { width: 1, height: 1 } },
        Event::Rescale { surface: gone, factor: 2 },
        Event::Enter { surface: gone, serial: 1 },
        Event::CallbackDone(gone),
    ] {
        assert!(runner.dispatch_wayland_event(e, quiet(), &vec![]).is_empty());
    }
    assert_eq!(runner.window_manager.focused, None);
}

#[test]
fn tooltip_placement_needs_content_and_pointer() {
    let (mut runner, bar, layer) = bar_runner();
    let size = SurfaceSize { width: 120, height: 40 };
    assert!(runner.tooltip_placement(size).is_none());
    runner.dispatch_wayland_event(
        Event::Resize { object: layer, size: SurfaceSize { width: 800, height: 35 } },
        quiet(),
        &vec![],
    );
    runner.dispatch_wayland_event(Event::Enter { surface: bar, serial: 1 }, quiet(), &vec![]);
    let moved = Event::Mouse(MouseEvent::Moved { x: Fixed(-20), y: Fixed(0) });
    runner.dispatch_wayland_event(moved, quiet(), &vec![]);
    assert_eq!(runner.tooltip_placement(size), Some((size, (0, 36))));
    assert!(runner.tooltip_placement(SurfaceSize { width: 0, height: 40 }).is_none());
    let moved = Event::Mouse(MouseEvent::Moved { x: Fixed(300 * 256 + 200), y: Fixed(0) });
    runner.dispatch_wayland_event(moved, quiet(), &vec![]);
    assert_eq!(runner.tooltip_placement(size), Some((size, (300, 36))));
}
