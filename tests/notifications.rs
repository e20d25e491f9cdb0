use hyoka::battery::{BatteryStatus, Info, Status};
use hyoka::clock::Clock;
use hyoka::hyprland::{
    batch_request, parse_batch, parse_events, parse_line, parse_workspace_id, xdg_runtime_dir, Command, Context, Event,
    Request,
};
use hyoka::uevent::{parse_lines, parse_listen, parse_uevent};
use hyoka::{Page, Size};
use hyoka::{
    cursor_shape, parse_decimal, position, truncate, window_info_text, Action, AppEvent, BatteryEvent, BitSet,
    CursorShape, Fixed, Interaction, Message, MouseEvent, Object, Panel, Request as WlRequest, Role, Runner,
    SurfaceSize, Tray, TrayEvent, UiOutcome,
};

#[test]
fn workspace_ids_from_listing() {
    assert_eq!(parse_workspace_id(b"workspace ID 3 (3) on monitor eDP-1:"), Some(3));
    assert_eq!(parse_workspace_id(b"workspace ID 12 (web) on monitor DP-2:"), Some(12));
    assert_eq!(parse_workspace_id(b"workspace ID"), None);
    assert_eq!(parse_workspace_id(b"workspace ID 3"), None);
    assert_eq!(parse_workspace_id(b"workspace ID x (x) on"), None);
}

#[test]
fn event_lines() {
    assert_eq!(parse_line(b"workspacev2>>4,4"), Some(Event::Workspace { id: 4 }));
    assert_eq!(parse_line(b"createworkspacev2>>7,seven"), Some(Event::CreateWorkspace { id: 7 }));
    assert_eq!(parse_line(b"destroyworkspacev2>>+2,two"), Some(Event::DestroyWorkspace { id: 2 }));
    assert_eq!(
        parse_line(b"activewindow>>kitty,~/src, ok"),
        Some(Event::ActiveWindow { class: b"kitty".to_vec(), title: b"~/src, ok".to_vec() })
    );
    assert_eq!(parse_line(b"workspacev2>>4"), None);
    assert_eq!(parse_line(b"openwindow>>1,2,3"), None);
    assert_eq!(parse_line(b"workspacev2>"), None);
    assert_eq!(parse_line(b""), None);
}

#[test]
fn decimal_parsing_follows_from_ascii() {
    assert_eq!(parse_decimal(b"0", 255), Some(0));
    assert_eq!(parse_decimal(b"+255", 255), Some(255));
    assert_eq!(parse_decimal(b"256", 255), None);
    assert_eq!(parse_decimal(b"", 255), None);
    assert_eq!(parse_decimal(b"+", 255), None);
    assert_eq!(parse_decimal(b"-1", 255), None);
    assert_eq!(parse_decimal(b"18446744073709551615", u64::MAX), Some(u64::MAX));
    assert_eq!(parse_decimal(b"18446744073709551616", u64::MAX), None);
    assert_eq!(position(b"a,b,c", b','), Some(1));
    assert_eq!(position(b"abc", b','), None);
}

#[test]
fn requests_to_the_window_manager() {
    assert_eq!(Command::Workspace(7).to_bytes(), b"q/dispatch workspace 7".to_vec());
    assert_eq!(Command::Workspace(10).to_bytes(), b"q/dispatch workspace 10".to_vec());
    assert_eq!(Request::ActiveWindow.to_bytes(), b"activewindow".to_vec());
    assert_eq!(window_info_text(b"class:\tkitty\n"), b"class:        kitty\n".to_vec());
}

#[test]
fn battery_status_and_icons() {
    assert_eq!(Status::from_bytes(b"Charging"), Status::Charging);
    assert_eq!(Status::from_bytes(b"Full"), Status::Full);
    assert_eq!(Status::from_bytes(b"Discharging"), Status::Other);
    assert_eq!(Status::Full.poll_seconds(), 3);
    assert_eq!(Status::Charging.poll_seconds(), 3);
    assert_eq!(Status::Other.poll_seconds(), 6);
    let mut b = BatteryStatus::new(Status::Other, 57);
    assert_eq!(b.icon(), b"battery-level-50-symbolic".to_vec());
    b.charging = Some(true);
    assert_eq!(b.icon(), b"battery-level-50-charging-symbolic".to_vec());
    b.capacity = 99;
    assert_eq!(b.icon(), b"battery-level-100-charged-symbolic".to_vec());
}

#[test]
fn battery_snapshot_tooltip() {
    let info = Info { status: Status::Other, power_now: 7_250_000, energy_now: 30_000_000, energy_full: 50_000_000 };
    assert_eq!(info.percentage(), 6000);
    assert_eq!(info.minutes_remaining(), 248);
    assert_eq!(info.tooltip(), b"60% 7.25W 4h8".to_vec());
    assert_eq!(info.icon(), b"battery-level-60-symbolic".to_vec());
    let charging = Info { status: Status::Charging, power_now: 10_050_000, energy_now: 49_600_000, energy_full: 50_000_000 };
    assert_eq!(charging.energy_remaining(), 400_000);
    assert_eq!(charging.tooltip(), b"99% 10.05W 0h2".to_vec());
    assert!(charging.charged());
    let idle = Info { status: Status::Full, power_now: 0, energy_now: 50_000_000, energy_full: 50_000_000 };
    assert_eq!(idle.minutes_remaining(), 0);
}

#[test]
fn clock_text() {
    let c = Clock { year: 2025, month0: 1, day: 7, hour: 9, minute: 5, second: 30, weekday: 7 };
    assert_eq!(c.year(), *b"2025");
    assert_eq!(c.date(), "2025 FÉV 07".as_bytes().to_vec());
    assert_eq!(c.time(), *b"09:05:30");
    assert_eq!(c.weekday(), "日".as_bytes().to_vec());
    assert_eq!(Clock { year: 12345, ..c }.year(), *b"<345");
    assert_eq!(Clock { year: -5, ..c }.year(), *b"000+");
    assert_eq!(Clock { year: 7, ..c }.date(), "0007 FÉV 07".as_bytes().to_vec());
    let now = Clock::now();
    assert!(now.month0 < 12 && now.hour < 24);
}

#[test]
fn tray_services_split_at_path() {
    let t = Tray::try_from_string(b":1.42/org/ayatana/NotificationItem/x").unwrap();
    assert_eq!(t.name(), b":1.42");
    assert_eq!(t.path(), b"/org/ayatana/NotificationItem/x");
    assert!(Tray::try_from_string(b"org.kde.StatusNotifierItem-1").is_none());
    let u = Tray::new(b":1.42", b"/org/ayatana/NotificationItem/x");
    assert!(t.same(&u));
}

#[test]
fn labels_are_truncated_at_character_boundaries() {
    let dots = "…".as_bytes();
    assert_eq!(truncate(b"short", 15, dots), b"short".to_vec());
    assert_eq!(truncate(b"exactly fifteen", 15, dots), [b"exactly fift".as_slice(), dots].concat());
    let s = "ééééééééé".as_bytes();
    assert_eq!(truncate(s, 15, dots), [&s[..12], dots].concat());
    assert_eq!(truncate(s, 8, dots), [&s[..4], dots].concat());
}

#[test]
fn workspace_flags() {
    let mut b = BitSet::new();
    b.set(3);
    b.set(0);
    assert!(b.get(3) && b.get(0) && !b.get(1));
    b.unset(3);
    assert!(!b.get(3) && b.get(0));
}

#[test]
fn cursor_shapes() {
    assert_eq!(cursor_shape(Interaction::Normal), CursorShape::Shape(1));
    assert_eq!(cursor_shape(Interaction::Pointer), CursorShape::Shape(4));
    assert_eq!(cursor_shape(Interaction::Text), CursorShape::Shape(9));
    assert_eq!(cursor_shape(Interaction::Hidden), CursorShape::Hide);
    assert_eq!(cursor_shape(Interaction::ZoomOut), CursorShape::Shape(34));
}

#[test]
fn app_events_update_the_bar_and_redraw_every_window() {
    let mut runner = Runner::new(Panel::new(Some(BatteryStatus::new(Status::Other, 40))));
    assert_eq!(runner.panel.battery_icon, b"battery-level-40-symbolic".to_vec());
    let (bar, layer) = (Object::from_raw(1), Object::from_raw(2));
    runner.open_bar(bar, layer).unwrap();
    let reqs = runner.dispatch_app_event(AppEvent::Hyprland(Event::CreateWorkspace { id: 2 }));
    assert_eq!(reqs, vec![WlRequest::Frame { surface: bar }, WlRequest::Commit { surface: bar }, WlRequest::Flush]);
    assert!(runner.panel.workspaces.get(1));
    let reqs = runner.dispatch_app_event(AppEvent::Hyprland(Event::Workspace { id: 2 }));
    assert_eq!(reqs, vec![WlRequest::Flush]);
    assert_eq!(runner.panel.workspace_focused, 1);
    runner.dispatch_app_event(AppEvent::Hyprland(Event::ActiveWindow {
        class: b"org.mozilla.firefox".to_vec(),
        title: b"t".to_vec(),
    }));
    assert_eq!(runner.panel.window_class, "org.mozilla.…".as_bytes().to_vec());
    assert_eq!(runner.panel.window_title, b"t".to_vec());
    runner.dispatch_app_event(AppEvent::Battery(BatteryEvent::PowerOnline));
    assert_eq!(runner.panel.battery_icon, b"battery-level-40-charging-symbolic".to_vec());
    let t = Tray::try_from_string(b":1.5/item").unwrap();
    runner.dispatch_app_event(AppEvent::Tray(TrayEvent::Registered { service: t.clone(), icon_name: b"a".to_vec() }));
    runner.dispatch_app_event(AppEvent::Tray(TrayEvent::Registered { service: t.clone(), icon_name: b"b".to_vec() }));
    assert_eq!(runner.panel.tray_items.len(), 1);
    assert_eq!(runner.panel.tray_items[0].icon_name, b"b".to_vec());
    runner.dispatch_app_event(AppEvent::Tray(TrayEvent::Unregistered(t)));
    assert!(runner.panel.tray_items.is_empty());
}

/// A configured bar with the pointer on it.
fn pointed_bar() -> Runner {
    let mut runner = Runner::new(Panel::new(None));
    let (bar, layer) = (Object::from_raw(1), Object::from_raw(2));
    runner.open_bar(bar, layer).unwrap();
    runner.dispatch_wayland_event(
        hyoka::Event::Resize { object: layer, size: SurfaceSize { width: 800, height: 35 } },
        UiOutcome { interaction: None, redraw: false },
        &vec![],
    );
    runner.dispatch_wayland_event(
        hyoka::Event::Enter { surface: bar, serial: 1 },
        UiOutcome { interaction: None, redraw: false },
        &vec![],
    );
    runner.dispatch_wayland_event(
        hyoka::Event::Mouse(MouseEvent::Moved { x: Fixed(2560), y: Fixed(0) }),
        UiOutcome { interaction: None, redraw: false },
        &vec![],
    );
    runner
}

#[test]
fn messages_ask_for_outside_work() {
    let mut runner = pointed_bar();
    let (reqs, action) = runner.update(Message::Workspace { id: 3 });
    assert!(reqs.is_empty());
    assert!(matches!(action, Some(Action::Command(Command::Workspace(3)))));
    let role = Role::Popup {
        xdg_surface: Object::from_raw(6),
        popup: Object::from_raw(7),
        positioner: Object::from_raw(8),
        size: SurfaceSize { width: 10, height: 10 },
    };
    runner.open_tooltip(b"x".to_vec(), Object::from_raw(5), role);
    assert_eq!(runner.tooltip, Some(Object::from_raw(5)));
    let info = Info { status: Status::Other, power_now: 1_000_000, energy_now: 10_000_000, energy_full: 20_000_000 };
    runner.dispatch_app_event(AppEvent::BatteryInfo(info));
    assert_eq!(runner.panel.tooltip_text, Some(b"50% 1.00W 10h0".to_vec()));
    let (reqs, action) = runner.update(Message::BatteryStop);
    assert_eq!(reqs.len(), 4);
    assert!(matches!(action, Some(Action::BatteryStop)));
    assert!(runner.tooltip.is_none());
}

#[test]
fn kernel_power_supply_notifications() {
    let battery = b"change@/devices/BAT0\0ACTION=change\0SUBSYSTEM=power_supply\0POWER_SUPPLY_TYPE=Battery\0POWER_SUPPLY_STATUS=Charging\0POWER_SUPPLY_CAPACITY=81\0";
    assert_eq!(parse_uevent(battery), vec![BatteryEvent::Capacity(81), BatteryEvent::Status(Status::Charging)]);
    let ac = b"change@/devices/AC\0SUBSYSTEM=power_supply\0POWER_SUPPLY_TYPE=Mains\0POWER_SUPPLY_ONLINE=0";
    assert_eq!(parse_uevent(ac), vec![BatteryEvent::PowerOffline]);
    let ac_on = b"change@/devices/AC\0SUBSYSTEM=power_supply\0POWER_SUPPLY_ONLINE=1\0";
    assert_eq!(parse_uevent(ac_on), vec![BatteryEvent::PowerOnline]);
    let backlight = b"change@/devices/bl\0SUBSYSTEM=backlight\0POWER_SUPPLY_ONLINE=1\0";
    assert!(parse_uevent(backlight).is_empty());
    let stopped = b"change@/x\0SUBSYSTEM=power_supply\0garbage\0POWER_SUPPLY_ONLINE=1\0";
    assert!(parse_uevent(stopped).is_empty());
    assert!(parse_uevent(b"no separator").is_empty());
}

#[test]
fn debug_listing_of_bytes() {
    assert_eq!(hyoka::show_bytes(b"a b\x01~"), b"a\\32b\\1~".to_vec());
}

#[test]
fn tooltip_grows_with_its_content() {
    let mut runner = pointed_bar();
    let (s, p) = (Object::from_raw(5), Object::from_raw(7));
    let role = Role::Popup {
        xdg_surface: Object::from_raw(6),
        popup: p,
        positioner: Object::from_raw(8),
        size: SurfaceSize { width: 10, height: 10 },
    };
    runner.open_tooltip(b"x".to_vec(), s, role);
    let smaller = runner.relayout_tooltip(SurfaceSize { width: 8, height: 10 });
    assert!(smaller.is_empty());
    let grown = runner.relayout_tooltip(SurfaceSize { width: 12, height: 10 });
    assert_eq!(grown[0], WlRequest::CreateBuffer { buffer: 2, width: 12, height: 10, stride: 48, size: 480 });
    match runner.window_manager.windows[1].surface.role {
        Role::Popup { size, .. } => assert_eq!(size, SurfaceSize { width: 12, height: 10 }),
        Role::Layer { .. } => panic!("popup expected"),
    }
}

#[test]
fn page_sized_mappings() {
    assert_eq!(Page {}.size(), 4096);
    assert_eq!(123usize.size(), 123);
}

#[test]
fn event_socket_reads() {
    let buf = b"workspacev2>>2,2\nfocusedmon>>eDP-1,2\ncreateworkspacev2>>5,5\nactivewindow>>kitty,zsh";
    assert_eq!(
        parse_events(buf),
        vec![
            Event::Workspace { id: 2 },
            Event::CreateWorkspace { id: 5 },
            Event::ActiveWindow { class: b"kitty".to_vec(), title: b"zsh".to_vec() },
        ]
    );
    assert!(parse_events(b"").is_empty());
    assert_eq!(parse_events(b"workspacev2>>3,3\n"), vec![Event::Workspace { id: 3 }]);
}

#[test]
fn initial_batch_reply() {
    assert_eq!(batch_request(), b"[[BATCH]]workspaces;activeworkspace;activewindow".to_vec());
    let reply = b"workspace ID 1 (1) on monitor eDP-1:\n\tmonitorID: 0\n\nworkspace ID 3 (3) on monitor eDP-1:\n\tmonitorID: 0\n\n\n\n\nworkspace ID 3 (3) on monitor eDP-1:\n\tmonitorID: 0\n\n\n\n\nWindow 55d1 -> zsh:\n\tmapped: 1\n\tclass: kitty\n\ttitle: ~ zsh\n\tpid: 12\n";
    assert_eq!(
        parse_batch(reply),
        vec![
            Event::CreateWorkspace { id: 1 },
            Event::CreateWorkspace { id: 3 },
            Event::Workspace { id: 3 },
            Event::ActiveWindow { class: b"kitty".to_vec(), title: b"~ zsh".to_vec() },
        ]
    );
    assert_eq!(parse_batch(b"workspace ID 2 (2) on x"), vec![Event::CreateWorkspace { id: 2 }]);
    assert_eq!(
        parse_batch(b"\n\n\n\n\n\n\n\n\n\nInvalid"),
        vec![Event::ActiveWindow { class: vec![], title: vec![] }]
    );
}

#[test]
fn battery_records() {
    let sysfs = b"DEVTYPE=power_supply\nPOWER_SUPPLY_NAME=BAT0\nPOWER_SUPPLY_TYPE=Battery\nPOWER_SUPPLY_STATUS=Discharging\nPOWER_SUPPLY_POWER_NOW=7250000\nPOWER_SUPPLY_ENERGY_FULL=50000000\nPOWER_SUPPLY_ENERGY_NOW=30000000\n";
    let info = Info { status: Status::Other, power_now: 7_250_000, energy_now: 30_000_000, energy_full: 50_000_000 };
    assert_eq!(parse_lines(sysfs, 0, b'\n', None), Some(info));
    assert_eq!(parse_lines(sysfs, 0, b'\n', Some(b"BAT0")), Some(info));
    assert_eq!(parse_lines(sysfs, 0, b'\n', Some(b"BAT1")), None);
    let mains = b"DEVTYPE=power_supply\nPOWER_SUPPLY_TYPE=Mains\nPOWER_SUPPLY_ONLINE=1\n";
    assert_eq!(parse_lines(mains, 0, b'\n', None), None);
    let bad = b"POWER_SUPPLY_STATUS=Full\nPOWER_SUPPLY_POWER_NOW=x\n";
    assert_eq!(parse_lines(bad, 0, b'\n', None), None);
    let netlink = b"change@/devices/BAT0\0POWER_SUPPLY_NAME=BAT0\0POWER_SUPPLY_STATUS=Full\0POWER_SUPPLY_POWER_NOW=0\0POWER_SUPPLY_ENERGY_FULL=50000000\0POWER_SUPPLY_ENERGY_NOW=50000000\0";
    let full = Info { status: Status::Full, power_now: 0, energy_now: 50_000_000, energy_full: 50_000_000 };
    assert_eq!(parse_listen(netlink, Some(b"BAT0")), Some(full));
    assert_eq!(parse_listen(b"add@/devices/BAT0\0POWER_SUPPLY_STATUS=Full", None), None);
}

#[test]
fn session_bus_addresses() {
    use_address(b"unix:path=/run/user/1000/bus", Some(b"/run/user/1000/bus".to_vec()));
    use_address(b"unix:guid=12,abstract=/tmp/dbus-x", Some([b"\0".as_slice(), b"/tmp/dbus-x"].concat()));
    use_address(b"unix:tmpdir=/tmp", None);
    use_address(b"unix", None);
    assert_eq!(hyoka::dbus::session_socket(None), Err(hyoka::dbus::Error::AddrNotFound));
    assert_eq!(hyoka::dbus::session_socket(Some(b"unix:x=y")), Err(hyoka::dbus::Error::FailedParseAddr));
}

fn use_address(addr: &[u8], expected: Option<Vec<u8>>) {
    assert_eq!(hyoka::dbus::address(addr), expected);
}

#[test]
fn owned_objects_are_destroyed_by_request() {
    let cb = hyoka::OwnedObject::from_raw(44, hyoka::Interface::Callback);
    assert_eq!(
        cb.destroy(),
        WlRequest::Destroy { object: Object::from_raw(44), interface: hyoka::Interface::Callback }
    );
}

#[test]
fn window_manager_socket_paths() {
    assert_eq!(xdg_runtime_dir(None, 1000), b"/run/user/1000".to_vec());
    assert_eq!(xdg_runtime_dir(Some(b"/tmp/rt"), 1000), b"/tmp/rt".to_vec());
    let ctx = Context::new(b"/run/user/1000", b"abc_123");
    assert_eq!(ctx.his, b"/run/user/1000/hypr/abc_123".to_vec());
    assert_eq!(ctx.request_socket(), b"/run/user/1000/hypr/abc_123/.socket.sock".to_vec());
    assert_eq!(ctx.event_socket(), b"/run/user/1000/hypr/abc_123/.socket2.sock".to_vec());
    assert_eq!(Context::new(b"/run/", b"x").his, b"/run/hypr/x".to_vec());
}
