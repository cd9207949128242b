use remote_mouse::{
    find_interface_host, ipv4_text, replace_all, rewrite_config, saturating_sum,
    select_bind_host, startup_config, str_eq, target_position, to_decimal, wait_message,
    InterfaceRecord, IpAddress, MouseDelta, PointerPosition, DEFAULT_PORT,
};

fn v4(name: &str, a: u8, b: u8, c: u8, d: u8) -> InterfaceRecord {
    InterfaceRecord { name: name.to_string(), address: IpAddress::V4([a, b, c, d]) }
}

fn v6(name: &str) -> InterfaceRecord {
    InterfaceRecord { name: name.to_string(), address: IpAddress::V6([0xfe80, 0, 0, 0, 0, 0, 0, 1]) }
}

fn clamp(v: i64, extent: i64) -> i64 {
    v.max(0).min(extent - 1)
}

#[test]
fn move_adds_delta_to_position() {
    let p = target_position(PointerPosition { x: 100, y: 200 }, MouseDelta { x: 10, y: -5 });
    assert_eq!(p, PointerPosition { x: 110, y: 195 });
}

#[test]
fn move_by_zero_keeps_position() {
    let p = target_position(PointerPosition { x: 7, y: 9 }, MouseDelta { x: 0, y: 0 });
    assert_eq!(p, PointerPosition { x: 7, y: 9 });
}

#[test]
fn move_saturates_at_integer_bounds() {
    let p = target_position(PointerPosition { x: i32::MAX - 1, y: i32::MIN + 1 }, MouseDelta {
        x: 5,
        y: -5,
    });
    assert_eq!(p, PointerPosition { x: i32::MAX, y: i32::MIN });
    assert_eq!(saturating_sum(i32::MIN, i32::MIN), i32::MIN);
    assert_eq!(saturating_sum(-3, 4), 1);
}

#[test]
fn clamped_target_matches_clamped_sum() {
    let (w, h) = (1920i64, 1080i64);
    let cases = [
        ((100, 200), (10, -5)),
        ((5, 5), (-50, -50)),
        ((1900, 1000), (100, 200)),
        ((0, 0), (i32::MAX, i32::MAX)),
        ((1919, 1079), (i32::MIN, i32::MIN)),
    ];
    for ((px, py), (dx, dy)) in cases {
        let p = target_position(PointerPosition { x: px, y: py }, MouseDelta { x: dx, y: dy });
        assert_eq!(clamp(p.x as i64, w), clamp(px as i64 + dx as i64, w));
        assert_eq!(clamp(p.y as i64, h), clamp(py as i64 + dy as i64, h));
    }
    let p = target_position(PointerPosition { x: 1900, y: 1000 }, MouseDelta { x: 100, y: 200 });
    assert_eq!((clamp(p.x as i64, w), clamp(p.y as i64, h)), (1919, 1079));
}

#[test]
fn wait_body_names_the_seconds() {
    assert_eq!(wait_message(2), "Waited for 2 seconds");
    assert_eq!(wait_message(0), "Waited for 0 seconds");
    assert_eq!(wait_message(u64::MAX), "Waited for 18446744073709551615 seconds");
}

#[test]
fn decimal_text() {
    assert_eq!(to_decimal(0), "0");
    assert_eq!(to_decimal(9), "9");
    assert_eq!(to_decimal(10), "10");
    assert_eq!(to_decimal(1234567890), "1234567890");
}

#[test]
fn dotted_quad_text() {
    assert_eq!(ipv4_text([192, 168, 1, 7]), "192.168.1.7");
    assert_eq!(ipv4_text([0, 0, 0, 0]), "0.0.0.0");
    assert_eq!(ipv4_text([255, 255, 255, 255]), "255.255.255.255");
    assert_eq!(ipv4_text([10, 0, 20, 100]), "10.0.20.100");
}

#[test]
fn ipv4_is_told_from_ipv6() {
    assert!(IpAddress::V4([127, 0, 0, 1]).is_ipv4());
    assert!(!v6("lo").address.is_ipv4());
}

#[test]
fn string_equality() {
    assert!(str_eq("Wi-Fi", "Wi-Fi"));
    assert!(str_eq("", ""));
    assert!(!str_eq("Wi-Fi", "wi-fi"));
    assert!(!str_eq("Wi-Fi", "Wi-Fi 2"));
}

#[test]
fn replace_every_occurrence() {
    assert_eq!(replace_all("a-b-c", "-", "+"), "a+b+c");
    assert_eq!(replace_all("", "x", "y"), "");
    assert_eq!(replace_all("no match here", "zz", "y"), "no match here");
    assert_eq!(replace_all("aaa", "aa", "X"), "Xa");
    assert_eq!(replace_all("localhost:localhost", "localhost", "1.2.3.4"), "1.2.3.4:1.2.3.4");
    assert_eq!(replace_all("héllo wörld", "ö", "oe"), "héllo woerld");
    assert_eq!(replace_all("8000", "8000", ""), "");
}

#[test]
fn rewrite_substitutes_host_and_port() {
    let t = "[default]\naddress = \"localhost\"\nport = 8000\n";
    assert_eq!(
        rewrite_config(t, "192.168.1.7", "9000"),
        "[default]\naddress = \"192.168.1.7\"\nport = 9000\n"
    );
    assert_eq!(rewrite_config(t, "localhost", "8000"), t);
}

#[test]
fn rewrite_replaces_host_before_port() {
    assert_eq!(rewrite_config("localhost", "8000", "1"), "1");
}

#[test]
fn startup_writes_wifi_address() {
    let t = "address = \"localhost\"\nport = 8000";
    let ifs = vec![v4("lo", 127, 0, 0, 1), v4("Wi-Fi", 192, 168, 1, 7)];
    assert_eq!(startup_config(t, &ifs), Some("address = \"192.168.1.7\"\nport = 8000".to_string()));
}

#[test]
fn startup_without_wifi_writes_nothing() {
    let t = "address = \"localhost\"\nport = 8000";
    assert_eq!(startup_config(t, &vec![]), None);
    assert_eq!(startup_config(t, &vec![v4("eth0", 10, 0, 0, 2), v6("Wi-Fi")]), None);
}

#[test]
fn first_wifi_ipv4_wins() {
    let ifs = vec![
        v6("Wi-Fi"),
        v4("Ethernet", 10, 0, 0, 2),
        v4("Wi-Fi", 192, 168, 1, 7),
        v4("Wi-Fi", 192, 168, 1, 8),
    ];
    assert_eq!(find_interface_host(&ifs, "Wi-Fi"), Some("192.168.1.7".to_string()));
    assert_eq!(find_interface_host(&ifs, "Ethernet"), Some("10.0.0.2".to_string()));
    assert_eq!(find_interface_host(&ifs, "wlan0"), None);
    let t = select_bind_host(&ifs).unwrap();
    assert_eq!(t.host, "192.168.1.7");
    assert_eq!(t.port, DEFAULT_PORT);
    assert_eq!(t.port, "8000");
}

#[test]
fn no_bind_target_without_wifi() {
    assert!(select_bind_host(&vec![v4("eth0", 10, 0, 0, 2)]).is_none());
}
