use now_playing::webserver::{bind_error_message, next_bind_step, widget_page, BindStep};
use now_playing::WebServer;

#[test]
fn urls() {
    let s = WebServer { host: "0.0.0.0".to_string(), port: 8765 };
    assert_eq!(s.get_url(), "http://127.0.0.1:8765/");
    let s = WebServer { host: "::".to_string(), port: 80 };
    assert_eq!(s.get_url(), "http://127.0.0.1:80/");
    let s = WebServer { host: "192.168.1.2".to_string(), port: 9000 };
    assert_eq!(s.get_url(), "http://192.168.1.2:9000/");
}

fn scan(preferred: u16, binds: impl Fn(u16) -> bool) -> Option<u16> {
    let mut k = 0u16;
    loop {
        match next_bind_step(preferred, k, binds(preferred + k)) {
            BindStep::Use(p) => return Some(p),
            BindStep::Try(next) => k = next,
            BindStep::GiveUp => return None,
        }
    }
}

#[test]
fn bind_steps() {
    assert_eq!(next_bind_step(8765, 0, true), BindStep::Use(8765));
    assert_eq!(next_bind_step(8765, 0, false), BindStep::Try(1));
    assert_eq!(next_bind_step(8765, 98, false), BindStep::Try(99));
    assert_eq!(next_bind_step(8765, 99, false), BindStep::GiveUp);
    assert_eq!(next_bind_step(8765, 99, true), BindStep::Use(8864));
    assert_eq!(next_bind_step(65534, 1, false), BindStep::GiveUp);
}

#[test]
fn scan_uses_least_port_that_binds() {
    assert_eq!(scan(8765, |p| p >= 8770), Some(8770));
    assert_eq!(scan(8765, |_| true), Some(8765));
    assert_eq!(scan(8765, |p| p == 8865), None);
    assert_eq!(scan(8765, |_| false), None);
    assert_eq!(scan(65530, |p| p == 65535), Some(65535));
    assert_eq!(scan(65530, |_| false), None);
}

#[test]
fn bind_error() {
    assert_eq!(bind_error_message("127.0.0.1", 8765), "Unable to bind to 127.0.0.1:8765-8864");
}

#[test]
fn widget_pages() {
    assert_eq!(widget_page(Ok("<p>".to_string())), "<p>");
    assert_eq!(
        widget_page(Err("oops".to_string())),
        "<div style='color:red;background:#222;padding:1em;'>Warning: oops</div>"
    );
}
