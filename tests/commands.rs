use causeway::commands::{
    enable_dom, enable_page, enable_runtime, evaluate, go_back, go_forward, key_event, navigate,
    press_key, screenshot, type_text,
};

#[test]
fn navigate_builds_url_params() {
    let (m, p) = navigate("https://example.com/?q=\"x\"");
    assert_eq!(m, "Page.navigate");
    assert_eq!(p, "{\"url\":\"https://example.com/?q=\\\"x\\\"\"}");
}

#[test]
fn screenshot_with_and_without_quality() {
    assert_eq!(screenshot(None, "png").1, "{\"format\":\"png\"}");
    let (m, p) = screenshot(Some(80), "jpeg");
    assert_eq!(m, "Page.captureScreenshot");
    assert_eq!(p, "{\"format\":\"jpeg\",\"quality\":80}");
}

#[test]
fn evaluate_returns_by_value_and_awaits() {
    let (m, p) = evaluate("document.title");
    assert_eq!(m, "Runtime.evaluate");
    assert_eq!(p, "{\"expression\":\"document.title\",\"returnByValue\":true,\"awaitPromise\":true}");
}

#[test]
fn history_navigation_uses_script() {
    assert_eq!(go_back().1, evaluate("window.history.back()").1);
    assert_eq!(go_forward().1, evaluate("window.history.forward()").1);
}

#[test]
fn key_event_builds_type_and_text() {
    let (m, p) = key_event("char", "a");
    assert_eq!(m, "Input.dispatchKeyEvent");
    assert_eq!(p, "{\"type\":\"char\",\"text\":\"a\"}");
}

#[test]
fn press_enter_gives_down_and_up_with_codes() {
    let seq = press_key("Enter");
    assert_eq!(seq.len(), 2);
    assert_eq!(seq[0].0, "Input.dispatchKeyEvent");
    assert_eq!(
        seq[0].1,
        "{\"type\":\"keyDown\",\"key\":\"Enter\",\"code\":\"Enter\",\"windowsVirtualKeyCode\":13,\"nativeVirtualKeyCode\":13}"
    );
    assert_eq!(
        seq[1].1,
        "{\"type\":\"keyUp\",\"key\":\"Enter\",\"code\":\"Enter\",\"windowsVirtualKeyCode\":13,\"nativeVirtualKeyCode\":13}"
    );
}

#[test]
fn press_arrow_down_and_unknown_key() {
    assert!(press_key("ArrowDown")[0].1.contains("\"windowsVirtualKeyCode\":40"));
    assert!(press_key("Space")[1].1.contains("\"nativeVirtualKeyCode\":32"));
    let unknown = press_key("F13");
    assert!(unknown[0].1.contains("\"code\":\"F13\",\"windowsVirtualKeyCode\":0,\"nativeVirtualKeyCode\":0"));
}

#[test]
fn type_text_one_event_per_char() {
    let seq = type_text("hé!");
    assert_eq!(seq.len(), 3);
    assert_eq!(seq[0].1, "{\"type\":\"char\",\"text\":\"h\"}");
    assert_eq!(seq[1].1, "{\"type\":\"char\",\"text\":\"é\"}");
    assert_eq!(seq[2].1, "{\"type\":\"char\",\"text\":\"!\"}");
    assert!(type_text("").is_empty());
}

#[test]
fn enable_commands_have_empty_params() {
    assert_eq!(enable_page(), ("Page.enable".to_string(), "{}".to_string()));
    assert_eq!(enable_dom(), ("DOM.enable".to_string(), "{}".to_string()));
    assert_eq!(enable_runtime(), ("Runtime.enable".to_string(), "{}".to_string()));
}
