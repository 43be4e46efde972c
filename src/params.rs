//! Parameters of the tools that the bridge offers to its callers.

use vstd::prelude::*;

verus! {

/// Parameters of the `navigate` tool.
pub struct NavigateParams {
    /// The URL to navigate to
    pub url: String,
}

/// Parameters of the `evaluate_js` tool.
pub struct EvaluateJsParams {
    /// JavaScript expression to evaluate in the page context
    pub expression: String,
}

/// Parameters of the `click` tool.
pub struct ClickParams {
    /// CSS selector of the element to click
    pub selector: String,
}

/// Parameters of the `type_text` tool.
pub struct TypeTextParams {
    /// CSS selector of the element to type into
    pub selector: String,
    /// The text to type
    pub text: String,
    /// Clear the field before typing (select all + delete). Default: false
    pub clear: Option<bool>,
}

/// Parameters of the `wait_for` tool.
pub struct WaitForParams {
    /// CSS selector to wait for
    pub selector: String,
    /// Maximum time to wait in milliseconds (default: 5000)
    pub timeout_ms: Option<u64>,
}

/// Parameters of the `select_option` tool.
pub struct SelectOptionParams {
    /// CSS selector of the <select> element
    pub selector: String,
    /// The value attribute of the option to select
    pub value: String,
}

/// Parameters of the `switch_tab` tool.
pub struct SwitchTabParams {
    /// The target ID of the tab to switch to (from list_tabs)
    pub target_id: String,
}

/// Parameters of the `new_tab` tool.
pub struct NewTabParams {
    /// URL to open in the new tab (default: about:blank)
    pub url: Option<String>,
}

/// Parameters of the `close_tab` tool.
pub struct CloseTabParams {
    /// The target ID of the tab to close (from list_tabs)
    pub target_id: String,
}

/// Parameters of the `inspect` tool.
pub struct InspectParams {
    /// CSS selector to inspect (default: body)
    pub selector: Option<String>,
    /// Maximum depth to traverse (default: 4)
    pub max_depth: Option<u32>,
}

/// Parameters of the `query_elements` tool.
pub struct QueryElementsParams {
    /// CSS selector to find matching elements
    pub selector: String,
}

/// Parameters of the `click_text` tool.
pub struct ClickTextParams {
    /// The text to search for in element content (case-insensitive substring match)
    pub text: String,
    /// HTML tag to limit search to (e.g. `button`, `a`). Default: `*` (all elements)
    pub tag: Option<String>,
}

/// Parameters of the `hover` tool.
pub struct HoverParams {
    /// CSS selector of the element to hover over
    pub selector: String,
}

/// Parameters of the `press_key` tool.
pub struct PressKeyParams {
    /// Key to press (e.g. `Enter`, `Tab`, `Escape`, `ArrowDown`, `Backspace`, `Space`)
    pub key: String,
}

/// Parameters of the `get_attribute` tool.
pub struct GetAttributeParams {
    /// CSS selector of the element
    pub selector: String,
    /// Attribute name to read (e.g. `href`, `src`, `data-id`, `value`)
    pub attribute: String,
}

/// Parameters of the `read_text` tool.
pub struct ReadTextParams {
    /// CSS selector to read text from
    pub selector: String,
}

/// Parameters of the `fill_form` tool.
pub struct FillFormParams {
    /// CSS selector of the form or container element
    pub selector: String,
    /// JSON object mapping field names/selectors to values, e.g. {`#email`: `test@example.com`, `#name`: `John`}
    pub fields: std::collections::HashMap<String, String>,
}

/// Parameters of the `get_cookies` tool.
pub struct GetCookiesParams {
    /// Optional URL filter — only return cookies for this domain. If omitted, returns cookies for the current page.
    pub url: Option<String>,
}

} // verus!
