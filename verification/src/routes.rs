//! What each route of the control server asks of the browser, decided from the request's
//! parameters, and the replies that do not depend on the browser.
use vstd::prelude::*;
use crate::control_server::{
    get_param, get_param_bool, get_param_u32, pair_views, param_value, parsed_u32,
    storage_object, BodyField, Route,
};
use crate::scripts::{
    click_index_script, click_index_script_text, click_selector_script,
    click_selector_script_text, cookie_age_part, cookie_delete_script, cookie_delete_script_text,
    cookie_get_script, cookie_get_script_text, cookie_set_script, cookie_set_script_text,
    inspect_scope, inspect_scope_query_text, inspect_script, inspect_script_text, json_quoted,
    json_string, max_age_part_text, scroll_into_view_script, scroll_into_view_script_text,
    storage_clear_script, storage_clear_script_text, storage_dump_script,
    storage_dump_script_text, storage_get_item_script, storage_get_item_script_text,
    storage_remove_item_script, storage_remove_item_script_text, storage_set_item_script,
    storage_set_item_script_text, submit_form_script, submit_form_script_text,
    type_index_script, type_index_script_text, type_selector_script, type_selector_script_text,
};
use crate::seqs::{first_index, lemma_first_index_absent, lemma_first_index_found};
use crate::text::{concat, owned, text_eq};

verus! {

/// What a body field holds, as the route planner reads it.
pub ghost enum FieldView {
    Missing,
    Text(Seq<char>),
    Unsigned(u64),
    Flag(bool),
    Other,
}

pub open spec fn field_view(f: BodyField) -> FieldView {
    match f {
        BodyField::Missing => FieldView::Missing,
        BodyField::Text(s) => FieldView::Text(s@),
        BodyField::Unsigned(n) => FieldView::Unsigned(n),
        BodyField::Flag(b) => FieldView::Flag(b),
        BodyField::Other => FieldView::Other,
    }
}

/// A request body's top-level fields, each key with what it holds.
pub open spec fn body_views(b: Seq<(String, BodyField)>) -> Seq<(Seq<char>, FieldView)> {
    b.map_values(|p: (String, BodyField)| (p.0@, field_view(p.1)))
}

/// The keys of a body.
pub open spec fn body_keys(b: Seq<(Seq<char>, FieldView)>) -> Seq<Seq<char>> {
    b.map_values(|p: (Seq<char>, FieldView)| p.0)
}

/// What the body holds under `key`: its first field with that key, else nothing.
pub open spec fn body_field(b: Seq<(Seq<char>, FieldView)>, key: Seq<char>) -> FieldView {
    match first_index(body_keys(b), key) {
        Some(i) => b[i].1,
        None => FieldView::Missing,
    }
}

/// A text parameter: the body's string under the key, else the query's value.
pub open spec fn text_param(
    b: Seq<(Seq<char>, FieldView)>,
    q: Seq<(Seq<char>, Seq<char>)>,
    key: Seq<char>,
) -> Option<Seq<char>> {
    match body_field(b, key) {
        FieldView::Text(s) => Some(s),
        _ => param_value(q, key),
    }
}

/// A text parameter, or `default` when it is absent.
pub open spec fn text_or(
    b: Seq<(Seq<char>, FieldView)>,
    q: Seq<(Seq<char>, Seq<char>)>,
    key: Seq<char>,
    default: Seq<char>,
) -> Seq<char> {
    match text_param(b, q, key) {
        Some(s) => s,
        None => default,
    }
}

/// A numeric parameter: from the body when it yields a number, else the query's value.
pub open spec fn u32_param(
    b: Seq<(Seq<char>, FieldView)>,
    q: Seq<(Seq<char>, Seq<char>)>,
    key: Seq<char>,
) -> Option<u32> {
    let from_body = match body_field(b, key) {
        FieldView::Unsigned(n) => Some(n as u32),
        FieldView::Text(s) => parsed_u32(s),
        _ => None,
    };
    match from_body {
        Some(n) => Some(n),
        None => match param_value(q, key) {
            Some(v) => parsed_u32(v),
            None => None,
        },
    }
}

/// A flag parameter: the body's boolean under the key, else `default`.
pub open spec fn flag_param(b: Seq<(Seq<char>, FieldView)>, key: Seq<char>, default: bool) -> bool {
    match body_field(b, key) {
        FieldView::Flag(v) => v,
        _ => default,
    }
}

pub open spec fn opt_string_view(o: Option<String>) -> Option<Seq<char>> {
    match o {
        Some(s) => Some(s@),
        None => None,
    }
}

/// The web storage a storage request addresses.
pub open spec fn storage_name(t: Option<Seq<char>>) -> Seq<char> {
    match t {
        Some(t) => if t == "session"@ {
            "sessionStorage"@
        } else {
            "localStorage"@
        },
        None => "localStorage"@,
    }
}

/// What a route asks of the browser; `S` is the text type (`String` when running,
/// `Seq<char>` in specifications).
#[derive(Debug, Clone, PartialEq, Eq)]
pub enum RouteAction<S> {
    /// Report that the server runs, with the tab list.
    Status,
    ListTabs,
    ActiveTab,
    CreateTab { url: Option<S> },
    CloseTab { id: u32 },
    SwitchTab { id: u32 },
    PinTab { id: u32 },
    MoveTab { tab_id: u32, before: Option<u32> },
    NextTab,
    PrevTab,
    RestoreTab,
    Navigate { url: S },
    Back,
    Forward,
    Reload,
    Home,
    PageTitle,
    PageUrl,
    /// Run the caller's code and report its result.
    Exec { code: S },
    /// Run this script in the active tab.
    RunScript { script: S },
    /// Wait until the selector matches (the timeout is read as a number of milliseconds).
    WaitForSelector { selector: S },
    /// Wait for the page to finish loading.
    WaitForLoad,
    /// Scroll the page by the amount asked, upwards or down.
    ScrollBy { up: bool },
    /// Fill the given fields, then submit the form when `submit` is set.
    SubmitForm { form_selector: S, submit: bool },
    ZoomIn,
    ZoomOut,
    ZoomReset,
    Find { text: S, forward: bool },
    StopFind,
    ToggleFullscreen,
    ViewportSize,
    ResizeViewport,
    ListHistory { query: Option<S> },
    SearchHistory { query: S },
    ClearHistory,
    AddBookmark { url: S, title: S, folder_id: Option<S> },
    RemoveBookmark { id: S },
    ListBookmarks,
    CheckBookmark { url: S },
    ListDownloads,
    EvalWithDevtools { code: S },
    Screenshot,
    ToggleDevtools,
    UiAction { action: S, payload: S },
    SaveScreenshot { data: S },
    /// Answer at once with this JSON text.
    Reply { body: S },
}

/// The text view of an action.
pub open spec fn action_view(a: RouteAction<String>) -> RouteAction<Seq<char>> {
    match a {
        RouteAction::Status => RouteAction::Status,
        RouteAction::ListTabs => RouteAction::ListTabs,
        RouteAction::ActiveTab => RouteAction::ActiveTab,
        RouteAction::CreateTab { url } => RouteAction::CreateTab { url: opt_string_view(url) },
        RouteAction::CloseTab { id } => RouteAction::CloseTab { id },
        RouteAction::SwitchTab { id } => RouteAction::SwitchTab { id },
        RouteAction::PinTab { id } => RouteAction::PinTab { id },
        RouteAction::MoveTab { tab_id, before } => RouteAction::MoveTab { tab_id, before },
        RouteAction::NextTab => RouteAction::NextTab,
        RouteAction::PrevTab => RouteAction::PrevTab,
        RouteAction::RestoreTab => RouteAction::RestoreTab,
        RouteAction::Navigate { url } => RouteAction::Navigate { url: url@ },
        RouteAction::Back => RouteAction::Back,
        RouteAction::Forward => RouteAction::Forward,
        RouteAction::Reload => RouteAction::Reload,
        RouteAction::Home => RouteAction::Home,
        RouteAction::PageTitle => RouteAction::PageTitle,
        RouteAction::PageUrl => RouteAction::PageUrl,
        RouteAction::Exec { code } => RouteAction::Exec { code: code@ },
        RouteAction::RunScript { script } => RouteAction::RunScript { script: script@ },
        RouteAction::WaitForSelector { selector } => RouteAction::WaitForSelector { selector: selector@ },
        RouteAction::WaitForLoad => RouteAction::WaitForLoad,
        RouteAction::ScrollBy { up } => RouteAction::ScrollBy { up },
        RouteAction::SubmitForm { form_selector, submit } => RouteAction::SubmitForm {
            form_selector: form_selector@,
            submit,
        },
        RouteAction::ZoomIn => RouteAction::ZoomIn,
        RouteAction::ZoomOut => RouteAction::ZoomOut,
        RouteAction::ZoomReset => RouteAction::ZoomReset,
        RouteAction::Find { text, forward } => RouteAction::Find { text: text@, forward },
        RouteAction::StopFind => RouteAction::StopFind,
        RouteAction::ToggleFullscreen => RouteAction::ToggleFullscreen,
        RouteAction::ViewportSize => RouteAction::ViewportSize,
        RouteAction::ResizeViewport => RouteAction::ResizeViewport,
        RouteAction::ListHistory { query } => RouteAction::ListHistory { query: opt_string_view(query) },
        RouteAction::SearchHistory { query } => RouteAction::SearchHistory { query: query@ },
        RouteAction::ClearHistory => RouteAction::ClearHistory,
        RouteAction::AddBookmark { url, title, folder_id } => RouteAction::AddBookmark {
            url: url@,
            title: title@,
            folder_id: opt_string_view(folder_id),
        },
        RouteAction::RemoveBookmark { id } => RouteAction::RemoveBookmark { id: id@ },
        RouteAction::ListBookmarks => RouteAction::ListBookmarks,
        RouteAction::CheckBookmark { url } => RouteAction::CheckBookmark { url: url@ },
        RouteAction::ListDownloads => RouteAction::ListDownloads,
        RouteAction::EvalWithDevtools { code } => RouteAction::EvalWithDevtools { code: code@ },
        RouteAction::Screenshot => RouteAction::Screenshot,
        RouteAction::ToggleDevtools => RouteAction::ToggleDevtools,
        RouteAction::UiAction { action, payload } => RouteAction::UiAction {
            action: action@,
            payload: payload@,
        },
        RouteAction::SaveScreenshot { data } => RouteAction::SaveScreenshot { data: data@ },
        RouteAction::Reply { body } => RouteAction::Reply { body: body@ },
    }
}

/// The script that starts keeping the page's console messages.
pub open spec fn console_capture_text() -> Seq<char> {
    "(() => {\n                if (window.__sp_console_logs) return;\n                window.__sp_console_logs = [];\n                const orig = {};\n                ['log','warn','error','info','debug'].forEach(level => {\n                    orig[level] = console[level];\n                    console[level] = function(...args) {\n                        window.__sp_console_logs.push({\n                            level, message: args.map(a => typeof a === 'object' ? JSON.stringify(a) : String(a)).join(' '),\n                            timestamp: Date.now()\n                        });\n                        orig[level].apply(console, args);\n                    };\n                });\n                window.__sp_console_restore = () => {\n                    Object.keys(orig).forEach(k => { console[k] = orig[k]; });\n                    delete window.__sp_console_logs;\n                    delete window.__sp_console_restore;\n                };\n            })()"@
}

/// The script that starts keeping the page's console messages. (see `console_capture_text`)
pub fn console_capture_script() -> (r: String)
    ensures
        r@ == console_capture_text(),
{
    owned("(() => {\n                if (window.__sp_console_logs) return;\n                window.__sp_console_logs = [];\n                const orig = {};\n                ['log','warn','error','info','debug'].forEach(level => {\n                    orig[level] = console[level];\n                    console[level] = function(...args) {\n                        window.__sp_console_logs.push({\n                            level, message: args.map(a => typeof a === 'object' ? JSON.stringify(a) : String(a)).join(' '),\n                            timestamp: Date.now()\n                        });\n                        orig[level].apply(console, args);\n                    };\n                });\n                window.__sp_console_restore = () => {\n                    Object.keys(orig).forEach(k => { console[k] = orig[k]; });\n                    delete window.__sp_console_logs;\n                    delete window.__sp_console_restore;\n                };\n            })()")
}

/// The script that starts keeping the page's fetch and XHR requests.
pub open spec fn network_capture_text() -> Seq<char> {
    "(() => {\n                if (window.__sp_network_logs) return;\n                window.__sp_network_logs = [];\n                const origFetch = window.fetch;\n                window.fetch = async function(...args) {\n                    const start = Date.now();\n                    const url = typeof args[0] === 'string' ? args[0] : args[0]?.url || '';\n                    const method = args[1]?.method || 'GET';\n                    try {\n                        const resp = await origFetch.apply(this, args);\n                        window.__sp_network_logs.push({ url, method, status: resp.status, duration: Date.now() - start, timestamp: start });\n                        return resp;\n                    } catch(e) {\n                        window.__sp_network_logs.push({ url, method, status: 0, error: e.message, duration: Date.now() - start, timestamp: start });\n                        throw e;\n                    }\n                };\n                const origXHR = XMLHttpRequest.prototype.open;\n                XMLHttpRequest.prototype.open = function(method, url) {\n                    this.__sp_method = method;\n                    this.__sp_url = url;\n                    this.__sp_start = Date.now();\n                    this.addEventListener('loadend', () => {\n                        window.__sp_network_logs.push({ url: this.__sp_url, method: this.__sp_method, status: this.status, duration: Date.now() - this.__sp_start, timestamp: this.__sp_start });\n                    });\n                    return origXHR.apply(this, arguments);\n                };\n                window.__sp_network_restore = () => {\n                    window.fetch = origFetch;\n                    XMLHttpRequest.prototype.open = origXHR;\n                    delete window.__sp_network_logs;\n                    delete window.__sp_network_restore;\n                };\n            })()"@
}

/// The script that starts keeping the page's fetch and XHR requests. (see `network_capture_text`)
pub fn network_capture_script() -> (r: String)
    ensures
        r@ == network_capture_text(),
{
    owned("(() => {\n                if (window.__sp_network_logs) return;\n                window.__sp_network_logs = [];\n                const origFetch = window.fetch;\n                window.fetch = async function(...args) {\n                    const start = Date.now();\n                    const url = typeof args[0] === 'string' ? args[0] : args[0]?.url || '';\n                    const method = args[1]?.method || 'GET';\n                    try {\n                        const resp = await origFetch.apply(this, args);\n                        window.__sp_network_logs.push({ url, method, status: resp.status, duration: Date.now() - start, timestamp: start });\n                        return resp;\n                    } catch(e) {\n                        window.__sp_network_logs.push({ url, method, status: 0, error: e.message, duration: Date.now() - start, timestamp: start });\n                        throw e;\n                    }\n                };\n                const origXHR = XMLHttpRequest.prototype.open;\n                XMLHttpRequest.prototype.open = function(method, url) {\n                    this.__sp_method = method;\n                    this.__sp_url = url;\n                    this.__sp_start = Date.now();\n                    this.addEventListener('loadend', () => {\n                        window.__sp_network_logs.push({ url: this.__sp_url, method: this.__sp_method, status: this.status, duration: Date.now() - this.__sp_start, timestamp: this.__sp_start });\n                    });\n                    return origXHR.apply(this, arguments);\n                };\n                window.__sp_network_restore = () => {\n                    window.fetch = origFetch;\n                    XMLHttpRequest.prototype.open = origXHR;\n                    delete window.__sp_network_logs;\n                    delete window.__sp_network_restore;\n                };\n            })()")
}

/// The script that reports the page's navigation timings.
pub open spec fn performance_report_text() -> Seq<char> {
    "(() => {\n                const nav = performance.getEntriesByType('navigation')[0];\n                if (nav) {\n                    return JSON.stringify({\n                        dns: nav.domainLookupEnd - nav.domainLookupStart,\n                        tcp: nav.connectEnd - nav.connectStart,\n                        ttfb: nav.responseStart - nav.requestStart,\n                        download: nav.responseEnd - nav.responseStart,\n                        domParse: nav.domInteractive - nav.responseEnd,\n                        domReady: nav.domContentLoadedEventEnd - nav.fetchStart,\n                        load: nav.loadEventEnd - nav.fetchStart,\n                        transferSize: nav.transferSize,\n                        encodedBodySize: nav.encodedBodySize,\n                        decodedBodySize: nav.decodedBodySize,\n                    });\n                }\n                return JSON.stringify({});\n            })()"@
}

/// The script that reports the page's navigation timings. (see `performance_report_text`)
pub fn performance_report_script() -> (r: String)
    ensures
        r@ == performance_report_text(),
{
    owned("(() => {\n                const nav = performance.getEntriesByType('navigation')[0];\n                if (nav) {\n                    return JSON.stringify({\n                        dns: nav.domainLookupEnd - nav.domainLookupStart,\n                        tcp: nav.connectEnd - nav.connectStart,\n                        ttfb: nav.responseStart - nav.requestStart,\n                        download: nav.responseEnd - nav.responseStart,\n                        domParse: nav.domInteractive - nav.responseEnd,\n                        domReady: nav.domContentLoadedEventEnd - nav.fetchStart,\n                        load: nav.loadEventEnd - nav.fetchStart,\n                        transferSize: nav.transferSize,\n                        encodedBodySize: nav.encodedBodySize,\n                        decodedBodySize: nav.decodedBodySize,\n                    });\n                }\n                return JSON.stringify({});\n            })()")
}

/// The script that reports the page's recorded errors.
pub open spec fn error_report_text() -> Seq<char> {
    "JSON.stringify(\n                (window.__sp_error_logs || []).concat(\n                    (window.__sp_console_logs || []).filter(function(e){ return e.level === 'error'; })\n                )\n            )"@
}

/// The script that reports the page's recorded errors. (see `error_report_text`)
pub fn error_report_script() -> (r: String)
    ensures
        r@ == error_report_text(),
{
    owned("JSON.stringify(\n                (window.__sp_error_logs || []).concat(\n                    (window.__sp_console_logs || []).filter(function(e){ return e.level === 'error'; })\n                )\n            )")
}

/// The script that reports every cookie of the page.
pub open spec fn all_cookies_text() -> Seq<char> {
    "(() => {\n                    var result = {};\n                    document.cookie.split(';').forEach(function(c){\n                        var parts = c.trim().split('=');\n                        if(parts[0]) result[parts[0]] = parts.slice(1).join('=');\n                    });\n                    return JSON.stringify(result);\n                })()"@
}

/// The script that reports every cookie of the page. (see `all_cookies_text`)
pub fn all_cookies_script() -> (r: String)
    ensures
        r@ == all_cookies_text(),
{
    owned("(() => {\n                    var result = {};\n                    document.cookie.split(';').forEach(function(c){\n                        var parts = c.trim().split('=');\n                        if(parts[0]) result[parts[0]] = parts.slice(1).join('=');\n                    });\n                    return JSON.stringify(result);\n                })()")
}

/// The script that expires every cookie of the page.
pub open spec fn clear_cookies_text() -> Seq<char> {
    "document.cookie.split(';').forEach(function(c){\n                var name = c.trim().split('=')[0];\n                if(name) document.cookie = name + '=;expires=Thu, 01 Jan 1970 00:00:00 GMT;path=/';\n            })"@
}

/// The script that expires every cookie of the page. (see `clear_cookies_text`)
pub fn clear_cookies_script() -> (r: String)
    ensures
        r@ == clear_cookies_text(),
{
    owned("document.cookie.split(';').forEach(function(c){\n                var name = c.trim().split('=')[0];\n                if(name) document.cookie = name + '=;expires=Thu, 01 Jan 1970 00:00:00 GMT;path=/';\n            })")
}

/// The reply of a route whose answer does not depend on the browser's data: `{"ok":true}`,
/// with a note for the routes whose result stays in the page. `None` for the routes that
/// answer with data.
pub open spec fn fixed_reply(route: Route) -> Option<Seq<char>> {
    match route {
        Route::PageContent => Some("{\"ok\":true,\"note\":\"Content retrieved via JS eval\"}"@),
        Route::PageInspect => Some("{\"ok\":true,\"note\":\"Inspect executed - elements stored in window.__inspectedElements\"}"@),
        Route::ConsoleGet => Some("{\"ok\":true,\"note\":\"Logs retrieved via JS eval\"}"@),
        Route::NetworkGet => Some("{\"ok\":true,\"note\":\"Network logs retrieved via JS eval\"}"@),
        Route::PageErrors => Some("{\"ok\":true,\"note\":\"Error logs retrieved via JS eval\"}"@),
        Route::CookieGet => Some("{\"ok\":true,\"note\":\"Cookie retrieved via JS eval (HttpOnly cookies not accessible)\"}"@),
        Route::TabClose | Route::TabSwitch | Route::TabPin | Route::TabMove | Route::TabNext | Route::TabPrev | Route::NavBack | Route::NavForward | Route::NavReload | Route::PageClick | Route::PageType | Route::PageWait | Route::PageScroll | Route::PageSubmit | Route::ZoomIn | Route::ZoomOut | Route::ZoomReset | Route::Find | Route::FullscreenToggle | Route::StorageGet | Route::StorageSet | Route::StorageClear | Route::ConsoleStart | Route::ConsoleStop | Route::NetworkStart | Route::NetworkStop | Route::PagePerformance | Route::ViewportSet | Route::HistoryClear | Route::BookmarkRemove | Route::CookieSet | Route::CookieDelete | Route::CookieClear | Route::DevtoolsToggle | Route::UiAction => Some("{\"ok\":true}"@),
        _ => None,
    }
}

/// The reply of a route whose answer does not depend on the browser's data (see
/// `fixed_reply`).
pub fn route_reply(route: Route) -> (r: Option<String>)
    ensures
        opt_string_view(r) == fixed_reply(route),
{
    match route {
        Route::PageContent => Some(owned("{\"ok\":true,\"note\":\"Content retrieved via JS eval\"}")),
        Route::PageInspect => Some(owned("{\"ok\":true,\"note\":\"Inspect executed - elements stored in window.__inspectedElements\"}")),
        Route::ConsoleGet => Some(owned("{\"ok\":true,\"note\":\"Logs retrieved via JS eval\"}")),
        Route::NetworkGet => Some(owned("{\"ok\":true,\"note\":\"Network logs retrieved via JS eval\"}")),
        Route::PageErrors => Some(owned("{\"ok\":true,\"note\":\"Error logs retrieved via JS eval\"}")),
        Route::CookieGet => Some(owned("{\"ok\":true,\"note\":\"Cookie retrieved via JS eval (HttpOnly cookies not accessible)\"}")),
        Route::TabClose | Route::TabSwitch | Route::TabPin | Route::TabMove | Route::TabNext | Route::TabPrev | Route::NavBack | Route::NavForward | Route::NavReload | Route::PageClick | Route::PageType | Route::PageWait | Route::PageScroll | Route::PageSubmit | Route::ZoomIn | Route::ZoomOut | Route::ZoomReset | Route::Find | Route::FullscreenToggle | Route::StorageGet | Route::StorageSet | Route::StorageClear | Route::ConsoleStart | Route::ConsoleStop | Route::NetworkStart | Route::NetworkStop | Route::PagePerformance | Route::ViewportSet | Route::HistoryClear | Route::BookmarkRemove | Route::CookieSet | Route::CookieDelete | Route::CookieClear | Route::DevtoolsToggle | Route::UiAction => Some(owned("{\"ok\":true}")),
        _ => None,
    }
}

/// The reply to a request for a path that names no route.
pub open spec fn unknown_route_text(path: Seq<char>) -> Seq<char> {
    "{\"error\":\"Unknown route\",\"path\":"@ + json_quoted(path) + "}"@
}

/// The reply to a request that gives neither an index nor a selector.
pub open spec fn no_target_text() -> Seq<char> {
    "{\"error\":\"Provide index or selector\"}"@
}

/// The reply to a devtools evaluation without code.
pub open spec fn no_code_text() -> Seq<char> {
    "{\"error\":\"No code provided\"}"@
}

/// The reply to a screenshot save without data.
pub open spec fn no_data_text() -> Seq<char> {
    "{\"error\":\"No data provided\"}"@
}

/// What the route asks of the browser, given the request body `b`, query `q` and path.
pub open spec fn route_plan(
    route: Route,
    b: Seq<(Seq<char>, FieldView)>,
    q: Seq<(Seq<char>, Seq<char>)>,
    path: Seq<char>,
) -> RouteAction<Seq<char>> {
    match route {
        Route::Status => RouteAction::Status,
        Route::TabCreate => RouteAction::CreateTab { url: text_param(b, q, "url"@) },
        Route::TabClose => RouteAction::CloseTab { id: id_or_zero(u32_param(b, q, "id"@)) },
        Route::TabSwitch => RouteAction::SwitchTab { id: id_or_zero(u32_param(b, q, "id"@)) },
        Route::TabList => RouteAction::ListTabs,
        Route::TabActive => RouteAction::ActiveTab,
        Route::TabRestore => RouteAction::RestoreTab,
        Route::TabPin => RouteAction::PinTab { id: id_or_zero(u32_param(b, q, "id"@)) },
        Route::TabMove => RouteAction::MoveTab {
            tab_id: id_or_zero(u32_param(b, q, "tabId"@)),
            before: u32_param(b, q, "beforeTabId"@),
        },
        Route::TabNext => RouteAction::NextTab,
        Route::TabPrev => RouteAction::PrevTab,
        Route::NavGo => RouteAction::Navigate { url: text_or(b, q, "url"@, ""@) },
        Route::NavBack => RouteAction::Back,
        Route::NavForward => RouteAction::Forward,
        Route::NavReload => RouteAction::Reload,
        Route::NavHome => RouteAction::Home,
        Route::PageTitle => RouteAction::PageTitle,
        Route::PageUrl => RouteAction::PageUrl,
        Route::PageExec => RouteAction::Exec { code: text_or(b, q, "code"@, ""@) },
        Route::PageContent => RouteAction::RunScript { script: "document.body.innerText"@ },
        Route::PageInspect => RouteAction::RunScript {
            script: inspect_script_text(
                match text_param(b, q, "selector"@) {
                    Some(s) => inspect_scope_query_text(s),
                    None => "document"@,
                },
            ),
        },
        Route::PageClick => match u32_param(b, q, "index"@) {
            Some(i) => RouteAction::RunScript { script: click_index_script_text(i as nat) },
            None => match text_param(b, q, "selector"@) {
                Some(s) => RouteAction::RunScript { script: click_selector_script_text(s) },
                None => RouteAction::Reply { body: no_target_text() },
            },
        },
        Route::PageType => {
            let text = text_or(b, q, "text"@, ""@);
            let clear = flag_param(b, "clear"@, true);
            let submit = flag_param(b, "submit"@, false);
            match u32_param(b, q, "index"@) {
                Some(i) => RouteAction::RunScript {
                    script: type_index_script_text(i as nat, clear, text, submit),
                },
                None => match text_param(b, q, "selector"@) {
                    Some(s) => RouteAction::RunScript {
                        script: type_selector_script_text(s, clear, text, submit),
                    },
                    None => RouteAction::Reply { body: no_target_text() },
                },
            }
        },
        Route::PageWait => match text_param(b, q, "selector"@) {
            Some(s) => RouteAction::WaitForSelector { selector: s },
            None => RouteAction::WaitForLoad,
        },
        Route::PageScroll => match text_param(b, q, "selector"@) {
            Some(s) => RouteAction::RunScript { script: scroll_into_view_script_text(s) },
            None => RouteAction::ScrollBy { up: text_or(b, q, "direction"@, "down"@) == "up"@ },
        },
        Route::PageSubmit => RouteAction::SubmitForm {
            form_selector: text_or(b, q, "selector"@, "form"@),
            submit: flag_param(b, "submit"@, true),
        },
        Route::ZoomIn => RouteAction::ZoomIn,
        Route::ZoomOut => RouteAction::ZoomOut,
        Route::ZoomReset => RouteAction::ZoomReset,
        Route::Find => {
            let text = text_or(b, q, "text"@, ""@);
            if text.len() == 0 {
                RouteAction::StopFind
            } else {
                RouteAction::Find { text, forward: flag_param(b, "forward"@, true) }
            }
        },
        Route::FullscreenToggle => RouteAction::ToggleFullscreen,
        Route::StorageGet => {
            let st = storage_name(text_param(b, q, "type"@));
            match text_param(b, q, "key"@) {
                Some(k) => RouteAction::RunScript { script: storage_get_item_script_text(st, k) },
                None => RouteAction::RunScript { script: storage_dump_script_text(st) },
            }
        },
        Route::StorageSet => RouteAction::RunScript {
            script: storage_set_item_script_text(
                storage_name(text_param(b, q, "type"@)),
                text_or(b, q, "key"@, ""@),
                text_or(b, q, "value"@, ""@),
            ),
        },
        Route::StorageClear => {
            let st = storage_name(text_param(b, q, "type"@));
            match text_param(b, q, "key"@) {
                Some(k) => RouteAction::RunScript { script: storage_remove_item_script_text(st, k) },
                None => RouteAction::RunScript { script: storage_clear_script_text(st) },
            }
        },
        Route::ConsoleStart => RouteAction::RunScript { script: console_capture_text() },
        Route::ConsoleStop => RouteAction::RunScript { script: "if(window.__sp_console_restore) window.__sp_console_restore()"@ },
        Route::ConsoleGet => RouteAction::RunScript { script: "JSON.stringify(window.__sp_console_logs || [])"@ },
        Route::NetworkStart => RouteAction::RunScript { script: network_capture_text() },
        Route::NetworkStop => RouteAction::RunScript { script: "if(window.__sp_network_restore) window.__sp_network_restore()"@ },
        Route::NetworkGet => RouteAction::RunScript { script: "JSON.stringify(window.__sp_network_logs || [])"@ },
        Route::PagePerformance => RouteAction::RunScript { script: performance_report_text() },
        Route::ViewportGet => RouteAction::ViewportSize,
        Route::ViewportSet => RouteAction::ResizeViewport,
        Route::HistoryList => RouteAction::ListHistory { query: text_param(b, q, "query"@) },
        Route::HistorySearch => RouteAction::SearchHistory {
            query: match text_param(b, q, "query"@) {
                Some(s) => s,
                None => text_or(b, q, "q"@, ""@),
            },
        },
        Route::HistoryClear => RouteAction::ClearHistory,
        Route::BookmarkAdd => RouteAction::AddBookmark {
            url: text_or(b, q, "url"@, ""@),
            title: text_or(b, q, "title"@, ""@),
            folder_id: text_param(b, q, "folderId"@),
        },
        Route::BookmarkRemove => RouteAction::RemoveBookmark { id: text_or(b, q, "id"@, ""@) },
        Route::BookmarkList => RouteAction::ListBookmarks,
        Route::BookmarkCheck => RouteAction::CheckBookmark { url: text_or(b, q, "url"@, ""@) },
        Route::DownloadList => RouteAction::ListDownloads,
        Route::PageErrors => RouteAction::RunScript { script: error_report_text() },
        Route::CookieGet => match text_param(b, q, "name"@) {
            Some(k) => RouteAction::RunScript { script: cookie_get_script_text(k) },
            None => RouteAction::RunScript { script: all_cookies_text() },
        },
        Route::CookieSet => RouteAction::RunScript {
            script: cookie_set_script_text(
                text_or(b, q, "name"@, ""@),
                text_or(b, q, "value"@, ""@),
                text_or(b, q, "path"@, "/"@),
                match text_param(b, q, "maxAge"@) {
                    Some(a) => max_age_part_text(a),
                    None => Seq::empty(),
                },
            ),
        },
        Route::CookieDelete => RouteAction::RunScript {
            script: cookie_delete_script_text(text_or(b, q, "name"@, ""@)),
        },
        Route::CookieClear => RouteAction::RunScript { script: clear_cookies_text() },
        Route::PageCdpEval => {
            let code = text_or(b, q, "code"@, ""@);
            if code.len() == 0 {
                RouteAction::Reply { body: no_code_text() }
            } else {
                RouteAction::EvalWithDevtools { code }
            }
        },
        Route::PageScreenshot => RouteAction::Screenshot,
        Route::DevtoolsToggle => RouteAction::ToggleDevtools,
        Route::UiAction => RouteAction::UiAction {
            action: text_or(b, q, "action"@, ""@),
            payload: text_or(b, q, "payload"@, ""@),
        },
        Route::ScreenshotSave => {
            let data = text_or(b, q, "data"@, ""@);
            if data.len() == 0 {
                RouteAction::Reply { body: no_data_text() }
            } else {
                RouteAction::SaveScreenshot { data }
            }
        },
        Route::Unknown => RouteAction::Reply { body: unknown_route_text(path) },
    }
}

/// An id parameter, 0 when absent.
pub open spec fn id_or_zero(o: Option<u32>) -> u32 {
    match o {
        Some(n) => n,
        None => 0,
    }
}

/// What the body holds under `key`.
fn field_of(body: &Vec<(String, BodyField)>, key: &str) -> (r: BodyField)
    ensures
        field_view(r) == body_field(body_views(body@), key@),
{
    let ghost keys = body_keys(body_views(body@));
    let mut i: usize = 0;
    while i < body.len()
        invariant
            i <= body.len(),
            keys == body_keys(body_views(body@)),
            forall|j: int| 0 <= j < i ==> keys[j] != key@,
        decreases body.len() - i,
    {
        assert(keys[i as int] == body@[i as int].0@);
        if text_eq(body[i].0.as_str(), key) {
            proof {
                lemma_first_index_found(keys, key@, i as int);
            }
            return match &body[i].1 {
                BodyField::Missing => BodyField::Missing,
                BodyField::Text(s) => BodyField::Text(owned(s.as_str())),
                BodyField::Unsigned(n) => BodyField::Unsigned(*n),
                BodyField::Flag(f) => BodyField::Flag(*f),
                BodyField::Other => BodyField::Other,
            };
        }
        i = i + 1;
    }
    proof {
        lemma_first_index_absent(keys, key@);
    }
    BodyField::Missing
}

fn text_of(body: &Vec<(String, BodyField)>, query: &Vec<(String, String)>, key: &str) -> (r: Option<String>)
    ensures
        opt_string_view(r) == text_param(body_views(body@), pair_views(query@), key@),
{
    let f = field_of(body, key);
    get_param(&f, query, key)
}

fn text_or_default(
    body: &Vec<(String, BodyField)>,
    query: &Vec<(String, String)>,
    key: &str,
    default: &str,
) -> (r: String)
    ensures
        r@ == text_or(body_views(body@), pair_views(query@), key@, default@),
{
    match text_of(body, query, key) {
        Some(s) => s,
        None => owned(default),
    }
}

fn u32_of(body: &Vec<(String, BodyField)>, query: &Vec<(String, String)>, key: &str) -> (r: Option<u32>)
    ensures
        r == u32_param(body_views(body@), pair_views(query@), key@),
{
    let f = field_of(body, key);
    get_param_u32(&f, query, key)
}

fn flag_of(body: &Vec<(String, BodyField)>, key: &str, default: bool) -> (r: bool)
    ensures
        r == flag_param(body_views(body@), key@, default),
{
    let f = field_of(body, key);
    get_param_bool(&f, default)
}

fn id_of(body: &Vec<(String, BodyField)>, query: &Vec<(String, String)>, key: &str) -> (r: u32)
    ensures
        r == id_or_zero(u32_param(body_views(body@), pair_views(query@), key@)),
{
    match u32_of(body, query, key) {
        Some(n) => n,
        None => 0,
    }
}

fn storage_of(body: &Vec<(String, BodyField)>, query: &Vec<(String, String)>) -> (r: String)
    ensures
        r@ == storage_name(text_param(body_views(body@), pair_views(query@), "type"@)),
{
    let t = text_of(body, query, "type");
    storage_object(t)
}

fn text_script(s: &str) -> (r: RouteAction<String>)
    ensures
        action_view(r) == (RouteAction::RunScript { script: s@ }),
{
    RouteAction::RunScript { script: owned(s) }
}

fn script_action(s: String) -> (r: RouteAction<String>)
    ensures
        action_view(r) == (RouteAction::RunScript { script: s@ }),
{
    RouteAction::RunScript { script: s }
}

fn reply_action(s: &str) -> (r: RouteAction<String>)
    ensures
        action_view(r) == (RouteAction::Reply { body: s@ }),
{
    RouteAction::Reply { body: owned(s) }
}

/// What the route asks of the browser (see `route_plan`), given the request body's fields,
/// the query parameters and the request path.
#[verifier::rlimit(50)]
pub fn plan_route(
    route: Route,
    body: &Vec<(String, BodyField)>,
    query: &Vec<(String, String)>,
    path: &str,
) -> (a: RouteAction<String>)
    ensures
        action_view(a) == route_plan(route, body_views(body@), pair_views(query@), path@),
{
    match route {
        Route::Status => RouteAction::Status,
        Route::TabCreate => RouteAction::CreateTab { url: text_of(body, query, "url") },
        Route::TabClose => RouteAction::CloseTab { id: id_of(body, query, "id") },
        Route::TabSwitch => RouteAction::SwitchTab { id: id_of(body, query, "id") },
        Route::TabList => RouteAction::ListTabs,
        Route::TabActive => RouteAction::ActiveTab,
        Route::TabRestore => RouteAction::RestoreTab,
        Route::TabPin => RouteAction::PinTab { id: id_of(body, query, "id") },
        Route::TabMove => {
            let tab_id = id_of(body, query, "tabId");
            let before = u32_of(body, query, "beforeTabId");
            RouteAction::MoveTab { tab_id, before }
        },
        Route::TabNext => RouteAction::NextTab,
        Route::TabPrev => RouteAction::PrevTab,
        Route::NavGo => RouteAction::Navigate { url: text_or_default(body, query, "url", "") },
        Route::NavBack => RouteAction::Back,
        Route::NavForward => RouteAction::Forward,
        Route::NavReload => RouteAction::Reload,
        Route::NavHome => RouteAction::Home,
        Route::PageTitle => RouteAction::PageTitle,
        Route::PageUrl => RouteAction::PageUrl,
        Route::PageExec => RouteAction::Exec { code: text_or_default(body, query, "code", "") },
        Route::PageContent => text_script("document.body.innerText"),
        Route::PageInspect => {
            let sel = text_of(body, query, "selector");
            let scope = match &sel {
                Some(s) => inspect_scope(Some(s.as_str())),
                None => inspect_scope(None),
            };
            script_action(inspect_script(&scope))
        },
        Route::PageClick => match u32_of(body, query, "index") {
            Some(i) => script_action(click_index_script(i as u64)),
            None => match text_of(body, query, "selector") {
                Some(s) => script_action(click_selector_script(&s)),
                None => reply_action("{\"error\":\"Provide index or selector\"}"),
            },
        },
        Route::PageType => {
            let text = text_or_default(body, query, "text", "");
            let clear = flag_of(body, "clear", true);
            let submit = flag_of(body, "submit", false);
            match u32_of(body, query, "index") {
                Some(i) => script_action(type_index_script(i as u64, clear, &text, submit)),
                None => match text_of(body, query, "selector") {
                    Some(s) => script_action(type_selector_script(&s, clear, &text, submit)),
                    None => reply_action("{\"error\":\"Provide index or selector\"}"),
                },
            }
        },
        Route::PageWait => match text_of(body, query, "selector") {
            Some(s) => RouteAction::WaitForSelector { selector: s },
            None => RouteAction::WaitForLoad,
        },
        Route::PageScroll => match text_of(body, query, "selector") {
            Some(s) => script_action(scroll_into_view_script(&s)),
            None => {
                let d = text_or_default(body, query, "direction", "down");
                RouteAction::ScrollBy { up: text_eq(d.as_str(), "up") }
            },
        },
        Route::PageSubmit => {
            let form_selector = text_or_default(body, query, "selector", "form");
            let submit = flag_of(body, "submit", true);
            RouteAction::SubmitForm { form_selector, submit }
        },
        Route::ZoomIn => RouteAction::ZoomIn,
        Route::ZoomOut => RouteAction::ZoomOut,
        Route::ZoomReset => RouteAction::ZoomReset,
        Route::Find => {
            let text = text_or_default(body, query, "text", "");
            if text.as_str().is_empty() {
                RouteAction::StopFind
            } else {
                let forward = flag_of(body, "forward", true);
                RouteAction::Find { text, forward }
            }
        },
        Route::FullscreenToggle => RouteAction::ToggleFullscreen,
        Route::StorageGet => {
            let st = storage_of(body, query);
            match text_of(body, query, "key") {
                Some(k) => script_action(storage_get_item_script(&st, &k)),
                None => script_action(storage_dump_script(&st)),
            }
        },
        Route::StorageSet => {
            let st = storage_of(body, query);
            let k = text_or_default(body, query, "key", "");
            let v = text_or_default(body, query, "value", "");
            script_action(storage_set_item_script(&st, &k, &v))
        },
        Route::StorageClear => {
            let st = storage_of(body, query);
            match text_of(body, query, "key") {
                Some(k) => script_action(storage_remove_item_script(&st, &k)),
                None => script_action(storage_clear_script(&st)),
            }
        },
        Route::ConsoleStart => script_action(console_capture_script()),
        Route::ConsoleStop => text_script("if(window.__sp_console_restore) window.__sp_console_restore()"),
        Route::ConsoleGet => text_script("JSON.stringify(window.__sp_console_logs || [])"),
        Route::NetworkStart => script_action(network_capture_script()),
        Route::NetworkStop => text_script("if(window.__sp_network_restore) window.__sp_network_restore()"),
        Route::NetworkGet => text_script("JSON.stringify(window.__sp_network_logs || [])"),
        Route::PagePerformance => script_action(performance_report_script()),
        Route::ViewportGet => RouteAction::ViewportSize,
        Route::ViewportSet => RouteAction::ResizeViewport,
        Route::HistoryList => RouteAction::ListHistory { query: text_of(body, query, "query") },
        Route::HistorySearch => {
            let q = match text_of(body, query, "query") {
                Some(s) => s,
                None => text_or_default(body, query, "q", ""),
            };
            RouteAction::SearchHistory { query: q }
        },
        Route::HistoryClear => RouteAction::ClearHistory,
        Route::BookmarkAdd => {
            let url = text_or_default(body, query, "url", "");
            let title = text_or_default(body, query, "title", "");
            let folder_id = text_of(body, query, "folderId");
            RouteAction::AddBookmark { url, title, folder_id }
        },
        Route::BookmarkRemove => RouteAction::RemoveBookmark { id: text_or_default(body, query, "id", "") },
        Route::BookmarkList => RouteAction::ListBookmarks,
        Route::BookmarkCheck => RouteAction::CheckBookmark { url: text_or_default(body, query, "url", "") },
        Route::DownloadList => RouteAction::ListDownloads,
        Route::PageErrors => script_action(error_report_script()),
        Route::CookieGet => match text_of(body, query, "name") {
            Some(k) => script_action(cookie_get_script(&k)),
            None => script_action(all_cookies_script()),
        },
        Route::CookieSet => {
            let n = text_or_default(body, query, "name", "");
            let v = text_or_default(body, query, "value", "");
            let p = text_or_default(body, query, "path", "/");
            let age = text_of(body, query, "maxAge");
            let age_part = match &age {
                Some(a) => cookie_age_part(Some(a.as_str())),
                None => cookie_age_part(None),
            };
            script_action(cookie_set_script(&n, &v, &p, &age_part))
        },
        Route::CookieDelete => {
            let n = text_or_default(body, query, "name", "");
            script_action(cookie_delete_script(&n))
        },
        Route::CookieClear => script_action(clear_cookies_script()),
        Route::PageCdpEval => {
            let code = text_or_default(body, query, "code", "");
            if code.as_str().is_empty() {
                reply_action("{\"error\":\"No code provided\"}")
            } else {
                RouteAction::EvalWithDevtools { code }
            }
        },
        Route::PageScreenshot => RouteAction::Screenshot,
        Route::DevtoolsToggle => RouteAction::ToggleDevtools,
        Route::UiAction => {
            let action = text_or_default(body, query, "action", "");
            let payload = text_or_default(body, query, "payload", "");
            RouteAction::UiAction { action, payload }
        },
        Route::ScreenshotSave => {
            let data = text_or_default(body, query, "data", "");
            if data.as_str().is_empty() {
                reply_action("{\"error\":\"No data provided\"}")
            } else {
                RouteAction::SaveScreenshot { data }
            }
        },
        Route::Unknown => {
            let mut s = owned("{\"error\":\"Unknown route\",\"path\":");
            let q = json_string(path);
            s = concat(&s, &q);
            s = concat(&s, "}");
            proof {
                assert(s@ =~= unknown_route_text(path@));
            }
            RouteAction::Reply { body: s }
        },
    }
}

/// A find request with text searches forward unless its body says `"forward": false`; the
/// text searched for is the one given, and a request without text stops the search.
pub proof fn lemma_find_searches_forward_by_default(
    b: Seq<(Seq<char>, FieldView)>,
    q: Seq<(Seq<char>, Seq<char>)>,
    path: Seq<char>,
)
    ensures
        ({
            let text = match text_param(b, q, "text"@) {
                Some(t) => t,
                None => ""@,
            };
            match route_plan(Route::Find, b, q, path) {
                RouteAction::Find { text: t, forward } => {
                    &&& t == text
                    &&& t.len() > 0
                    &&& forward == (body_field(b, "forward"@) != FieldView::Flag(false))
                },
                RouteAction::StopFind => text.len() == 0,
                _ => false,
            }
        }),
{
}

} // verus!
