//! The scripts the browser runs in pages: each is a fixed text with the caller's values
//! spliced in, texts quoted as JSON string literals and numbers in decimal.
use vstd::prelude::*;
use crate::text::{concat, decimal, decimal_string, digit_char};

verus! {

/// The lower-case hexadecimal digit of `d < 16`.
pub open spec fn lower_hex_digit(d: nat) -> char {
    if d < 10 {
        digit_char(d)
    } else if d == 10 {
        'a'
    } else if d == 11 {
        'b'
    } else if d == 12 {
        'c'
    } else if d == 13 {
        'd'
    } else if d == 14 {
        'e'
    } else {
        'f'
    }
}

/// How `serde_json` writes one character inside a JSON string: quote and backslash are
/// escaped, backspace, tab, newline, form feed and carriage return get their short escapes,
/// other control characters below U+0020 become `\u00` and two lower-case hexadecimal digits,
/// everything else stays.
pub open spec fn json_escape_char(c: char) -> Seq<char> {
    let v = c as u32;
    if c == '"' {
        seq!['\\', '"']
    } else if c == '\\' {
        seq!['\\', '\\']
    } else if v == 8 {
        seq!['\\', 'b']
    } else if v == 9 {
        seq!['\\', 't']
    } else if v == 10 {
        seq!['\\', 'n']
    } else if v == 12 {
        seq!['\\', 'f']
    } else if v == 13 {
        seq!['\\', 'r']
    } else if v < 32 {
        seq!['\\', 'u', '0', '0', lower_hex_digit((v / 16) as nat), lower_hex_digit((v % 16) as nat)]
    } else {
        seq![c]
    }
}

/// Each character of `s` escaped in turn.
pub open spec fn json_escape(s: Seq<char>) -> Seq<char>
    decreases s.len(),
{
    if s.len() == 0 {
        Seq::empty()
    } else {
        json_escape(s.drop_last()) + json_escape_char(s.last())
    }
}

/// The JSON string literal of `s`, as `serde_json::to_string` writes it.
pub open spec fn json_quoted(s: Seq<char>) -> Seq<char> {
    seq!['"'] + json_escape(s) + seq!['"']
}

/// The JSON string literal of `s` (`serde_json::to_string` on a `str`). Serializing a
/// string into memory cannot fail in `serde_json` (the error path only carries I/O errors of
/// the writer, and the writer is a vector), so the empty text in the error arm is never
/// produced. The claim is the crate's escaping of quotes, backslashes and control
/// characters, read from its `format_escaped_str` and escape table.
#[verifier::external_body]
pub(crate) fn json_string(s: &str) -> (r: String)
    ensures
        r@ == json_quoted(s@),
{
    match serde_json::to_string(s) {
        Ok(j) => j,
        Err(_) => String::new(),
    }
}

/// The scope expression of an inspection: the selector's first match, or the document.
pub fn inspect_scope(selector: Option<&str>) -> (r: String)
    ensures
        r@ == (match selector {
            Some(s) => inspect_scope_query_text(s@),
            None => "document"@,
        }),
{
    match selector {
        Some(s) => inspect_scope_query(s),
        None => crate::text::owned("document"),
    }
}

/// The `max-age` part of a cookie being set: empty when no age is given.
pub fn cookie_age_part(max_age: Option<&str>) -> (r: String)
    ensures
        r@ == (match max_age {
            Some(a) => max_age_part_text(a@),
            None => Seq::empty(),
        }),
{
    match max_age {
        Some(a) => max_age_part(a),
        None => String::new(),
    }
}

/// The scope an inspection is limited to: the first element the selector matches, else the document.
pub open spec fn inspect_scope_query_text(sel: Seq<char>) -> Seq<char> {
    "document.querySelector("@ + json_quoted(sel) + ") || document"@
}

/// The scope an inspection is limited to: the first element the selector matches, else the document. (see `inspect_scope_query_text`)
pub fn inspect_scope_query(sel: &str) -> (r: String)
    ensures
        r@ == inspect_scope_query_text(sel@),
{
    let mut s = String::new();
    s = concat(&s, "document.querySelector(");
    let q = json_string(sel);
    s = concat(&s, &q);
    s = concat(&s, ") || document");
    proof {
        assert(s@ =~= inspect_scope_query_text(sel@));
    }
    s
}

/// The script that lists the visible interactive elements of `scope` and keeps them for later clicks and typing.
pub open spec fn inspect_script_text(scope: Seq<char>) -> Seq<char> {
    "(() => {\n                    const scope = "@ + scope + ";\n                    const selectors = 'a[href], button, input, textarea, select, [role=\"button\"], [onclick], [tabindex]';\n                    const els = Array.from(scope.querySelectorAll(selectors));\n                    const visible = els.filter(el => {\n                        const r = el.getBoundingClientRect();\n                        const s = getComputedStyle(el);\n                        return r.width > 0 && r.height > 0 && s.visibility !== 'hidden' && s.display !== 'none';\n                    });\n                    window.__inspectedElements = visible;\n                    return JSON.stringify({\n                        count: visible.length,\n                        elements: visible.map((el, i) => {\n                            const r = el.getBoundingClientRect();\n                            return {\n                                index: i,\n                                tag: el.tagName.toLowerCase(),\n                                type: el.getAttribute('type') || '',\n                                id: el.id || '',\n                                name: el.getAttribute('name') || '',\n                                text: (el.innerText || el.value || el.getAttribute('aria-label') || el.getAttribute('title') || el.placeholder || '').substring(0, 80).trim(),\n                                href: el.getAttribute('href') || '',\n                                placeholder: el.getAttribute('placeholder') || '',\n                                role: el.getAttribute('role') || '',\n                                bounds: { x: Math.round(r.x), y: Math.round(r.y), w: Math.round(r.width), h: Math.round(r.height) }\n                            };\n                        })\n                    });\n                })()"@
}

/// The script that lists the visible interactive elements of `scope` and keeps them for later clicks and typing. (see `inspect_script_text`)
pub fn inspect_script(scope: &str) -> (r: String)
    ensures
        r@ == inspect_script_text(scope@),
{
    let mut s = String::new();
    s = concat(&s, "(() => {\n                    const scope = ");
    s = concat(&s, scope);
    s = concat(&s, ";\n                    const selectors = 'a[href], button, input, textarea, select, [role=\"button\"], [onclick], [tabindex]';\n                    const els = Array.from(scope.querySelectorAll(selectors));\n                    const visible = els.filter(el => {\n                        const r = el.getBoundingClientRect();\n                        const s = getComputedStyle(el);\n                        return r.width > 0 && r.height > 0 && s.visibility !== 'hidden' && s.display !== 'none';\n                    });\n                    window.__inspectedElements = visible;\n                    return JSON.stringify({\n                        count: visible.length,\n                        elements: visible.map((el, i) => {\n                            const r = el.getBoundingClientRect();\n                            return {\n                                index: i,\n                                tag: el.tagName.toLowerCase(),\n                                type: el.getAttribute('type') || '',\n                                id: el.id || '',\n                                name: el.getAttribute('name') || '',\n                                text: (el.innerText || el.value || el.getAttribute('aria-label') || el.getAttribute('title') || el.placeholder || '').substring(0, 80).trim(),\n                                href: el.getAttribute('href') || '',\n                                placeholder: el.getAttribute('placeholder') || '',\n                                role: el.getAttribute('role') || '',\n                                bounds: { x: Math.round(r.x), y: Math.round(r.y), w: Math.round(r.width), h: Math.round(r.height) }\n                            };\n                        })\n                    });\n                })()");
    proof {
        assert(s@ =~= inspect_script_text(scope@));
    }
    s
}

/// The script that clicks the inspected element at `idx`.
pub open spec fn click_index_script_text(idx: nat) -> Seq<char> {
    "(() => {\n                        if (!window.__inspectedElements || !window.__inspectedElements["@ + decimal(idx) + "]) throw new Error('Element not found. Run /page/inspect first.');\n                        const el = window.__inspectedElements["@ + decimal(idx) + "];\n                        el.scrollIntoView({block:'center'});\n                        el.focus();\n                        el.click();\n                    })()"@
}

/// The script that clicks the inspected element at `idx`. (see `click_index_script_text`)
pub fn click_index_script(idx: u64) -> (r: String)
    ensures
        r@ == click_index_script_text(idx as nat),
{
    let mut s = String::new();
    s = concat(&s, "(() => {\n                        if (!window.__inspectedElements || !window.__inspectedElements[");
    let d = decimal_string(idx);
    s = concat(&s, &d);
    s = concat(&s, "]) throw new Error('Element not found. Run /page/inspect first.');\n                        const el = window.__inspectedElements[");
    let d = decimal_string(idx);
    s = concat(&s, &d);
    s = concat(&s, "];\n                        el.scrollIntoView({block:'center'});\n                        el.focus();\n                        el.click();\n                    })()");
    proof {
        assert(s@ =~= click_index_script_text(idx as nat));
    }
    s
}

/// The script that clicks the first element the selector matches.
pub open spec fn click_selector_script_text(sel: Seq<char>) -> Seq<char> {
    "(() => {\n                        const el = document.querySelector("@ + json_quoted(sel) + ");\n                        if (!el) throw new Error('Element not found');\n                        el.scrollIntoView({block:'center'});\n                        el.focus();\n                        el.click();\n                    })()"@
}

/// The script that clicks the first element the selector matches. (see `click_selector_script_text`)
pub fn click_selector_script(sel: &str) -> (r: String)
    ensures
        r@ == click_selector_script_text(sel@),
{
    let mut s = String::new();
    s = concat(&s, "(() => {\n                        const el = document.querySelector(");
    let q = json_string(sel);
    s = concat(&s, &q);
    s = concat(&s, ");\n                        if (!el) throw new Error('Element not found');\n                        el.scrollIntoView({block:'center'});\n                        el.focus();\n                        el.click();\n                    })()");
    proof {
        assert(s@ =~= click_selector_script_text(sel@));
    }
    s
}

/// The script that types `text` into the inspected element at `idx`, clearing it first and pressing Enter after as asked.
pub open spec fn type_index_script_text(idx: nat, clear: bool, text: Seq<char>, submit: bool) -> Seq<char> {
    "(() => {\n                        if (!window.__inspectedElements || !window.__inspectedElements["@ + decimal(idx) + "]) throw new Error('Element not found. Run /page/inspect first.');\n                        const el = window.__inspectedElements["@ + decimal(idx) + "];\n                        el.scrollIntoView({block:'center'});\n                        el.focus();\n                        "@ + (if clear { "el.value = '';"@ } else { Seq::empty() }) + "\n                        el.value = "@ + json_quoted(text) + ";\n                        el.dispatchEvent(new Event('input', {bubbles: true}));\n                        el.dispatchEvent(new Event('change', {bubbles: true}));\n                        "@ + (if submit { "el.dispatchEvent(new KeyboardEvent('keydown', {key:'Enter',code:'Enter',keyCode:13,bubbles:true}));"@ } else { Seq::empty() }) + "\n                    })()"@
}

/// The script that types `text` into the inspected element at `idx`, clearing it first and pressing Enter after as asked. (see `type_index_script_text`)
pub fn type_index_script(idx: u64, clear: bool, text: &str, submit: bool) -> (r: String)
    ensures
        r@ == type_index_script_text(idx as nat, clear, text@, submit),
{
    let mut s = String::new();
    s = concat(&s, "(() => {\n                        if (!window.__inspectedElements || !window.__inspectedElements[");
    let d = decimal_string(idx);
    s = concat(&s, &d);
    s = concat(&s, "]) throw new Error('Element not found. Run /page/inspect first.');\n                        const el = window.__inspectedElements[");
    let d = decimal_string(idx);
    s = concat(&s, &d);
    s = concat(&s, "];\n                        el.scrollIntoView({block:'center'});\n                        el.focus();\n                        ");
    if clear {
        s = concat(&s, "el.value = '';");
    }
    s = concat(&s, "\n                        el.value = ");
    let q = json_string(text);
    s = concat(&s, &q);
    s = concat(&s, ";\n                        el.dispatchEvent(new Event('input', {bubbles: true}));\n                        el.dispatchEvent(new Event('change', {bubbles: true}));\n                        ");
    if submit {
        s = concat(&s, "el.dispatchEvent(new KeyboardEvent('keydown', {key:'Enter',code:'Enter',keyCode:13,bubbles:true}));");
    }
    s = concat(&s, "\n                    })()");
    proof {
        assert(s@ =~= type_index_script_text(idx as nat, clear, text@, submit));
    }
    s
}

/// The script that types `text` into the first element the selector matches, clearing it first and pressing Enter after as asked.
pub open spec fn type_selector_script_text(sel: Seq<char>, clear: bool, text: Seq<char>, submit: bool) -> Seq<char> {
    "(() => {\n                        const el = document.querySelector("@ + json_quoted(sel) + ");\n                        if (!el) throw new Error('Element not found');\n                        el.scrollIntoView({block:'center'});\n                        el.focus();\n                        "@ + (if clear { "el.value = '';"@ } else { Seq::empty() }) + "\n                        el.value = "@ + json_quoted(text) + ";\n                        el.dispatchEvent(new Event('input', {bubbles: true}));\n                        el.dispatchEvent(new Event('change', {bubbles: true}));\n                        "@ + (if submit { "el.dispatchEvent(new KeyboardEvent('keydown', {key:'Enter',code:'Enter',keyCode:13,bubbles:true}));"@ } else { Seq::empty() }) + "\n                    })()"@
}

/// The script that types `text` into the first element the selector matches, clearing it first and pressing Enter after as asked. (see `type_selector_script_text`)
pub fn type_selector_script(sel: &str, clear: bool, text: &str, submit: bool) -> (r: String)
    ensures
        r@ == type_selector_script_text(sel@, clear, text@, submit),
{
    let mut s = String::new();
    s = concat(&s, "(() => {\n                        const el = document.querySelector(");
    let q = json_string(sel);
    s = concat(&s, &q);
    s = concat(&s, ");\n                        if (!el) throw new Error('Element not found');\n                        el.scrollIntoView({block:'center'});\n                        el.focus();\n                        ");
    if clear {
        s = concat(&s, "el.value = '';");
    }
    s = concat(&s, "\n                        el.value = ");
    let q = json_string(text);
    s = concat(&s, &q);
    s = concat(&s, ";\n                        el.dispatchEvent(new Event('input', {bubbles: true}));\n                        el.dispatchEvent(new Event('change', {bubbles: true}));\n                        ");
    if submit {
        s = concat(&s, "el.dispatchEvent(new KeyboardEvent('keydown', {key:'Enter',code:'Enter',keyCode:13,bubbles:true}));");
    }
    s = concat(&s, "\n                    })()");
    proof {
        assert(s@ =~= type_selector_script_text(sel@, clear, text@, submit));
    }
    s
}

/// The script that waits until the selector matches, failing after `timeout` milliseconds.
pub open spec fn wait_selector_script_text(sel: Seq<char>, timeout: nat) -> Seq<char> {
    "new Promise((resolve, reject) => {\n                        const start = Date.now();\n                        const check = () => {\n                            if (document.querySelector("@ + json_quoted(sel) + ")) return resolve(true);\n                            if (Date.now() - start > "@ + decimal(timeout) + ") return reject(new Error('Timeout'));\n                            requestAnimationFrame(check);\n                        };\n                        check();\n                    })"@
}

/// The script that waits until the selector matches, failing after `timeout` milliseconds. (see `wait_selector_script_text`)
pub fn wait_selector_script(sel: &str, timeout: u64) -> (r: String)
    ensures
        r@ == wait_selector_script_text(sel@, timeout as nat),
{
    let mut s = String::new();
    s = concat(&s, "new Promise((resolve, reject) => {\n                        const start = Date.now();\n                        const check = () => {\n                            if (document.querySelector(");
    let q = json_string(sel);
    s = concat(&s, &q);
    s = concat(&s, ")) return resolve(true);\n                            if (Date.now() - start > ");
    let d = decimal_string(timeout);
    s = concat(&s, &d);
    s = concat(&s, ") return reject(new Error('Timeout'));\n                            requestAnimationFrame(check);\n                        };\n                        check();\n                    })");
    proof {
        assert(s@ =~= wait_selector_script_text(sel@, timeout as nat));
    }
    s
}

/// The script that waits for the page to finish loading, giving up after `timeout` milliseconds.
pub open spec fn wait_load_script_text(timeout: nat) -> Seq<char> {
    "new Promise(r => {\n                                if (document.readyState === 'complete') return r(true);\n                                const t = setTimeout(() => r(false), "@ + decimal(timeout) + ");\n                                window.addEventListener('load', () => { clearTimeout(t); r(true); }, {once:true});\n                            })"@
}

/// The script that waits for the page to finish loading, giving up after `timeout` milliseconds. (see `wait_load_script_text`)
pub fn wait_load_script(timeout: u64) -> (r: String)
    ensures
        r@ == wait_load_script_text(timeout as nat),
{
    let mut s = String::new();
    s = concat(&s, "new Promise(r => {\n                                if (document.readyState === 'complete') return r(true);\n                                const t = setTimeout(() => r(false), ");
    let d = decimal_string(timeout);
    s = concat(&s, &d);
    s = concat(&s, ");\n                                window.addEventListener('load', () => { clearTimeout(t); r(true); }, {once:true});\n                            })");
    proof {
        assert(s@ =~= wait_load_script_text(timeout as nat));
    }
    s
}

/// The script that scrolls the first element the selector matches into view.
pub open spec fn scroll_into_view_script_text(sel: Seq<char>) -> Seq<char> {
    "document.querySelector("@ + json_quoted(sel) + ")?.scrollIntoView({behavior:'smooth',block:'center'})"@
}

/// The script that scrolls the first element the selector matches into view. (see `scroll_into_view_script_text`)
pub fn scroll_into_view_script(sel: &str) -> (r: String)
    ensures
        r@ == scroll_into_view_script_text(sel@),
{
    let mut s = String::new();
    s = concat(&s, "document.querySelector(");
    let q = json_string(sel);
    s = concat(&s, &q);
    s = concat(&s, ")?.scrollIntoView({behavior:'smooth',block:'center'})");
    proof {
        assert(s@ =~= scroll_into_view_script_text(sel@));
    }
    s
}

/// The script that sets the value of the first element the selector matches.
pub open spec fn fill_field_script_text(sel: Seq<char>, val: Seq<char>) -> Seq<char> {
    "(() => { const el = document.querySelector("@ + json_quoted(sel) + "); if(el){el.value="@ + json_quoted(val) + ";el.dispatchEvent(new Event('input',{bubbles:true}));} })();"@
}

/// The script that sets the value of the first element the selector matches. (see `fill_field_script_text`)
pub fn fill_field_script(sel: &str, val: &str) -> (r: String)
    ensures
        r@ == fill_field_script_text(sel@, val@),
{
    let mut s = String::new();
    s = concat(&s, "(() => { const el = document.querySelector(");
    let q = json_string(sel);
    s = concat(&s, &q);
    s = concat(&s, "); if(el){el.value=");
    let q = json_string(val);
    s = concat(&s, &q);
    s = concat(&s, ";el.dispatchEvent(new Event('input',{bubbles:true}));} })();");
    proof {
        assert(s@ =~= fill_field_script_text(sel@, val@));
    }
    s
}

/// The script that submits the first form the selector matches.
pub open spec fn submit_form_script_text(form_sel: Seq<char>) -> Seq<char> {
    "document.querySelector("@ + json_quoted(form_sel) + ")?.submit()"@
}

/// The script that submits the first form the selector matches. (see `submit_form_script_text`)
pub fn submit_form_script(form_sel: &str) -> (r: String)
    ensures
        r@ == submit_form_script_text(form_sel@),
{
    let mut s = String::new();
    s = concat(&s, "document.querySelector(");
    let q = json_string(form_sel);
    s = concat(&s, &q);
    s = concat(&s, ")?.submit()");
    proof {
        assert(s@ =~= submit_form_script_text(form_sel@));
    }
    s
}

/// The script that reads one key of a web storage.
pub open spec fn storage_get_item_script_text(storage_type: Seq<char>, k: Seq<char>) -> Seq<char> {
    storage_type + ".getItem("@ + json_quoted(k) + ")"@
}

/// The script that reads one key of a web storage. (see `storage_get_item_script_text`)
pub fn storage_get_item_script(storage_type: &str, k: &str) -> (r: String)
    ensures
        r@ == storage_get_item_script_text(storage_type@, k@),
{
    let mut s = String::new();
    s = concat(&s, storage_type);
    s = concat(&s, ".getItem(");
    let q = json_string(k);
    s = concat(&s, &q);
    s = concat(&s, ")");
    proof {
        assert(s@ =~= storage_get_item_script_text(storage_type@, k@));
    }
    s
}

/// The script that reads a whole web storage.
pub open spec fn storage_dump_script_text(storage_type: Seq<char>) -> Seq<char> {
    "JSON.stringify("@ + storage_type + ")"@
}

/// The script that reads a whole web storage. (see `storage_dump_script_text`)
pub fn storage_dump_script(storage_type: &str) -> (r: String)
    ensures
        r@ == storage_dump_script_text(storage_type@),
{
    let mut s = String::new();
    s = concat(&s, "JSON.stringify(");
    s = concat(&s, storage_type);
    s = concat(&s, ")");
    proof {
        assert(s@ =~= storage_dump_script_text(storage_type@));
    }
    s
}

/// The script that writes one key of a web storage.
pub open spec fn storage_set_item_script_text(storage_type: Seq<char>, k: Seq<char>, v: Seq<char>) -> Seq<char> {
    storage_type + ".setItem("@ + json_quoted(k) + ", "@ + json_quoted(v) + ")"@
}

/// The script that writes one key of a web storage. (see `storage_set_item_script_text`)
pub fn storage_set_item_script(storage_type: &str, k: &str, v: &str) -> (r: String)
    ensures
        r@ == storage_set_item_script_text(storage_type@, k@, v@),
{
    let mut s = String::new();
    s = concat(&s, storage_type);
    s = concat(&s, ".setItem(");
    let q = json_string(k);
    s = concat(&s, &q);
    s = concat(&s, ", ");
    let q = json_string(v);
    s = concat(&s, &q);
    s = concat(&s, ")");
    proof {
        assert(s@ =~= storage_set_item_script_text(storage_type@, k@, v@));
    }
    s
}

/// The script that removes one key of a web storage.
pub open spec fn storage_remove_item_script_text(storage_type: Seq<char>, k: Seq<char>) -> Seq<char> {
    storage_type + ".removeItem("@ + json_quoted(k) + ")"@
}

/// The script that removes one key of a web storage. (see `storage_remove_item_script_text`)
pub fn storage_remove_item_script(storage_type: &str, k: &str) -> (r: String)
    ensures
        r@ == storage_remove_item_script_text(storage_type@, k@),
{
    let mut s = String::new();
    s = concat(&s, storage_type);
    s = concat(&s, ".removeItem(");
    let q = json_string(k);
    s = concat(&s, &q);
    s = concat(&s, ")");
    proof {
        assert(s@ =~= storage_remove_item_script_text(storage_type@, k@));
    }
    s
}

/// The script that empties a web storage.
pub open spec fn storage_clear_script_text(storage_type: Seq<char>) -> Seq<char> {
    storage_type + ".clear()"@
}

/// The script that empties a web storage. (see `storage_clear_script_text`)
pub fn storage_clear_script(storage_type: &str) -> (r: String)
    ensures
        r@ == storage_clear_script_text(storage_type@),
{
    let mut s = String::new();
    s = concat(&s, storage_type);
    s = concat(&s, ".clear()");
    proof {
        assert(s@ =~= storage_clear_script_text(storage_type@));
    }
    s
}

/// The script that reads the cookie with the name.
pub open spec fn cookie_get_script_text(k: Seq<char>) -> Seq<char> {
    "(() => {\n                        var name = "@ + json_quoted(k) + " + '=';\n                        var cookies = document.cookie.split(';');\n                        for(var i=0;i<cookies.length;i++){\n                            var c = cookies[i].trim();\n                            if(c.indexOf(name)===0) return c.substring(name.length);\n                        }\n                        return null;\n                    })()"@
}

/// The script that reads the cookie with the name. (see `cookie_get_script_text`)
pub fn cookie_get_script(k: &str) -> (r: String)
    ensures
        r@ == cookie_get_script_text(k@),
{
    let mut s = String::new();
    s = concat(&s, "(() => {\n                        var name = ");
    let q = json_string(k);
    s = concat(&s, &q);
    s = concat(&s, " + '=';\n                        var cookies = document.cookie.split(';');\n                        for(var i=0;i<cookies.length;i++){\n                            var c = cookies[i].trim();\n                            if(c.indexOf(name)===0) return c.substring(name.length);\n                        }\n                        return null;\n                    })()");
    proof {
        assert(s@ =~= cookie_get_script_text(k@));
    }
    s
}

/// The `max-age` attribute of a cookie being set.
pub open spec fn max_age_part_text(a: Seq<char>) -> Seq<char> {
    ";max-age="@ + a
}

/// The `max-age` attribute of a cookie being set. (see `max_age_part_text`)
pub fn max_age_part(a: &str) -> (r: String)
    ensures
        r@ == max_age_part_text(a@),
{
    let mut s = String::new();
    s = concat(&s, ";max-age=");
    s = concat(&s, a);
    proof {
        assert(s@ =~= max_age_part_text(a@));
    }
    s
}

/// The script that sets a cookie.
pub open spec fn cookie_set_script_text(n: Seq<char>, v: Seq<char>, p: Seq<char>, age_part: Seq<char>) -> Seq<char> {
    "document.cookie = "@ + json_quoted(n) + " + '=' + "@ + json_quoted(v) + " + ';path=' + "@ + json_quoted(p) + " + '"@ + age_part + "'"@
}

/// The script that sets a cookie. (see `cookie_set_script_text`)
pub fn cookie_set_script(n: &str, v: &str, p: &str, age_part: &str) -> (r: String)
    ensures
        r@ == cookie_set_script_text(n@, v@, p@, age_part@),
{
    let mut s = String::new();
    s = concat(&s, "document.cookie = ");
    let q = json_string(n);
    s = concat(&s, &q);
    s = concat(&s, " + '=' + ");
    let q = json_string(v);
    s = concat(&s, &q);
    s = concat(&s, " + ';path=' + ");
    let q = json_string(p);
    s = concat(&s, &q);
    s = concat(&s, " + '");
    s = concat(&s, age_part);
    s = concat(&s, "'");
    proof {
        assert(s@ =~= cookie_set_script_text(n@, v@, p@, age_part@));
    }
    s
}

/// The script that expires the cookie with the name.
pub open spec fn cookie_delete_script_text(n: Seq<char>) -> Seq<char> {
    "document.cookie = "@ + json_quoted(n) + " + '=;expires=Thu, 01 Jan 1970 00:00:00 GMT;path=/'"@
}

/// The script that expires the cookie with the name. (see `cookie_delete_script_text`)
pub fn cookie_delete_script(n: &str) -> (r: String)
    ensures
        r@ == cookie_delete_script_text(n@),
{
    let mut s = String::new();
    s = concat(&s, "document.cookie = ");
    let q = json_string(n);
    s = concat(&s, &q);
    s = concat(&s, " + '=;expires=Thu, 01 Jan 1970 00:00:00 GMT;path=/'");
    proof {
        assert(s@ =~= cookie_delete_script_text(n@));
    }
    s
}

/// The script an ad redirect page runs to close its tab.
pub open spec fn close_ad_tab_script_text(tab_id: nat) -> Seq<char> {
    "setTimeout(function(){ if(window.__TAURI__) window.__TAURI__.core.invoke('tab_close', { id: "@ + decimal(tab_id) + " }); }, 100)"@
}

/// The script an ad redirect page runs to close its tab. (see `close_ad_tab_script_text`)
pub fn close_ad_tab_script(tab_id: u64) -> (r: String)
    ensures
        r@ == close_ad_tab_script_text(tab_id as nat),
{
    let mut s = String::new();
    s = concat(&s, "setTimeout(function(){ if(window.__TAURI__) window.__TAURI__.core.invoke('tab_close', { id: ");
    let d = decimal_string(tab_id);
    s = concat(&s, &d);
    s = concat(&s, " }); }, 100)");
    proof {
        assert(s@ =~= close_ad_tab_script_text(tab_id as nat));
    }
    s
}

/// The script injected into every loaded page: it reports title, url and favicon, records errors, forwards keyboard shortcuts, zooms with Ctrl and the wheel, and shows a context menu.
pub open spec fn page_hooks_script_text(tab_id: nat) -> Seq<char> {
    "setTimeout(function(){ if(window.__TAURI__){\n                            window.__TAURI__.core.invoke('webview_title_changed', { tabId: "@ + decimal(tab_id) + ", title: document.title, url: window.location.href });\n                            // Favicon detection\n                            (function(){\n                                var icon = '';\n                                var link = document.querySelector('link[rel~=\"icon\"]') || document.querySelector('link[rel=\"shortcut icon\"]');\n                                if(link) icon = link.href;\n                                else icon = window.location.origin + '/favicon.ico';\n                                if(icon) window.__TAURI__.core.invoke('tab_favicon_changed', { tabId: "@ + decimal(tab_id) + ", favicon: icon });\n                            })();\n                            // Error capture (window.onerror + unhandledrejection)\n                            if(!window.__sp_error_logs){\n                                window.__sp_error_logs = [];\n                                window.addEventListener('error', function(e){\n                                    window.__sp_error_logs.push({ type:'error', message: e.message || String(e), source: e.filename || '', line: e.lineno || 0, col: e.colno || 0, timestamp: Date.now() });\n                                });\n                                window.addEventListener('unhandledrejection', function(e){\n                                    window.__sp_error_logs.push({ type:'unhandledrejection', message: e.reason ? (e.reason.message || String(e.reason)) : 'Unknown', timestamp: Date.now() });\n                                });\n                            }\n                            // Keyboard shortcut forwarding to main UI\n                            if(!window.__sp_shortcuts){\n                                window.__sp_shortcuts = true;\n                                document.addEventListener('keydown', function(e){\n                                    var ctrl = e.ctrlKey || e.metaKey;\n                                    if(ctrl && e.key === 't'){ e.preventDefault(); window.__TAURI__.core.invoke('tab_create', {url: null}); return; }\n                                    if(ctrl && e.key === 'w'){ e.preventDefault(); window.__TAURI__.core.invoke('tab_close', {id: "@ + decimal(tab_id) + "}); return; }\n                                    if(ctrl && e.shiftKey && e.key === 'T'){ e.preventDefault(); window.__TAURI__.core.invoke('tab_restore'); return; }\n                                    if(ctrl && !e.shiftKey && e.key === 'Tab'){ e.preventDefault(); window.__TAURI__.core.invoke('tab_next'); return; }\n                                    if(ctrl && e.shiftKey && e.key === 'Tab'){ e.preventDefault(); window.__TAURI__.core.invoke('tab_prev'); return; }\n                                    if(ctrl && e.key === 'l'){ e.preventDefault(); window.__TAURI__.core.invoke('ui_action', {action: 'focus-url'}); return; }\n                                    if(ctrl && e.key === 'f'){ e.preventDefault(); window.__TAURI__.core.invoke('ui_action', {action: 'find'}); return; }\n                                    if(ctrl && e.key === 'd'){ e.preventDefault(); window.__TAURI__.core.invoke('ui_action', {action: 'bookmark'}); return; }\n                                    if(ctrl && e.key === 'h'){ e.preventDefault(); window.__TAURI__.core.invoke('ui_action', {action: 'history'}); return; }\n                                    if(ctrl && e.key === 'j'){ e.preventDefault(); window.__TAURI__.core.invoke('ui_action', {action: 'downloads'}); return; }\n                                    if(ctrl && (e.key === '=' || e.key === '+')){ e.preventDefault(); window.__TAURI__.core.invoke('zoom_in'); return; }\n                                    if(ctrl && e.key === '-'){ e.preventDefault(); window.__TAURI__.core.invoke('zoom_out'); return; }\n                                    if(ctrl && e.key === '0'){ e.preventDefault(); window.__TAURI__.core.invoke('zoom_reset'); return; }\n                                    if(e.key === 'F5' || (ctrl && e.key === 'r')){ e.preventDefault(); window.location.reload(); return; }\n                                    if(e.key === 'F11'){ e.preventDefault(); window.__TAURI__.core.invoke('window_fullscreen'); return; }\n                                    if(e.altKey && e.key === 'ArrowLeft'){ e.preventDefault(); window.history.back(); return; }\n                                    if(e.altKey && e.key === 'ArrowRight'){ e.preventDefault(); window.history.forward(); return; }\n                                });\n                            }\n                            // Ctrl+scroll zoom\n                            if(!window.__sp_ctrl_zoom){\n                                window.__sp_ctrl_zoom = true;\n                                document.addEventListener('wheel', function(e){\n                                    if(e.ctrlKey){\n                                        e.preventDefault();\n                                        if(e.deltaY < 0) window.__TAURI__.core.invoke('zoom_in');\n                                        else window.__TAURI__.core.invoke('zoom_out');\n                                    }\n                                }, { passive: false });\n                            }\n                            // Right-click context menu\n                            if(!window.__sp_ctx_menu){\n                                window.__sp_ctx_menu = true;\n                                document.addEventListener('contextmenu', function(e){\n                                    e.preventDefault();\n                                    var old = document.getElementById('__sp_ctx_menu');\n                                    if(old) old.remove();\n                                    var sel = window.getSelection().toString().trim();\n                                    var link = e.target.closest('a');\n                                    var img = e.target.closest('img');\n                                    var menu = document.createElement('div');\n                                    menu.id = '__sp_ctx_menu';\n                                    menu.style.cssText = 'position:fixed;z-index:2147483647;background:#2c2d32;border:1px solid rgba(255,255,255,0.12);border-radius:10px;padding:4px;min-width:160px;box-shadow:0 8px 24px rgba(0,0,0,0.35);font-family:-apple-system,BlinkMacSystemFont,sans-serif;font-size:13px;color:#e4e5e9;';\n                                    menu.style.left = Math.min(e.clientX, window.innerWidth - 180) + 'px';\n                                    menu.style.top = Math.min(e.clientY, window.innerHeight - 200) + 'px';\n                                    function item(label, fn){\n                                        var d = document.createElement('div');\n                                        d.textContent = label;\n                                        d.style.cssText = 'padding:7px 14px;border-radius:6px;cursor:pointer;transition:background 0.12s;';\n                                        d.onmouseenter = function(){ d.style.background='rgba(255,255,255,0.06)'; };\n                                        d.onmouseleave = function(){ d.style.background='transparent'; };\n                                        d.onclick = function(){ fn(); menu.remove(); };\n                                        menu.appendChild(d);\n                                    }\n                                    if(sel) item('Copy', function(){ navigator.clipboard.writeText(sel); });\n                                    item('Paste', function(){ navigator.clipboard.readText().then(function(t){ document.execCommand('insertText', false, t); }); });\n                                    item('Select All', function(){ document.execCommand('selectAll'); });\n                                    if(link) item('Open Link in New Tab', function(){ window.__TAURI__.core.invoke('tab_create', {url: link.href}); });\n                                    if(img) item('Save Image As...', function(){\n                                        var a = document.createElement('a'); a.href = img.src; a.download = img.alt || 'image'; a.click();\n                                    });\n                                    item('Reload', function(){ window.location.reload(); });\n                                    document.body.appendChild(menu);\n                                    var close = function(){ menu.remove(); document.removeEventListener('click', close); };\n                                    setTimeout(function(){ document.addEventListener('click', close); }, 10);\n                                });\n                            }\n                        } }, 300)"@
}

/// The script injected into every loaded page: it reports title, url and favicon, records errors, forwards keyboard shortcuts, zooms with Ctrl and the wheel, and shows a context menu. (see `page_hooks_script_text`)
pub fn page_hooks_script(tab_id: u64) -> (r: String)
    ensures
        r@ == page_hooks_script_text(tab_id as nat),
{
    let mut s = String::new();
    s = concat(&s, "setTimeout(function(){ if(window.__TAURI__){\n                            window.__TAURI__.core.invoke('webview_title_changed', { tabId: ");
    let d = decimal_string(tab_id);
    s = concat(&s, &d);
    s = concat(&s, ", title: document.title, url: window.location.href });\n                            // Favicon detection\n                            (function(){\n                                var icon = '';\n                                var link = document.querySelector('link[rel~=\"icon\"]') || document.querySelector('link[rel=\"shortcut icon\"]');\n                                if(link) icon = link.href;\n                                else icon = window.location.origin + '/favicon.ico';\n                                if(icon) window.__TAURI__.core.invoke('tab_favicon_changed', { tabId: ");
    let d = decimal_string(tab_id);
    s = concat(&s, &d);
    s = concat(&s, ", favicon: icon });\n                            })();\n                            // Error capture (window.onerror + unhandledrejection)\n                            if(!window.__sp_error_logs){\n                                window.__sp_error_logs = [];\n                                window.addEventListener('error', function(e){\n                                    window.__sp_error_logs.push({ type:'error', message: e.message || String(e), source: e.filename || '', line: e.lineno || 0, col: e.colno || 0, timestamp: Date.now() });\n                                });\n                                window.addEventListener('unhandledrejection', function(e){\n                                    window.__sp_error_logs.push({ type:'unhandledrejection', message: e.reason ? (e.reason.message || String(e.reason)) : 'Unknown', timestamp: Date.now() });\n                                });\n                            }\n                            // Keyboard shortcut forwarding to main UI\n                            if(!window.__sp_shortcuts){\n                                window.__sp_shortcuts = true;\n                                document.addEventListener('keydown', function(e){\n                                    var ctrl = e.ctrlKey || e.metaKey;\n                                    if(ctrl && e.key === 't'){ e.preventDefault(); window.__TAURI__.core.invoke('tab_create', {url: null}); return; }\n                                    if(ctrl && e.key === 'w'){ e.preventDefault(); window.__TAURI__.core.invoke('tab_close', {id: ");
    let d = decimal_string(tab_id);
    s = concat(&s, &d);
    s = concat(&s, "}); return; }\n                                    if(ctrl && e.shiftKey && e.key === 'T'){ e.preventDefault(); window.__TAURI__.core.invoke('tab_restore'); return; }\n                                    if(ctrl && !e.shiftKey && e.key === 'Tab'){ e.preventDefault(); window.__TAURI__.core.invoke('tab_next'); return; }\n                                    if(ctrl && e.shiftKey && e.key === 'Tab'){ e.preventDefault(); window.__TAURI__.core.invoke('tab_prev'); return; }\n                                    if(ctrl && e.key === 'l'){ e.preventDefault(); window.__TAURI__.core.invoke('ui_action', {action: 'focus-url'}); return; }\n                                    if(ctrl && e.key === 'f'){ e.preventDefault(); window.__TAURI__.core.invoke('ui_action', {action: 'find'}); return; }\n                                    if(ctrl && e.key === 'd'){ e.preventDefault(); window.__TAURI__.core.invoke('ui_action', {action: 'bookmark'}); return; }\n                                    if(ctrl && e.key === 'h'){ e.preventDefault(); window.__TAURI__.core.invoke('ui_action', {action: 'history'}); return; }\n                                    if(ctrl && e.key === 'j'){ e.preventDefault(); window.__TAURI__.core.invoke('ui_action', {action: 'downloads'}); return; }\n                                    if(ctrl && (e.key === '=' || e.key === '+')){ e.preventDefault(); window.__TAURI__.core.invoke('zoom_in'); return; }\n                                    if(ctrl && e.key === '-'){ e.preventDefault(); window.__TAURI__.core.invoke('zoom_out'); return; }\n                                    if(ctrl && e.key === '0'){ e.preventDefault(); window.__TAURI__.core.invoke('zoom_reset'); return; }\n                                    if(e.key === 'F5' || (ctrl && e.key === 'r')){ e.preventDefault(); window.location.reload(); return; }\n                                    if(e.key === 'F11'){ e.preventDefault(); window.__TAURI__.core.invoke('window_fullscreen'); return; }\n                                    if(e.altKey && e.key === 'ArrowLeft'){ e.preventDefault(); window.history.back(); return; }\n                                    if(e.altKey && e.key === 'ArrowRight'){ e.preventDefault(); window.history.forward(); return; }\n                                });\n                            }\n                            // Ctrl+scroll zoom\n                            if(!window.__sp_ctrl_zoom){\n                                window.__sp_ctrl_zoom = true;\n                                document.addEventListener('wheel', function(e){\n                                    if(e.ctrlKey){\n                                        e.preventDefault();\n                                        if(e.deltaY < 0) window.__TAURI__.core.invoke('zoom_in');\n                                        else window.__TAURI__.core.invoke('zoom_out');\n                                    }\n                                }, { passive: false });\n                            }\n                            // Right-click context menu\n                            if(!window.__sp_ctx_menu){\n                                window.__sp_ctx_menu = true;\n                                document.addEventListener('contextmenu', function(e){\n                                    e.preventDefault();\n                                    var old = document.getElementById('__sp_ctx_menu');\n                                    if(old) old.remove();\n                                    var sel = window.getSelection().toString().trim();\n                                    var link = e.target.closest('a');\n                                    var img = e.target.closest('img');\n                                    var menu = document.createElement('div');\n                                    menu.id = '__sp_ctx_menu';\n                                    menu.style.cssText = 'position:fixed;z-index:2147483647;background:#2c2d32;border:1px solid rgba(255,255,255,0.12);border-radius:10px;padding:4px;min-width:160px;box-shadow:0 8px 24px rgba(0,0,0,0.35);font-family:-apple-system,BlinkMacSystemFont,sans-serif;font-size:13px;color:#e4e5e9;';\n                                    menu.style.left = Math.min(e.clientX, window.innerWidth - 180) + 'px';\n                                    menu.style.top = Math.min(e.clientY, window.innerHeight - 200) + 'px';\n                                    function item(label, fn){\n                                        var d = document.createElement('div');\n                                        d.textContent = label;\n                                        d.style.cssText = 'padding:7px 14px;border-radius:6px;cursor:pointer;transition:background 0.12s;';\n                                        d.onmouseenter = function(){ d.style.background='rgba(255,255,255,0.06)'; };\n                                        d.onmouseleave = function(){ d.style.background='transparent'; };\n                                        d.onclick = function(){ fn(); menu.remove(); };\n                                        menu.appendChild(d);\n                                    }\n                                    if(sel) item('Copy', function(){ navigator.clipboard.writeText(sel); });\n                                    item('Paste', function(){ navigator.clipboard.readText().then(function(t){ document.execCommand('insertText', false, t); }); });\n                                    item('Select All', function(){ document.execCommand('selectAll'); });\n                                    if(link) item('Open Link in New Tab', function(){ window.__TAURI__.core.invoke('tab_create', {url: link.href}); });\n                                    if(img) item('Save Image As...', function(){\n                                        var a = document.createElement('a'); a.href = img.src; a.download = img.alt || 'image'; a.click();\n                                    });\n                                    item('Reload', function(){ window.location.reload(); });\n                                    document.body.appendChild(menu);\n                                    var close = function(){ menu.remove(); document.removeEventListener('click', close); };\n                                    setTimeout(function(){ document.addEventListener('click', close); }, 10);\n                                });\n                            }\n                        } }, 300)");
    proof {
        assert(s@ =~= page_hooks_script_text(tab_id as nat));
    }
    s
}

/// The script that translates the page text into `lang`, showing progress under `label`.
pub open spec fn translate_script_text(lang: Seq<char>, label: Seq<char>) -> Seq<char> {
    "(async function() {\n                var LANG = '"@ + lang + "';\n                var LANG_LABEL = '"@ + label + "';\n                var SKIP = new Set(['SCRIPT','STYLE','NOSCRIPT','CODE','PRE','TEXTAREA','INPUT','SVG','MATH','KBD']);\n                var prev = document.getElementById('__sp_translate_bar');\n                if (prev) { prev.querySelector('.__sp_close').click(); }\n                var nodes = [];\n                function walk(el) {\n                    for (var i = 0; i < el.childNodes.length; i++) {\n                        var n = el.childNodes[i];\n                        if (n.nodeType === 3) {\n                            var t = n.textContent.trim();\n                            if (t.length >= 2) nodes.push({ node: n, original: n.textContent });\n                        } else if (n.nodeType === 1 && !SKIP.has(n.tagName) && n.id !== '__sp_translate_bar') {\n                            walk(n);\n                        }\n                    }\n                }\n                walk(document.body);\n                if (nodes.length === 0) return;\n                var bar = document.createElement('div');\n                bar.id = '__sp_translate_bar';\n                bar.style.cssText = 'position:fixed;top:0;left:0;right:0;height:34px;background:#25262b;border-bottom:2px solid rgba(124,92,252,0.4);display:flex;align-items:center;padding:0 14px;gap:10px;z-index:2147483647;font-family:-apple-system,BlinkMacSystemFont,sans-serif;font-size:13px;color:#e4e5e9;box-shadow:0 2px 8px rgba(0,0,0,0.3);';\n                var status = document.createElement('span');\n                status.textContent = LANG_LABEL + ' 번역 중...';\n                status.style.color = '#7c5cfc';\n                bar.appendChild(status);\n                var spacer = document.createElement('div');\n                spacer.style.flex = '1';\n                bar.appendChild(spacer);\n                var closeBtn = document.createElement('button');\n                closeBtn.className = '__sp_close';\n                closeBtn.style.cssText = 'background:none;border:1px solid rgba(255,255,255,0.1);color:#8b8d93;cursor:pointer;font-size:12px;padding:4px 10px;border-radius:6px;font-family:inherit;';\n                closeBtn.textContent = '원문 보기';\n                closeBtn.onclick = function() {\n                    nodes.forEach(function(e) { e.node.textContent = e.original; });\n                    bar.remove();\n                    document.body.style.marginTop = oldMargin;\n                };\n                bar.appendChild(closeBtn);\n                var oldMargin = document.body.style.marginTop || '';\n                document.body.prepend(bar);\n                document.body.style.marginTop = (parseInt(oldMargin || '0') + 34) + 'px';\n                var CHUNK = 40;\n                var done = 0;\n                for (var i = 0; i < nodes.length; i += CHUNK) {\n                    var chunk = nodes.slice(i, i + CHUNK);\n                    var texts = chunk.map(function(e) { return e.original.trim(); });\n                    var joined = texts.join('\\\\n');\n                    try {\n                        var resp = await fetch('https://translate.googleapis.com/translate_a/single?client=gtx&sl=auto&tl=' + LANG + '&dt=t&dj=1&q=' + encodeURIComponent(joined));\n                        var data = await resp.json();\n                        if (data.sentences) {\n                            var full = data.sentences.filter(function(s) { return s.trans; }).map(function(s) { return s.trans; }).join('');\n                            var parts = full.split('\\\\n');\n                            chunk.forEach(function(el, idx) {\n                                if (parts[idx] !== undefined && parts[idx] !== '') {\n                                    el.node.textContent = el.original.replace(el.original.trim(), parts[idx]);\n                                }\n                            });\n                        }\n                    } catch (err) { console.error('Translate chunk error:', err); }\n                    done += chunk.length;\n                    status.textContent = LANG_LABEL + ' 번역 중... (' + Math.min(done, nodes.length) + '/' + nodes.length + ')';\n                }\n                status.textContent = LANG_LABEL + '로 번역 완료';\n                status.style.color = '#5ce0d8';\n            })()"@
}

/// The script that translates the page text into `lang`, showing progress under `label`. (see `translate_script_text`)
pub fn translate_script(lang: &str, label: &str) -> (r: String)
    ensures
        r@ == translate_script_text(lang@, label@),
{
    let mut s = String::new();
    s = concat(&s, "(async function() {\n                var LANG = '");
    s = concat(&s, lang);
    s = concat(&s, "';\n                var LANG_LABEL = '");
    s = concat(&s, label);
    s = concat(&s, "';\n                var SKIP = new Set(['SCRIPT','STYLE','NOSCRIPT','CODE','PRE','TEXTAREA','INPUT','SVG','MATH','KBD']);\n                var prev = document.getElementById('__sp_translate_bar');\n                if (prev) { prev.querySelector('.__sp_close').click(); }\n                var nodes = [];\n                function walk(el) {\n                    for (var i = 0; i < el.childNodes.length; i++) {\n                        var n = el.childNodes[i];\n                        if (n.nodeType === 3) {\n                            var t = n.textContent.trim();\n                            if (t.length >= 2) nodes.push({ node: n, original: n.textContent });\n                        } else if (n.nodeType === 1 && !SKIP.has(n.tagName) && n.id !== '__sp_translate_bar') {\n                            walk(n);\n                        }\n                    }\n                }\n                walk(document.body);\n                if (nodes.length === 0) return;\n                var bar = document.createElement('div');\n                bar.id = '__sp_translate_bar';\n                bar.style.cssText = 'position:fixed;top:0;left:0;right:0;height:34px;background:#25262b;border-bottom:2px solid rgba(124,92,252,0.4);display:flex;align-items:center;padding:0 14px;gap:10px;z-index:2147483647;font-family:-apple-system,BlinkMacSystemFont,sans-serif;font-size:13px;color:#e4e5e9;box-shadow:0 2px 8px rgba(0,0,0,0.3);';\n                var status = document.createElement('span');\n                status.textContent = LANG_LABEL + ' 번역 중...';\n                status.style.color = '#7c5cfc';\n                bar.appendChild(status);\n                var spacer = document.createElement('div');\n                spacer.style.flex = '1';\n                bar.appendChild(spacer);\n                var closeBtn = document.createElement('button');\n                closeBtn.className = '__sp_close';\n                closeBtn.style.cssText = 'background:none;border:1px solid rgba(255,255,255,0.1);color:#8b8d93;cursor:pointer;font-size:12px;padding:4px 10px;border-radius:6px;font-family:inherit;';\n                closeBtn.textContent = '원문 보기';\n                closeBtn.onclick = function() {\n                    nodes.forEach(function(e) { e.node.textContent = e.original; });\n                    bar.remove();\n                    document.body.style.marginTop = oldMargin;\n                };\n                bar.appendChild(closeBtn);\n                var oldMargin = document.body.style.marginTop || '';\n                document.body.prepend(bar);\n                document.body.style.marginTop = (parseInt(oldMargin || '0') + 34) + 'px';\n                var CHUNK = 40;\n                var done = 0;\n                for (var i = 0; i < nodes.length; i += CHUNK) {\n                    var chunk = nodes.slice(i, i + CHUNK);\n                    var texts = chunk.map(function(e) { return e.original.trim(); });\n                    var joined = texts.join('\\\\n');\n                    try {\n                        var resp = await fetch('https://translate.googleapis.com/translate_a/single?client=gtx&sl=auto&tl=' + LANG + '&dt=t&dj=1&q=' + encodeURIComponent(joined));\n                        var data = await resp.json();\n                        if (data.sentences) {\n                            var full = data.sentences.filter(function(s) { return s.trans; }).map(function(s) { return s.trans; }).join('');\n                            var parts = full.split('\\\\n');\n                            chunk.forEach(function(el, idx) {\n                                if (parts[idx] !== undefined && parts[idx] !== '') {\n                                    el.node.textContent = el.original.replace(el.original.trim(), parts[idx]);\n                                }\n                            });\n                        }\n                    } catch (err) { console.error('Translate chunk error:', err); }\n                    done += chunk.length;\n                    status.textContent = LANG_LABEL + ' 번역 중... (' + Math.min(done, nodes.length) + '/' + nodes.length + ')';\n                }\n                status.textContent = LANG_LABEL + '로 번역 완료';\n                status.style.color = '#5ce0d8';\n            })()");
    proof {
        assert(s@ =~= translate_script_text(lang@, label@));
    }
    s
}

} // verus!
