use sumplayer::scripts::{click_index_script, click_selector_script, close_ad_tab_script, cookie_age_part, cookie_delete_script, cookie_get_script, cookie_set_script, fill_field_script, inspect_scope, inspect_scope_query, inspect_script, max_age_part, page_hooks_script, scroll_into_view_script, storage_clear_script, storage_dump_script, storage_get_item_script, storage_remove_item_script, storage_set_item_script, submit_form_script, translate_script, type_index_script, type_selector_script, wait_load_script, wait_selector_script};

#[test]
fn inspect_scope_query_matches_template() {
    assert_eq!(inspect_scope_query("it's \"q\" \\ \n\t\u{7}/é"), "document.querySelector(\"it's \\\"q\\\" \\\\ \\n\\t\\u0007/é\") || document");
}

#[test]
fn inspect_script_matches_template() {
    assert_eq!(inspect_script("document"), "(() => {\n                    const scope = document;\n                    const selectors = 'a[href], button, input, textarea, select, [role=\"button\"], [onclick], [tabindex]';\n                    const els = Array.from(scope.querySelectorAll(selectors));\n                    const visible = els.filter(el => {\n                        const r = el.getBoundingClientRect();\n                        const s = getComputedStyle(el);\n                        return r.width > 0 && r.height > 0 && s.visibility !== 'hidden' && s.display !== 'none';\n                    });\n                    window.__inspectedElements = visible;\n                    return JSON.stringify({\n                        count: visible.length,\n                        elements: visible.map((el, i) => {\n                            const r = el.getBoundingClientRect();\n                            return {\n                                index: i,\n                                tag: el.tagName.toLowerCase(),\n                                type: el.getAttribute('type') || '',\n                                id: el.id || '',\n                                name: el.getAttribute('name') || '',\n                                text: (el.innerText || el.value || el.getAttribute('aria-label') || el.getAttribute('title') || el.placeholder || '').substring(0, 80).trim(),\n                                href: el.getAttribute('href') || '',\n                                placeholder: el.getAttribute('placeholder') || '',\n                                role: el.getAttribute('role') || '',\n                                bounds: { x: Math.round(r.x), y: Math.round(r.y), w: Math.round(r.width), h: Math.round(r.height) }\n                            };\n                        })\n                    });\n                })()");
}

#[test]
fn click_index_script_matches_template() {
    assert_eq!(click_index_script(42), "(() => {\n                        if (!window.__inspectedElements || !window.__inspectedElements[42]) throw new Error('Element not found. Run /page/inspect first.');\n                        const el = window.__inspectedElements[42];\n                        el.scrollIntoView({block:'center'});\n                        el.focus();\n                        el.click();\n                    })()");
}

#[test]
fn click_selector_script_matches_template() {
    assert_eq!(click_selector_script("it's \"q\" \\ \n\t\u{7}/é"), "(() => {\n                        const el = document.querySelector(\"it's \\\"q\\\" \\\\ \\n\\t\\u0007/é\");\n                        if (!el) throw new Error('Element not found');\n                        el.scrollIntoView({block:'center'});\n                        el.focus();\n                        el.click();\n                    })()");
}

#[test]
fn type_index_script_matches_template() {
    assert_eq!(type_index_script(42, true, "it's \"q\" \\ \n\t\u{7}/é", false), "(() => {\n                        if (!window.__inspectedElements || !window.__inspectedElements[42]) throw new Error('Element not found. Run /page/inspect first.');\n                        const el = window.__inspectedElements[42];\n                        el.scrollIntoView({block:'center'});\n                        el.focus();\n                        el.value = '';\n                        el.value = \"it's \\\"q\\\" \\\\ \\n\\t\\u0007/é\";\n                        el.dispatchEvent(new Event('input', {bubbles: true}));\n                        el.dispatchEvent(new Event('change', {bubbles: true}));\n                        \n                    })()");
}

#[test]
fn type_selector_script_matches_template() {
    assert_eq!(type_selector_script("it's \"q\" \\ \n\t\u{7}/é", true, "it's \"q\" \\ \n\t\u{7}/é", false), "(() => {\n                        const el = document.querySelector(\"it's \\\"q\\\" \\\\ \\n\\t\\u0007/é\");\n                        if (!el) throw new Error('Element not found');\n                        el.scrollIntoView({block:'center'});\n                        el.focus();\n                        el.value = '';\n                        el.value = \"it's \\\"q\\\" \\\\ \\n\\t\\u0007/é\";\n                        el.dispatchEvent(new Event('input', {bubbles: true}));\n                        el.dispatchEvent(new Event('change', {bubbles: true}));\n                        \n                    })()");
}

#[test]
fn wait_selector_script_matches_template() {
    assert_eq!(wait_selector_script("it's \"q\" \\ \n\t\u{7}/é", 42), "new Promise((resolve, reject) => {\n                        const start = Date.now();\n                        const check = () => {\n                            if (document.querySelector(\"it's \\\"q\\\" \\\\ \\n\\t\\u0007/é\")) return resolve(true);\n                            if (Date.now() - start > 42) return reject(new Error('Timeout'));\n                            requestAnimationFrame(check);\n                        };\n                        check();\n                    })");
}

#[test]
fn wait_load_script_matches_template() {
    assert_eq!(wait_load_script(42), "new Promise(r => {\n                                if (document.readyState === 'complete') return r(true);\n                                const t = setTimeout(() => r(false), 42);\n                                window.addEventListener('load', () => { clearTimeout(t); r(true); }, {once:true});\n                            })");
}

#[test]
fn scroll_into_view_script_matches_template() {
    assert_eq!(scroll_into_view_script("it's \"q\" \\ \n\t\u{7}/é"), "document.querySelector(\"it's \\\"q\\\" \\\\ \\n\\t\\u0007/é\")?.scrollIntoView({behavior:'smooth',block:'center'})");
}

#[test]
fn fill_field_script_matches_template() {
    assert_eq!(fill_field_script("it's \"q\" \\ \n\t\u{7}/é", "it's \"q\" \\ \n\t\u{7}/é"), "(() => { const el = document.querySelector(\"it's \\\"q\\\" \\\\ \\n\\t\\u0007/é\"); if(el){el.value=\"it's \\\"q\\\" \\\\ \\n\\t\\u0007/é\";el.dispatchEvent(new Event('input',{bubbles:true}));} })();");
}

#[test]
fn submit_form_script_matches_template() {
    assert_eq!(submit_form_script("it's \"q\" \\ \n\t\u{7}/é"), "document.querySelector(\"it's \\\"q\\\" \\\\ \\n\\t\\u0007/é\")?.submit()");
}

#[test]
fn storage_get_item_script_matches_template() {
    assert_eq!(storage_get_item_script("sessionStorage", "it's \"q\" \\ \n\t\u{7}/é"), "sessionStorage.getItem(\"it's \\\"q\\\" \\\\ \\n\\t\\u0007/é\")");
}

#[test]
fn storage_dump_script_matches_template() {
    assert_eq!(storage_dump_script("sessionStorage"), "JSON.stringify(sessionStorage)");
}

#[test]
fn storage_set_item_script_matches_template() {
    assert_eq!(storage_set_item_script("sessionStorage", "it's \"q\" \\ \n\t\u{7}/é", "it's \"q\" \\ \n\t\u{7}/é"), "sessionStorage.setItem(\"it's \\\"q\\\" \\\\ \\n\\t\\u0007/é\", \"it's \\\"q\\\" \\\\ \\n\\t\\u0007/é\")");
}

#[test]
fn storage_remove_item_script_matches_template() {
    assert_eq!(storage_remove_item_script("sessionStorage", "it's \"q\" \\ \n\t\u{7}/é"), "sessionStorage.removeItem(\"it's \\\"q\\\" \\\\ \\n\\t\\u0007/é\")");
}

#[test]
fn storage_clear_script_matches_template() {
    assert_eq!(storage_clear_script("sessionStorage"), "sessionStorage.clear()");
}

#[test]
fn cookie_get_script_matches_template() {
    assert_eq!(cookie_get_script("it's \"q\" \\ \n\t\u{7}/é"), "(() => {\n                        var name = \"it's \\\"q\\\" \\\\ \\n\\t\\u0007/é\" + '=';\n                        var cookies = document.cookie.split(';');\n                        for(var i=0;i<cookies.length;i++){\n                            var c = cookies[i].trim();\n                            if(c.indexOf(name)===0) return c.substring(name.length);\n                        }\n                        return null;\n                    })()");
}

#[test]
fn max_age_part_matches_template() {
    assert_eq!(max_age_part("3600"), ";max-age=3600");
}

#[test]
fn cookie_set_script_matches_template() {
    assert_eq!(cookie_set_script("it's \"q\" \\ \n\t\u{7}/é", "it's \"q\" \\ \n\t\u{7}/é", "it's \"q\" \\ \n\t\u{7}/é", ";max-age=60"), "document.cookie = \"it's \\\"q\\\" \\\\ \\n\\t\\u0007/é\" + '=' + \"it's \\\"q\\\" \\\\ \\n\\t\\u0007/é\" + ';path=' + \"it's \\\"q\\\" \\\\ \\n\\t\\u0007/é\" + ';max-age=60'");
}

#[test]
fn cookie_delete_script_matches_template() {
    assert_eq!(cookie_delete_script("it's \"q\" \\ \n\t\u{7}/é"), "document.cookie = \"it's \\\"q\\\" \\\\ \\n\\t\\u0007/é\" + '=;expires=Thu, 01 Jan 1970 00:00:00 GMT;path=/'");
}

#[test]
fn close_ad_tab_script_matches_template() {
    assert_eq!(close_ad_tab_script(42), "setTimeout(function(){ if(window.__TAURI__) window.__TAURI__.core.invoke('tab_close', { id: 42 }); }, 100)");
}

#[test]
fn page_hooks_script_matches_template() {
    assert_eq!(page_hooks_script(42), "setTimeout(function(){ if(window.__TAURI__){\n                            window.__TAURI__.core.invoke('webview_title_changed', { tabId: 42, title: document.title, url: window.location.href });\n                            // Favicon detection\n                            (function(){\n                                var icon = '';\n                                var link = document.querySelector('link[rel~=\"icon\"]') || document.querySelector('link[rel=\"shortcut icon\"]');\n                                if(link) icon = link.href;\n                                else icon = window.location.origin + '/favicon.ico';\n                                if(icon) window.__TAURI__.core.invoke('tab_favicon_changed', { tabId: 42, favicon: icon });\n                            })();\n                            // Error capture (window.onerror + unhandledrejection)\n                            if(!window.__sp_error_logs){\n                                window.__sp_error_logs = [];\n                                window.addEventListener('error', function(e){\n                                    window.__sp_error_logs.push({ type:'error', message: e.message || String(e), source: e.filename || '', line: e.lineno || 0, col: e.colno || 0, timestamp: Date.now() });\n                                });\n                                window.addEventListener('unhandledrejection', function(e){\n                                    window.__sp_error_logs.push({ type:'unhandledrejection', message: e.reason ? (e.reason.message || String(e.reason)) : 'Unknown', timestamp: Date.now() });\n                                });\n                            }\n                            // Keyboard shortcut forwarding to main UI\n                            if(!window.__sp_shortcuts){\n                                window.__sp_shortcuts = true;\n                                document.addEventListener('keydown', function(e){\n                                    var ctrl = e.ctrlKey || e.metaKey;\n                                    if(ctrl && e.key === 't'){ e.preventDefault(); window.__TAURI__.core.invoke('tab_create', {url: null}); return; }\n                                    if(ctrl && e.key === 'w'){ e.preventDefault(); window.__TAURI__.core.invoke('tab_close', {id: 42}); return; }\n                                    if(ctrl && e.shiftKey && e.key === 'T'){ e.preventDefault(); window.__TAURI__.core.invoke('tab_restore'); return; }\n                                    if(ctrl && !e.shiftKey && e.key === 'Tab'){ e.preventDefault(); window.__TAURI__.core.invoke('tab_next'); return; }\n                                    if(ctrl && e.shiftKey && e.key === 'Tab'){ e.preventDefault(); window.__TAURI__.core.invoke('tab_prev'); return; }\n                                    if(ctrl && e.key === 'l'){ e.preventDefault(); window.__TAURI__.core.invoke('ui_action', {action: 'focus-url'}); return; }\n                                    if(ctrl && e.key === 'f'){ e.preventDefault(); window.__TAURI__.core.invoke('ui_action', {action: 'find'}); return; }\n                                    if(ctrl && e.key === 'd'){ e.preventDefault(); window.__TAURI__.core.invoke('ui_action', {action: 'bookmark'}); return; }\n                                    if(ctrl && e.key === 'h'){ e.preventDefault(); window.__TAURI__.core.invoke('ui_action', {action: 'history'}); return; }\n                                    if(ctrl && e.key === 'j'){ e.preventDefault(); window.__TAURI__.core.invoke('ui_action', {action: 'downloads'}); return; }\n                                    if(ctrl && (e.key === '=' || e.key === '+')){ e.preventDefault(); window.__TAURI__.core.invoke('zoom_in'); return; }\n                                    if(ctrl && e.key === '-'){ e.preventDefault(); window.__TAURI__.core.invoke('zoom_out'); return; }\n                                    if(ctrl && e.key === '0'){ e.preventDefault(); window.__TAURI__.core.invoke('zoom_reset'); return; }\n                                    if(e.key === 'F5' || (ctrl && e.key === 'r')){ e.preventDefault(); window.location.reload(); return; }\n                                    if(e.key === 'F11'){ e.preventDefault(); window.__TAURI__.core.invoke('window_fullscreen'); return; }\n                                    if(e.altKey && e.key === 'ArrowLeft'){ e.preventDefault(); window.history.back(); return; }\n                                    if(e.altKey && e.key === 'ArrowRight'){ e.preventDefault(); window.history.forward(); return; }\n                                });\n                            }\n                            // Ctrl+scroll zoom\n                            if(!window.__sp_ctrl_zoom){\n                                window.__sp_ctrl_zoom = true;\n                                document.addEventListener('wheel', function(e){\n                                    if(e.ctrlKey){\n                                        e.preventDefault();\n                                        if(e.deltaY < 0) window.__TAURI__.core.invoke('zoom_in');\n                                        else window.__TAURI__.core.invoke('zoom_out');\n                                    }\n                                }, { passive: false });\n                            }\n                            // Right-click context menu\n                            if(!window.__sp_ctx_menu){\n                                window.__sp_ctx_menu = true;\n                                document.addEventListener('contextmenu', function(e){\n                                    e.preventDefault();\n                                    var old = document.getElementById('__sp_ctx_menu');\n                                    if(old) old.remove();\n                                    var sel = window.getSelection().toString().trim();\n                                    var link = e.target.closest('a');\n                                    var img = e.target.closest('img');\n                                    var menu = document.createElement('div');\n                                    menu.id = '__sp_ctx_menu';\n                                    menu.style.cssText = 'position:fixed;z-index:2147483647;background:#2c2d32;border:1px solid rgba(255,255,255,0.12);border-radius:10px;padding:4px;min-width:160px;box-shadow:0 8px 24px rgba(0,0,0,0.35);font-family:-apple-system,BlinkMacSystemFont,sans-serif;font-size:13px;color:#e4e5e9;';\n                                    menu.style.left = Math.min(e.clientX, window.innerWidth - 180) + 'px';\n                                    menu.style.top = Math.min(e.clientY, window.innerHeight - 200) + 'px';\n                                    function item(label, fn){\n                                        var d = document.createElement('div');\n                                        d.textContent = label;\n                                        d.style.cssText = 'padding:7px 14px;border-radius:6px;cursor:pointer;transition:background 0.12s;';\n                                        d.onmouseenter = function(){ d.style.background='rgba(255,255,255,0.06)'; };\n                                        d.onmouseleave = function(){ d.style.background='transparent'; };\n                                        d.onclick = function(){ fn(); menu.remove(); };\n                                        menu.appendChild(d);\n                                    }\n                                    if(sel) item('Copy', function(){ navigator.clipboard.writeText(sel); });\n                                    item('Paste', function(){ navigator.clipboard.readText().then(function(t){ document.execCommand('insertText', false, t); }); });\n                                    item('Select All', function(){ document.execCommand('selectAll'); });\n                                    if(link) item('Open Link in New Tab', function(){ window.__TAURI__.core.invoke('tab_create', {url: link.href}); });\n                                    if(img) item('Save Image As...', function(){\n                                        var a = document.createElement('a'); a.href = img.src; a.download = img.alt || 'image'; a.click();\n                                    });\n                                    item('Reload', function(){ window.location.reload(); });\n                                    document.body.appendChild(menu);\n                                    var close = function(){ menu.remove(); document.removeEventListener('click', close); };\n                                    setTimeout(function(){ document.addEventListener('click', close); }, 10);\n                                });\n                            }\n                        } }, 300)");
}

#[test]
fn translate_script_matches_template() {
    assert_eq!(translate_script("ko", "한국어"), "(async function() {\n                var LANG = 'ko';\n                var LANG_LABEL = '한국어';\n                var SKIP = new Set(['SCRIPT','STYLE','NOSCRIPT','CODE','PRE','TEXTAREA','INPUT','SVG','MATH','KBD']);\n                var prev = document.getElementById('__sp_translate_bar');\n                if (prev) { prev.querySelector('.__sp_close').click(); }\n                var nodes = [];\n                function walk(el) {\n                    for (var i = 0; i < el.childNodes.length; i++) {\n                        var n = el.childNodes[i];\n                        if (n.nodeType === 3) {\n                            var t = n.textContent.trim();\n                            if (t.length >= 2) nodes.push({ node: n, original: n.textContent });\n                        } else if (n.nodeType === 1 && !SKIP.has(n.tagName) && n.id !== '__sp_translate_bar') {\n                            walk(n);\n                        }\n                    }\n                }\n                walk(document.body);\n                if (nodes.length === 0) return;\n                var bar = document.createElement('div');\n                bar.id = '__sp_translate_bar';\n                bar.style.cssText = 'position:fixed;top:0;left:0;right:0;height:34px;background:#25262b;border-bottom:2px solid rgba(124,92,252,0.4);display:flex;align-items:center;padding:0 14px;gap:10px;z-index:2147483647;font-family:-apple-system,BlinkMacSystemFont,sans-serif;font-size:13px;color:#e4e5e9;box-shadow:0 2px 8px rgba(0,0,0,0.3);';\n                var status = document.createElement('span');\n                status.textContent = LANG_LABEL + ' 번역 중...';\n                status.style.color = '#7c5cfc';\n                bar.appendChild(status);\n                var spacer = document.createElement('div');\n                spacer.style.flex = '1';\n                bar.appendChild(spacer);\n                var closeBtn = document.createElement('button');\n                closeBtn.className = '__sp_close';\n                closeBtn.style.cssText = 'background:none;border:1px solid rgba(255,255,255,0.1);color:#8b8d93;cursor:pointer;font-size:12px;padding:4px 10px;border-radius:6px;font-family:inherit;';\n                closeBtn.textContent = '원문 보기';\n                closeBtn.onclick = function() {\n                    nodes.forEach(function(e) { e.node.textContent = e.original; });\n                    bar.remove();\n                    document.body.style.marginTop = oldMargin;\n                };\n                bar.appendChild(closeBtn);\n                var oldMargin = document.body.style.marginTop || '';\n                document.body.prepend(bar);\n                document.body.style.marginTop = (parseInt(oldMargin || '0') + 34) + 'px';\n                var CHUNK = 40;\n                var done = 0;\n                for (var i = 0; i < nodes.length; i += CHUNK) {\n                    var chunk = nodes.slice(i, i + CHUNK);\n                    var texts = chunk.map(function(e) { return e.original.trim(); });\n                    var joined = texts.join('\\\\n');\n                    try {\n                        var resp = await fetch('https://translate.googleapis.com/translate_a/single?client=gtx&sl=auto&tl=' + LANG + '&dt=t&dj=1&q=' + encodeURIComponent(joined));\n                        var data = await resp.json();\n                        if (data.sentences) {\n                            var full = data.sentences.filter(function(s) { return s.trans; }).map(function(s) { return s.trans; }).join('');\n                            var parts = full.split('\\\\n');\n                            chunk.forEach(function(el, idx) {\n                                if (parts[idx] !== undefined && parts[idx] !== '') {\n                                    el.node.textContent = el.original.replace(el.original.trim(), parts[idx]);\n                                }\n                            });\n                        }\n                    } catch (err) { console.error('Translate chunk error:', err); }\n                    done += chunk.length;\n                    status.textContent = LANG_LABEL + ' 번역 중... (' + Math.min(done, nodes.length) + '/' + nodes.length + ')';\n                }\n                status.textContent = LANG_LABEL + '로 번역 완료';\n                status.style.color = '#5ce0d8';\n            })()");
}

#[test]
fn scope_and_age_parts() {
    assert_eq!(inspect_scope(None), "document");
    assert_eq!(inspect_scope(Some("#main")), "document.querySelector(\"#main\") || document");
    assert_eq!(cookie_age_part(None), "");
    assert_eq!(cookie_age_part(Some("10")), ";max-age=10");
}

#[test]
fn type_script_with_submit() {
    let s = type_selector_script("#q", false, "rust", true);
    assert!(s.contains("el.value = \"rust\";"));
    assert!(s.contains("keyCode:13"));
    assert!(!s.contains("el.value = '';"));
}
