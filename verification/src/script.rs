use vstd::prelude::*;

use crate::text::{decimal, decimal_string, join3};

verus! {

// ---------------------------------------------------------------------------
// The scripts that the commands run in the Discord Web page
// ---------------------------------------------------------------------------

/// Scrolls the channel list to its top and reports its dimensions.
pub const CHANNEL_LIST_SCROLL_INFO: &'static str = r#"JSON.stringify((function() {
    var all = document.querySelectorAll('[class*=scroller]');
    var best = null;
    var bestH = 0;
    for (var i = 0; i < all.length; i++) {
        var el = all[i];
        if (el.scrollHeight > el.clientHeight && el.scrollHeight > bestH) {
            if (el.querySelector('[data-list-item-id^=channels___]')) {
                best = el;
                bestH = el.scrollHeight;
            }
        }
    }
    if (!best) { return { scroll_height: 0, client_height: 0 }; }
    best.scrollTop = 0;
    return { scroll_height: best.scrollHeight, client_height: best.clientHeight };
})())"#;

/// Clicks the first server whose name contains the target, unless it is already selected (the part before the argument)
pub const SERVER_SWITCH_HEAD: &'static str = r#"JSON.stringify((function(target) {
                var target_lower = target.toLowerCase();
                var items = document.querySelectorAll('[data-list-item-id*="guildsnav___"]');
                for (var i = 0; i < items.length; i++) {
                    var el = items[i];
                    var listId = el.getAttribute('data-list-item-id') || '';
                    if (!/guildsnav___\d{10,}/.test(listId)) continue;
                    var name = (el.textContent || '').trim();
                    name = name.replace(/^[\d][\d,.]*\s*[^\uff0c,]*[\uff0c,]\s*/, '');
                    name = name.trim();
                    if (name.toLowerCase().indexOf(target_lower) === -1) continue;
                    var cls = el.getAttribute('class') || '';
                    if (cls.indexOf('selected') !== -1) {
                        return { status: 'already_on' };
                    }
                    el.click();
                    return { status: 'switched' };
                }
                return { status: 'not_found' };
            })("#;

/// Clicks the first server whose name contains the target, unless it is already selected (the part after the argument)
pub const SERVER_SWITCH_TAIL: &'static str = r#"))"#;

/// Clicks the first visible channel whose name contains the target (the part before the argument)
pub const CHANNEL_CLICK_HEAD: &'static str = r#"JSON.stringify((function(target) {
                var target_lower = target.toLowerCase();
                var els = document.querySelectorAll('[data-list-item-id^=channels___]');
                for (var i = 0; i < els.length; i++) {
                    var el = els[i];
                    var label = (el.getAttribute('aria-label') || el.textContent || '').trim();
                    var commaIdx = label.search(/[,\uFF0C]/);
                    var name = commaIdx !== -1 ? label.substring(0, commaIdx).trim() : label;
                    if (name.toLowerCase().indexOf(target_lower) === -1) continue;
                    el.click();
                    return { status: 'switched' };
                }
                return { status: 'not_found' };
            })("#;

/// Clicks the first visible channel whose name contains the target (the part after the argument)
pub const CHANNEL_CLICK_TAIL: &'static str = r#"))"#;

/// Scrolls the channel list to a position, while looking for a channel (the part before the argument)
pub const NAVIGATE_SCROLL_HEAD: &'static str = r#"(function(){ var all = document.querySelectorAll('[class*=scroller]'); for (var i=0; i<all.length; i++) { if (all[i].querySelector('[data-list-item-id^=channels___]')) { all[i].scrollTop = "#;

/// Scrolls the channel list to a position, while looking for a channel (the part after the argument)
pub const NAVIGATE_SCROLL_TAIL: &'static str = r#"; break; } } })()"#;

/// Lists the visible channels with their types.
pub const CHANNELS_COLLECT: &'static str = r#"JSON.stringify((function() {
    var results = [];
    var els = document.querySelectorAll('[data-list-item-id^=channels___]');
    if (els.length === 0) {
        els = document.querySelectorAll('a[href*=/channels/]');
    }
    els.forEach(function(el) {
        var label = (el.getAttribute('aria-label') || el.textContent || '').trim();
        if (!label) return;
        if (/\bcategory\b/i.test(label)) return;

        var name = label;
        var type = 'Text';

        var commaM = label.match(/^(.+?)[,\uFF0C]\s*(.+)$/);
        if (commaM) {
            name = commaM[1].trim();
            var rest = commaM[2].toLowerCase();
            if (rest.indexOf('voice') !== -1) type = 'Voice';
            else if (rest.indexOf('forum') !== -1) type = 'Forum';
            else if (rest.indexOf('announcement') !== -1) type = 'Announcement';
            else if (rest.indexOf('stage') !== -1) type = 'Stage';
        } else {
            var parenM = label.match(/^(.+?)\s*[\uFF08(](.+?)[\uFF09)]\s*$/);
            if (parenM) {
                name = parenM[1].trim();
                var rawType = parenM[2].toLowerCase();
                if (rawType.indexOf('voice') !== -1) type = 'Voice';
                else if (rawType.indexOf('forum') !== -1) type = 'Forum';
                else if (rawType.indexOf('announcement') !== -1) type = 'Announcement';
                else if (rawType.indexOf('stage') !== -1) type = 'Stage';
            }
        }

        if (!name) return;
        results.push({ channel: name.substring(0, 80), type: type });
    });
    return results;
})())"#;

/// Scrolls the channel list to a position, while listing channels (the part before the argument)
pub const CHANNELS_SCROLL_HEAD: &'static str = r#"(function(){ var all = document.querySelectorAll('[class*=scroller]'); var c = null; for (var i=0; i<all.length; i++) { if (all[i].querySelector('[data-list-item-id^=channels___]')) { c = all[i]; break; } } if (c) c.scrollTop = "#;

/// Scrolls the channel list to a position, while listing channels (the part after the argument)
pub const CHANNELS_SCROLL_TAIL: &'static str = r#"; })()"#;

/// Lists the visible messages.
pub const MESSAGES_COLLECT: &'static str = r#"JSON.stringify((function() {
    var results = [];
    var msgNodes = document.querySelectorAll('[class*="message"]');
    msgNodes.forEach(function(node) {
        var authorEl = node.querySelector('[class*="username"], [class*="headerText"] span, [class*="author"]');
        var timeEl = node.querySelector('time, [class*="timestamp"]');
        var contentEl = node.querySelector('[id^="message-content-"], [class*="messageContent"], [class*="content"]');
        if (contentEl) {
            results.push({
                author: authorEl ? authorEl.textContent.trim() : '—',
                time: timeEl ? (timeEl.getAttribute('datetime') || timeEl.textContent.trim()) : '',
                message: (contentEl.textContent || '').trim().substring(0, 300),
            });
        }
    });
    return results;
})())"#;

/// Reports the dimensions of the message list.
pub const MESSAGES_SCROLL_INFO: &'static str = r#"JSON.stringify((function() {
    var scrollers = document.querySelectorAll('[class*="scroller"]');
    var best = null;
    var bestH = 0;
    for (var i = 0; i < scrollers.length; i++) {
        var el = scrollers[i];
        if (el.scrollHeight > el.clientHeight && el.scrollHeight > bestH) {
            if (el.querySelector('[class*="message"]')) {
                best = el;
                bestH = el.scrollHeight;
            }
        }
    }
    if (!best) return { scroll_height: 0, client_height: 0, scroll_top: 0 };
    return { scroll_height: best.scrollHeight, client_height: best.clientHeight, scroll_top: best.scrollTop };
})())"#;

/// Scrolls the message list to its bottom.
pub const MESSAGES_SCROLL_BOTTOM: &'static str = r#"(function() {
            var scrollers = document.querySelectorAll('[class*="scroller"]');
            for (var i = 0; i < scrollers.length; i++) {
                var el = scrollers[i];
                if (el.scrollHeight > el.clientHeight) {
                    if (el.querySelector('[class*="message"]')) {
                        el.scrollTop = el.scrollHeight;
                        return;
                    }
                }
            }
        })()"#;

/// Scrolls the message list to a position (the part before the argument)
pub const MESSAGES_SCROLL_HEAD: &'static str = r#"(function() {
                    var scrollers = document.querySelectorAll('[class*="scroller"]');
                    for (var i = 0; i < scrollers.length; i++) {
                        var el = scrollers[i];
                        if (el.querySelector('[class*="message"]')) {
                            el.scrollTop = "#;

/// Scrolls the message list to a position (the part after the argument)
pub const MESSAGES_SCROLL_TAIL: &'static str = r#";
                            return;
                        }
                    }
                })()"#;

/// Opens the search box (Ctrl+F).
pub const SEARCH_OPEN: &'static str = r#"(function() {
            document.dispatchEvent(new KeyboardEvent('keydown', {
                key: 'f', code: 'KeyF', keyCode: 70, which: 70,
                ctrlKey: true, metaKey: false,
                bubbles: true, cancelable: true
            }));
        })()"#;

/// Types the query into the search box (the part before the argument)
pub const SEARCH_TYPE_HEAD: &'static str = r#"(function(q) {
            var input = document.querySelector('[aria-label*="Search"], [class*="searchBar"] input, [placeholder*="Search"]');
            if (!input) throw new Error('Search input not found');
            input.focus();
            var setter = Object.getOwnPropertyDescriptor(window.HTMLInputElement.prototype, 'value').set;
            setter.call(input, q);
            input.dispatchEvent(new Event('input', { bubbles: true }));
        })("#;

/// Types the query into the search box (the part after the argument)
pub const SEARCH_TYPE_TAIL: &'static str = r#")"#;

/// Presses Enter in the search box.
pub const SEARCH_SUBMIT: &'static str = r#"(function() {
            var input = document.querySelector('[aria-label*="Search"], [class*="searchBar"] input, [placeholder*="Search"]');
            if (input) {
                input.dispatchEvent(new KeyboardEvent('keydown', {
                    key: 'Enter', keyCode: 13, which: 13,
                    bubbles: true, cancelable: true
                }));
            }
        })()"#;

/// Lists the search results.
pub const SEARCH_SCRAPE: &'static str = r#"JSON.stringify((function() {
        var items = [];
        var resultNodes = document.querySelectorAll('[class*="searchResult_"], [id*="search-result"]');

        resultNodes.forEach(function(node, i) {
            var author = (node.querySelector('[class*="username"]') || {}).textContent || '—';
            var contentEl = node.querySelector('[id^="message-content-"], [class*="messageContent"]');
            var content = contentEl ? contentEl.textContent.trim() : (node.textContent || '').trim();
            items.push({
                index: i + 1,
                author: author.trim(),
                message: (content || '').substring(0, 200),
            });
        });

        return items;
    })())"#;

/// Closes the search box (Escape).
pub const SEARCH_CLOSE: &'static str = r#"(function() {
            document.dispatchEvent(new KeyboardEvent('keydown', {
                key: 'Escape', keyCode: 27, which: 27,
                bubbles: true, cancelable: true
            }));
        })()"#;

/// Types a message into the message editor (the part before the argument)
pub const SEND_INSERT_HEAD: &'static str = r#"(function(text) {
            var editor = document.querySelector('[role="textbox"][data-slate-editor="true"], [class*="slateTextArea"]');
            if (!editor) throw new Error('Could not find Discord message input. Make sure a channel is open.');

            editor.focus();
            document.execCommand('insertText', false, text);
        })("#;

/// Types a message into the message editor (the part after the argument)
pub const SEND_INSERT_TAIL: &'static str = r#")"#;

/// Presses Enter in the message editor.
pub const SEND_SUBMIT: &'static str = r#"(function() {
            var editor = document.querySelector('[role="textbox"][data-slate-editor="true"], [class*="slateTextArea"]');
            if (editor) {
                editor.dispatchEvent(new KeyboardEvent('keydown', {
                    key: 'Enter', keyCode: 13, which: 13,
                    bubbles: true, cancelable: true
                }));
            }
        })()"#;

/// Lists the servers in the sidebar.
pub const SERVERS_COLLECT: &'static str = r#"JSON.stringify((function() {
        var results = [];
        var seen = {};

        var items = document.querySelectorAll('[data-list-item-id*="guildsnav___"]');

        items.forEach(function(el) {
            var listId = el.getAttribute('data-list-item-id') || '';
            if (!/guildsnav___\d{10,}/.test(listId)) return;

            var name = (el.textContent || '').trim();
            // Strip leading mention/unread count: "30 个提及，" or "4,697 mentions, "
            name = name.replace(/^[\d][\d,.]*\s*[^\uff0c,]*[\uff0c,]\s*/, '');
            name = name.trim();
            if (!name) return;
            if (seen[name]) return;
            seen[name] = true;

            results.push({ index: results.length + 1, server: name.substring(0, 80) });
        });

        return results;
    })())"#;

/// Lists the visible members.
pub const MEMBERS_COLLECT: &'static str = r#"JSON.stringify((function() {
        var results = [];
        var items = document.querySelectorAll('[class*="member_"], [data-list-item-id*="members"]');

        items.forEach(function(item, i) {
            var nameEl = item.querySelector('[class*="username_"], [class*="nameTag"]');
            var statusEl = item.querySelector('[class*="activity"], [class*="customStatus"]');

            var name = nameEl ? nameEl.textContent.trim() : (item.textContent || '').trim().substring(0, 50);
            var status = statusEl ? statusEl.textContent.trim() : '';

            if (name && name.length > 0) {
                results.push({ index: i + 1, name: name, status: status || 'Online' });
            }
        });

        return results.slice(0, 50);
    })())"#;

/// The address of the current page.
pub const LOCATION_HREF: &'static str = r#"window.location.href"#;

/// The title of the current page.
pub const DOCUMENT_TITLE: &'static str = r#"document.title"#;

// ---------------------------------------------------------------------------
// JSON quoting
// ---------------------------------------------------------------------------

/// A lowercase hexadecimal digit (`d < 16`).
pub open spec fn hex_digit(d: nat) -> char {
    if d < 10 {
        (d + 48) as char
    } else {
        (d - 10 + 97) as char
    }
}

/// How `serde_json` writes one character inside a JSON string: `"` and `\`
/// and the controls with a short escape get a backslash, the other characters
/// below U+0020 become `\u00xx` in lowercase hexadecimal, everything else is
/// written as it is.
pub open spec fn json_escape_char(c: char) -> Seq<char> {
    if c == '"' {
        seq!['\\', '"']
    } else if c == '\\' {
        seq!['\\', '\\']
    } else if c == '\u{8}' {
        seq!['\\', 'b']
    } else if c == '\t' {
        seq!['\\', 't']
    } else if c == '\n' {
        seq!['\\', 'n']
    } else if c == '\u{c}' {
        seq!['\\', 'f']
    } else if c == '\r' {
        seq!['\\', 'r']
    } else if (c as nat) < 32 {
        seq!['\\', 'u', '0', '0', hex_digit((c as nat) / 16), hex_digit((c as nat) % 16)]
    } else {
        seq![c]
    }
}

/// The characters of `s`, each escaped as a JSON string requires.
pub open spec fn json_escape(s: Seq<char>) -> Seq<char>
    decreases s.len(),
{
    if s.len() == 0 {
        Seq::empty()
    } else {
        json_escape(s.drop_last()) + json_escape_char(s.last())
    }
}

/// The JSON text of the string `s`, as `serde_json::to_string` writes it:
/// `s`, escaped, in double quotes.
pub open spec fn json_string_literal(s: Seq<char>) -> Seq<char> {
    seq!['"'] + json_escape(s) + seq!['"']
}

#[verifier::external_type_specification]
#[verifier::external_body]
pub struct ExJsonError(serde_json::Error);

/// Calls `serde_json::to_string` on a string slice. The result is
/// `json_string_literal` of the text: serde_json writes a quote, then each
/// byte, escaped where its escape table says so (only `"`, `\\` and bytes below
/// 0x20 are, so multi-byte characters pass unchanged), then a quote. For a
/// `str` the call cannot fail: the serializer writes into a `Vec<u8>`, whose
/// writes never fail, and serializing a `str` reports no error of its own.
#[verifier::external_body]
fn json_to_string(s: &str) -> (r: Result<String, serde_json::Error>)
    ensures
        r is Ok,
        r matches Ok(t) ==> t@ == json_string_literal(s@),
{
    serde_json::to_string(s)
}

/// The JSON text of `s`, for use as a string argument in a script.
pub fn quote(s: &str) -> (q: String)
    ensures
        q@ == json_string_literal(s@),
{
    match json_to_string(s) {
        Ok(t) => t,
        Err(_) => "\"\"".to_string(),
    }
}

// ---------------------------------------------------------------------------
// Scripts that take an argument
// ---------------------------------------------------------------------------

/// The script that switches to the server whose name contains `target`.
pub open spec fn server_switch_script(target: Seq<char>) -> Seq<char> {
    SERVER_SWITCH_HEAD@ + json_string_literal(target) + SERVER_SWITCH_TAIL@
}

/// The script that clicks the channel whose name contains `target`.
pub open spec fn channel_click_script(target: Seq<char>) -> Seq<char> {
    CHANNEL_CLICK_HEAD@ + json_string_literal(target) + CHANNEL_CLICK_TAIL@
}

/// The script that scrolls the channel list to `pos` while looking for a channel.
pub open spec fn navigate_scroll_script(pos: u64) -> Seq<char> {
    NAVIGATE_SCROLL_HEAD@ + decimal(pos as nat) + NAVIGATE_SCROLL_TAIL@
}

/// The script that scrolls the channel list to `pos` while listing channels.
pub open spec fn channels_scroll_script(pos: u64) -> Seq<char> {
    CHANNELS_SCROLL_HEAD@ + decimal(pos as nat) + CHANNELS_SCROLL_TAIL@
}

/// The script that scrolls the message list to `pos`.
pub open spec fn messages_scroll_script(pos: u64) -> Seq<char> {
    MESSAGES_SCROLL_HEAD@ + decimal(pos as nat) + MESSAGES_SCROLL_TAIL@
}

/// The script that types `query` into the search box.
pub open spec fn search_type_script(query: Seq<char>) -> Seq<char> {
    SEARCH_TYPE_HEAD@ + json_string_literal(query) + SEARCH_TYPE_TAIL@
}

/// The script that types `text` into the message editor.
pub open spec fn send_insert_script(text: Seq<char>) -> Seq<char> {
    SEND_INSERT_HEAD@ + json_string_literal(text) + SEND_INSERT_TAIL@
}

pub fn make_server_switch_script(target: &str) -> (s: String)
    ensures
        s@ == server_switch_script(target@),
{
    let q = quote(target);
    join3(SERVER_SWITCH_HEAD, q.as_str(), SERVER_SWITCH_TAIL)
}

pub fn make_channel_click_script(target: &str) -> (s: String)
    ensures
        s@ == channel_click_script(target@),
{
    let q = quote(target);
    join3(CHANNEL_CLICK_HEAD, q.as_str(), CHANNEL_CLICK_TAIL)
}

pub fn make_navigate_scroll_script(pos: u64) -> (s: String)
    ensures
        s@ == navigate_scroll_script(pos),
{
    let p = decimal_string(pos);
    join3(NAVIGATE_SCROLL_HEAD, p.as_str(), NAVIGATE_SCROLL_TAIL)
}

pub fn make_channels_scroll_script(pos: u64) -> (s: String)
    ensures
        s@ == channels_scroll_script(pos),
{
    let p = decimal_string(pos);
    join3(CHANNELS_SCROLL_HEAD, p.as_str(), CHANNELS_SCROLL_TAIL)
}

pub fn make_messages_scroll_script(pos: u64) -> (s: String)
    ensures
        s@ == messages_scroll_script(pos),
{
    let p = decimal_string(pos);
    join3(MESSAGES_SCROLL_HEAD, p.as_str(), MESSAGES_SCROLL_TAIL)
}

pub fn make_search_type_script(query: &str) -> (s: String)
    ensures
        s@ == search_type_script(query@),
{
    let q = quote(query);
    join3(SEARCH_TYPE_HEAD, q.as_str(), SEARCH_TYPE_TAIL)
}

pub fn make_send_insert_script(text: &str) -> (s: String)
    ensures
        s@ == send_insert_script(text@),
{
    let q = quote(text);
    join3(SEND_INSERT_HEAD, q.as_str(), SEND_INSERT_TAIL)
}

} // verus!
