//! The decisions behind the menu-bar tray: its title, its menu and what the
//! menu's items do, the Dock icon switch, and the proxy configuration dialog.

use vstd::prelude::*;
use crate::text::{trimmed, contains_run, trim_white_space, text_equals, text_contains};

verus! {

/// How the application shows in the Dock.
#[derive(Debug, Clone, Copy, PartialEq, Eq, Structural)]
pub enum ActivationPolicy {
    /// With a Dock icon.
    Regular,
    /// Without one.
    Accessory,
}

/// The state the tray keeps: whether the Dock icon shows, and the proxy
/// address the user configured.
pub struct TrayState {
    pub dock_visible: bool,
    pub proxy_address: String,
}

/// The policy that matches a Dock icon being shown or not.
pub open spec fn policy_for(visible: bool) -> ActivationPolicy {
    if visible {
        ActivationPolicy::Regular
    } else {
        ActivationPolicy::Accessory
    }
}

/// The label of the Dock menu item: it offers to hide a shown icon and to
/// show a hidden one.
pub open spec fn dock_menu_label(visible: bool) -> Seq<char> {
    if visible {
        "隐藏 Dock 图标"@
    } else {
        "显示 Dock 图标"@
    }
}

/// The label of the proxy menu item.
pub open spec fn proxy_menu_label(addr: Seq<char>) -> Seq<char> {
    if addr.len() == 0 {
        "配置代理..."@
    } else {
        "代理: "@ + addr
    }
}

impl TrayState {
    /// The state at start: Dock icon shown, no proxy.
    pub fn new() -> (r: TrayState)
        ensures
            r.dock_visible,
            r.proxy_address@ == Seq::<char>::empty(),
    {
        TrayState { dock_visible: true, proxy_address: String::new() }
    }

    /// Flips whether the Dock icon shows, and gives the policy to apply.
    pub fn toggle_dock(&mut self) -> (r: ActivationPolicy)
        ensures
            final(self).dock_visible == !old(self).dock_visible,
            final(self).proxy_address == old(self).proxy_address,
            r == policy_for(final(self).dock_visible),
    {
        self.dock_visible = !self.dock_visible;
        if self.dock_visible {
            ActivationPolicy::Regular
        } else {
            ActivationPolicy::Accessory
        }
    }

    /// The label the Dock menu item shows now.
    pub fn dock_menu_text(&self) -> (r: &'static str)
        ensures
            r@ == dock_menu_label(self.dock_visible),
    {
        if self.dock_visible {
            "隐藏 Dock 图标"
        } else {
            "显示 Dock 图标"
        }
    }

    /// Records `addr` as the configured proxy (the empty address clears it)
    /// and gives the label the proxy menu item shows from now on.
    pub fn set_proxy(&mut self, addr: String) -> (r: String)
        ensures
            final(self).proxy_address == addr,
            final(self).dock_visible == old(self).dock_visible,
            r@ == proxy_menu_label(addr@),
    {
        let label = proxy_menu_text(addr.as_str());
        self.proxy_address = addr;
        label
    }
}

/// Flipping the Dock icon twice restores it, and each flip changes the label
/// of the Dock menu item.
pub proof fn law_dock_toggle(visible: bool)
    ensures
        !(!visible) == visible,
        dock_menu_label(!visible) != dock_menu_label(visible),
        policy_for(!visible) != policy_for(visible),
{
    reveal_strlit("隐藏 Dock 图标");
    reveal_strlit("显示 Dock 图标");
    assert(dock_menu_label(true)[0] != dock_menu_label(false)[0]);
}

/// The proxy item reads `配置代理...` when no proxy is configured, and
/// otherwise `代理: ` followed by the whole address, however long.
pub proof fn law_proxy_label_shows_whole_address(addr: Seq<char>)
    ensures
        addr.len() == 0 ==> proxy_menu_label(addr) == seq!['配', '置', '代', '理', '.', '.', '.'],
        addr.len() > 0 ==> proxy_menu_label(addr).len() == addr.len() + 4,
        addr.len() > 0 ==> proxy_menu_label(addr).subrange(0, 4) == seq!['代', '理', ':', ' '],
        addr.len() > 0 ==> proxy_menu_label(addr).subrange(4, addr.len() + 4 as int) == addr,
{
    reveal_strlit("配置代理...");
    reveal_strlit("代理: ");
    let l = proxy_menu_label(addr);
    if addr.len() == 0 {
        assert(l =~= seq!['配', '置', '代', '理', '.', '.', '.']);
    } else {
        assert(l.subrange(0, 4) =~= seq!['代', '理', ':', ' ']);
        assert(l.subrange(4, addr.len() + 4 as int) =~= addr);
    }
}

/// The label of the proxy menu item for `addr`.
pub fn proxy_menu_text(addr: &str) -> (r: String)
    ensures
        r@ == proxy_menu_label(addr@),
        addr@.len() > 0 ==> r@.subrange(r@.len() - addr@.len(), r@.len() as int) == addr@,
{
    if addr.is_empty() {
        String::from_str("配置代理...")
    } else {
        let mut r = String::from_str("代理: ");
        r.append(addr);
        r
    }
}

/// What a menu item asks for.
#[derive(Debug, Clone, Copy, PartialEq, Eq, Structural)]
pub enum MenuAction {
    Quit,
    ToggleDock,
    ConfigureProxy,
    Ignore,
}

/// The action of the menu item with the id `id`.
pub fn menu_action(id: &str) -> (r: MenuAction)
    ensures
        r == (if id@ == "quit"@ {
            MenuAction::Quit
        } else if id@ == "toggle_dock"@ {
            MenuAction::ToggleDock
        } else if id@ == "proxy_config"@ {
            MenuAction::ConfigureProxy
        } else {
            MenuAction::Ignore
        }),
{
    if text_equals(id, "quit") {
        MenuAction::Quit
    } else if text_equals(id, "toggle_dock") {
        MenuAction::ToggleDock
    } else if text_equals(id, "proxy_config") {
        MenuAction::ConfigureProxy
    } else {
        MenuAction::Ignore
    }
}

/// What a click on the tray icon does to the detail window.
#[derive(Debug, Clone, Copy, PartialEq, Eq, Structural)]
pub enum ClickAction {
    HideWindow,
    ShowWindow,
    Nothing,
}

/// Decides a click on the tray icon: a released left button hides the window
/// when it shows, and shows it otherwise; `window_visible` is `None` when
/// there is no window.
pub fn tray_click_action(left_released: bool, window_visible: Option<bool>) -> (r: ClickAction)
    ensures
        r == (if !left_released {
            ClickAction::Nothing
        } else {
            match window_visible {
                None => ClickAction::Nothing,
                Some(true) => ClickAction::HideWindow,
                Some(false) => ClickAction::ShowWindow,
            }
        }),
{
    if !left_released {
        return ClickAction::Nothing;
    }
    match window_visible {
        None => ClickAction::Nothing,
        Some(true) => ClickAction::HideWindow,
        Some(false) => ClickAction::ShowWindow,
    }
}

/// The arrow that shows the day's direction.
pub open spec fn direction_arrow(is_up: bool) -> Seq<char> {
    if is_up {
        "↑"@
    } else {
        "↓"@
    }
}

/// The tray title: the price, two spaces, the arrow and the change in percent.
pub open spec fn tray_title_text(price_text: Seq<char>, is_up: bool, pct_text: Seq<char>) -> Seq<char> {
    price_text + "  "@ + direction_arrow(is_up) + pct_text
}

/// The title holds the whole price text, then two spaces and the arrow (up
/// when the day's change is not negative, down otherwise), then the whole
/// percentage text; nothing is cut or added.
pub proof fn law_title_layout(price_text: Seq<char>, is_up: bool, pct_text: Seq<char>)
    ensures
        ({
            let t = tray_title_text(price_text, is_up, pct_text);
            let n = price_text.len() as int;
            &&& t.len() == price_text.len() + 3 + pct_text.len()
            &&& t.subrange(0, n) == price_text
            &&& t[n] == ' '
            &&& t[n + 1] == ' '
            &&& t[n + 2] == (if is_up { '↑' } else { '↓' })
            &&& t.subrange(n + 3, t.len() as int) == pct_text
        }),
{
    reveal_strlit("  ");
    reveal_strlit("↑");
    reveal_strlit("↓");
    let t = tray_title_text(price_text, is_up, pct_text);
    let n = price_text.len() as int;
    assert(t.subrange(0, n) =~= price_text);
    assert(t.subrange(n + 3, t.len() as int) =~= pct_text);
}

/// Lays out the tray title from the formatted price and percentage.
pub fn tray_title(price_text: &str, is_up: bool, pct_text: &str) -> (r: String)
    ensures
        r@ == tray_title_text(price_text@, is_up, pct_text@),
        r@.subrange(0, price_text@.len() as int) == price_text@,
        r@.len() == price_text@.len() + 3 + pct_text@.len(),
        r@.subrange(price_text@.len() + 3 as int, r@.len() as int) == pct_text@,
{
    let mut r = String::from_str(price_text);
    r.append("  ");
    if is_up {
        r.append("↑");
    } else {
        r.append("↓");
    }
    r.append(pct_text);
    proof {
        law_title_layout(price_text@, is_up, pct_text@);
    }
    r
}

/// What the proxy dialog asks for.
pub enum DialogOutcome {
    /// Configure this address (the empty one clears the proxy).
    SetProxy(String),
    /// The user pressed the button that clears the proxy.
    ClearProxy,
    /// Leave the configuration as it is.
    Unchanged,
}

/// The label of the dialog button that clears the proxy.
pub open spec fn clear_button_label() -> Seq<char> {
    "清除代理"@
}

/// Reads how the dialog ended: on success the typed answer, trimmed, is the
/// new address (an answer that is not UTF-8 changes nothing); otherwise the
/// proxy is cleared when the error output names the clearing button.
pub fn proxy_dialog_outcome(success: bool, answer: Option<String>, error_output: &str) -> (r: DialogOutcome)
    ensures
        success ==> match answer {
            Some(a) => r matches DialogOutcome::SetProxy(p) && p@ == trimmed(a@),
            None => r is Unchanged,
        },
        !success && contains_run(error_output@, clear_button_label()) ==> r is ClearProxy,
        !success && !contains_run(error_output@, clear_button_label()) ==> r is Unchanged,
{
    if success {
        match answer {
            Some(a) => DialogOutcome::SetProxy(String::from_str(trim_white_space(a.as_str()))),
            None => DialogOutcome::Unchanged,
        }
    } else if text_contains(error_output, "清除代理") {
        DialogOutcome::ClearProxy
    } else {
        DialogOutcome::Unchanged
    }
}

/// The address the dialog proposes: the configured one, or an example.
pub fn proxy_dialog_default(current: &str) -> (r: &str)
    ensures
        current@.len() == 0 ==> r@ == "127.0.0.1:7890"@,
        current@.len() > 0 ==> r@ == current@,
{
    if current.is_empty() {
        "127.0.0.1:7890"
    } else {
        current
    }
}

/// The help text of the proxy dialog.
pub open spec fn dialog_help_text() -> Seq<char> {
    "代理服务器地址\n\n格式: 主机:端口\n示例: 127.0.0.1:7890\n     192.168.1.100:1080"@
}

/// The AppleScript that shows the proxy dialog, proposing `default_answer`.
pub open spec fn dialog_script_text(default_answer: Seq<char>) -> Seq<char> {
    "\n            display dialog \""@ + dialog_help_text() + "\" default answer \""@ + default_answer
        + "\" buttons {\"清除代理\", \"取消\", \"确定\"} default button \"确定\" cancel button \"取消\" with title \"代理配置\" with icon note\n            text returned of result\n            "@
}

/// The AppleScript that shows the proxy dialog for the configured address `current`.
pub fn proxy_dialog_script(current: &str) -> (r: String)
    ensures
        current@.len() == 0 ==> r@ == dialog_script_text("127.0.0.1:7890"@),
        current@.len() > 0 ==> r@ == dialog_script_text(current@),
{
    let default_answer = proxy_dialog_default(current);
    let mut r = String::from_str("\n            display dialog \"");
    r.append("代理服务器地址\n\n格式: 主机:端口\n示例: 127.0.0.1:7890\n     192.168.1.100:1080");
    r.append("\" default answer \"");
    r.append(default_answer);
    r.append(
        "\" buttons {\"清除代理\", \"取消\", \"确定\"} default button \"确定\" cancel button \"取消\" with title \"代理配置\" with icon note\n            text returned of result\n            ",
    );
    r
}

/// The proxy address kept in the configuration file's text: the text, trimmed.
pub fn saved_proxy_address(contents: &str) -> (r: String)
    ensures
        r@ == trimmed(contents@),
{
    String::from_str(trim_white_space(contents))
}

/// An address the dialog sets is what the configuration file gives back after
/// a restart: the dialog saves the trimmed answer, and trimming it again
/// changes nothing.
pub proof fn law_dialog_address_survives_restart(answer: Seq<char>)
    ensures
        trimmed(trimmed(answer)) == trimmed(answer),
{
    crate::text::law_trim_idempotent(answer);
}

} // verus!
