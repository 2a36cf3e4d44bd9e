//! The tray icon: what it shows and what a click on its menu means.
//!
//! The host creates the icon and the menu items and runs the event loop. It
//! tells the tray under which identifier each item was created, and hands
//! every menu event on by the identifier of the item that was clicked.

use vstd::prelude::*;
use crate::level::Level;
use crate::level::nearest_percent;
use crate::text::decimal;
use crate::text::format_decimal;

verus! {

/// The width of the icon in pixels.
pub const ICON_WIDTH: u32 = 32;

/// The height of the icon in pixels.
pub const ICON_HEIGHT: u32 = 32;

/// The text that is shown when the pointer rests on the icon.
pub const TOOLTIP: &'static str = "Microphone Volume Control";

/// What a click on the menu asks of the program.
#[derive(Clone, Copy, Debug, PartialEq, Eq, Structural)]
pub enum TrayMessage {
    /// End the program.
    Quit,
    /// Show the configuration.
    ShowConfig,
    /// Pause or resume the monitoring.
    ToggleMonitoring,
}

/// What an item of the menu is there for.
#[derive(Clone, Copy, Debug, PartialEq, Eq, Structural)]
pub enum MenuRole {
    /// Shows the target level. It cannot be clicked.
    Status,
    /// Pauses or resumes the monitoring.
    ToggleMonitoring,
    /// Opens the configuration.
    OpenConfig,
    /// Ends the program.
    Quit,
}

/// One line of the menu.
#[derive(Debug, PartialEq, Eq)]
pub enum MenuEntry {
    /// An item with a label.
    Item { role: MenuRole, label: String, enabled: bool },
    /// A line between two groups of items.
    Separator,
}

/// What a `MenuEntry` says.
pub enum MenuEntryView {
    Item { role: MenuRole, label: Seq<char>, enabled: bool },
    Separator,
}

impl View for MenuEntry {
    type V = MenuEntryView;

    open spec fn view(&self) -> MenuEntryView {
        match *self {
            MenuEntry::Item { role, label, enabled } => MenuEntryView::Item {
                role,
                label: label@,
                enabled,
            },
            MenuEntry::Separator => MenuEntryView::Separator,
        }
    }
}

/// The label of the status item for a target of `percent` percent.
pub open spec fn status_label(percent: nat) -> Seq<char> {
    "Target Volume: "@ + decimal(percent) + "%"@
}

/// The menu of the tray for a target of `percent` percent, from top to bottom.
pub open spec fn tray_menu(percent: nat) -> Seq<MenuEntryView> {
    seq![
        MenuEntryView::Item {
            role: MenuRole::Status,
            label: status_label(percent),
            enabled: false,
        },
        MenuEntryView::Separator,
        MenuEntryView::Item {
            role: MenuRole::ToggleMonitoring,
            label: "Pause Monitoring"@,
            enabled: true,
        },
        MenuEntryView::Item { role: MenuRole::OpenConfig, label: "Open Config"@, enabled: true },
        MenuEntryView::Separator,
        MenuEntryView::Item { role: MenuRole::Quit, label: "Quit"@, enabled: true },
    ]
}

/// Whether the pixel in column `x` and row `y` belongs to the picture of
/// the microphone: its head, a disc round (16, 12); its stem; or its base.
pub open spec fn icon_lit(x: int, y: int) -> bool {
    ||| (x - 16) * (x - 16) + (y - 12) * (y - 12) < 64
    ||| (14 <= x <= 18 && 16 <= y <= 24)
    ||| (10 <= x <= 22 && 24 <= y <= 26)
}

/// The colour of the microphone, by channel: red, green, blue, alpha.
pub open spec fn icon_channel(channel: int) -> u8 {
    if channel == 0 {
        50
    } else if channel == 1 {
        120
    } else if channel == 2 {
        200
    } else {
        255
    }
}

/// The byte at position `i` of the icon: four bytes to a pixel, the pixels
/// row by row. A pixel outside the picture is transparent black.
pub open spec fn icon_byte(i: int) -> u8 {
    if icon_lit((i / 4) % (ICON_WIDTH as int), (i / 4) / (ICON_WIDTH as int)) {
        icon_channel(i % 4)
    } else {
        0
    }
}

/// The icon as 32 bit RGBA data.
pub open spec fn icon_image() -> Seq<u8> {
    Seq::new((ICON_WIDTH * ICON_HEIGHT * 4) as nat, |i: int| icon_byte(i))
}

/// The identifiers under which the host created the items that can be clicked.
pub struct TrayAppView {
    pub quit_item: Option<Seq<char>>,
    pub config_item: Option<Seq<char>>,
    pub toggle_item: Option<Seq<char>>,
    pub exited: bool,
}

impl TrayAppView {
    /// What a click on the item `id` means. The items are tried in the order
    /// quit, configuration, toggle; an identifier that belongs to none of
    /// them means nothing, and neither does any click after the tray was left.
    pub open spec fn message_for(self, id: Seq<char>) -> Option<TrayMessage> {
        if self.exited {
            None
        } else if self.quit_item == Some(id) {
            Some(TrayMessage::Quit)
        } else if self.config_item == Some(id) {
            Some(TrayMessage::ShowConfig)
        } else if self.toggle_item == Some(id) {
            Some(TrayMessage::ToggleMonitoring)
        } else {
            None
        }
    }

    /// The tray after the host has created the item of `role` as `id`. The
    /// status item cannot be clicked and is not kept.
    pub open spec fn bound(self, role: MenuRole, id: Seq<char>) -> TrayAppView {
        match role {
            MenuRole::Quit => TrayAppView { quit_item: Some(id), ..self },
            MenuRole::OpenConfig => TrayAppView { config_item: Some(id), ..self },
            MenuRole::ToggleMonitoring => TrayAppView { toggle_item: Some(id), ..self },
            MenuRole::Status => self,
        }
    }

    /// The tray after a click on the item `id`: a click on quit leaves the tray.
    pub open spec fn clicked(self, id: Seq<char>) -> TrayAppView {
        TrayAppView {
            exited: self.exited || self.message_for(id) == Some(TrayMessage::Quit),
            ..self
        }
    }
}

/// The tray: which items it has, and whether it was left.
#[derive(Debug)]
pub struct TrayApp {
    quit_item: Option<String>,
    config_item: Option<String>,
    toggle_item: Option<String>,
    exited: bool,
}

/// The characters of an optional identifier.
pub open spec fn optional_id(id: Option<String>) -> Option<Seq<char>> {
    match id {
        Some(text) => Some(text@),
        None => None,
    }
}

impl View for TrayApp {
    type V = TrayAppView;

    closed spec fn view(&self) -> TrayAppView {
        TrayAppView {
            quit_item: optional_id(self.quit_item),
            config_item: optional_id(self.config_item),
            toggle_item: optional_id(self.toggle_item),
            exited: self.exited,
        }
    }
}

/// Whether an item was created as `id`.
fn is_item(item: &Option<String>, id: &str) -> (same: bool)
    ensures
        same == (optional_id(*item) == Some(id@)),
{
    match item {
        Some(text) => {
            let wanted: String = String::from_str(id);
            *text == wanted
        },
        None => false,
    }
}

impl TrayMessage {
    /// Whether this message ends the drift-correction loop.
    pub fn stops_loop(&self) -> (stops: bool)
        ensures
            stops == (*self == TrayMessage::Quit),
    {
        match self {
            TrayMessage::Quit => true,
            _ => false,
        }
    }
}

impl TrayApp {
    /// A tray without items that has not been left.
    pub fn new() -> (tray: TrayApp)
        ensures
            tray@ == (TrayAppView {
                quit_item: None,
                config_item: None,
                toggle_item: None,
                exited: false,
            }),
    {
        TrayApp { quit_item: None, config_item: None, toggle_item: None, exited: false }
    }

    /// The menu for the given target, from top to bottom.
    pub fn menu(target: Level) -> (entries: Vec<MenuEntry>)
        ensures
            entries@.map_values(|e: MenuEntry| e@) == tray_menu(nearest_percent(target@) as nat),
    {
        let mut label: String = String::from_str("Target Volume: ");
        let number: String = format_decimal(target.rounded_percent() as u64);
        label.append(number.as_str());
        label.append("%");
        let mut entries: Vec<MenuEntry> = Vec::new();
        entries.push(MenuEntry::Item { role: MenuRole::Status, label, enabled: false });
        entries.push(MenuEntry::Separator);
        entries.push(
            MenuEntry::Item {
                role: MenuRole::ToggleMonitoring,
                label: String::from_str("Pause Monitoring"),
                enabled: true,
            },
        );
        entries.push(
            MenuEntry::Item {
                role: MenuRole::OpenConfig,
                label: String::from_str("Open Config"),
                enabled: true,
            },
        );
        entries.push(MenuEntry::Separator);
        entries.push(
            MenuEntry::Item {
                role: MenuRole::Quit,
                label: String::from_str("Quit"),
                enabled: true,
            },
        );
        assert(entries@.map_values(|e: MenuEntry| e@) =~= tray_menu(nearest_percent(target@) as nat));
        entries
    }

    /// Notes under which identifier the host created the item of `role`.
    pub fn bind(&mut self, role: MenuRole, id: &str)
        ensures
            final(self)@ == old(self)@.bound(role, id@),
    {
        match role {
            MenuRole::Quit => {
                self.quit_item = Some(String::from_str(id));
            },
            MenuRole::OpenConfig => {
                self.config_item = Some(String::from_str(id));
            },
            MenuRole::ToggleMonitoring => {
                self.toggle_item = Some(String::from_str(id));
            },
            MenuRole::Status => {},
        }
    }

    /// Whether the tray was left. The host ends the event loop then.
    pub fn has_exited(&self) -> (exited: bool)
        ensures
            exited == self@.exited,
    {
        self.exited
    }

    /// Takes a menu event, if there is one, by the identifier of the item
    /// that was clicked, and gives the message that the program is sent.
    pub fn check_menu_events(&mut self, event: Option<&str>) -> (message: Option<TrayMessage>)
        ensures
            match event {
                Some(id) => message == old(self)@.message_for(id@) && final(self)@ == old(
                    self,
                )@.clicked(id@),
                None => message is None && final(self)@ == old(self)@,
            },
    {
        match event {
            None => None,
            Some(id) => {
                if self.exited {
                    None
                } else if is_item(&self.quit_item, id) {
                    self.exited = true;
                    Some(TrayMessage::Quit)
                } else if is_item(&self.config_item, id) {
                    Some(TrayMessage::ShowConfig)
                } else if is_item(&self.toggle_item, id) {
                    Some(TrayMessage::ToggleMonitoring)
                } else {
                    None
                }
            },
        }
    }

    /// Draws the icon: a blue microphone on a transparent ground, as RGBA
    /// data of `ICON_WIDTH` by `ICON_HEIGHT` pixels.
    pub fn create_icon() -> (rgba: Vec<u8>)
        ensures
            rgba@ == icon_image(),
            rgba@.len() == ICON_WIDTH * ICON_HEIGHT * 4,
    {
        let mut rgba: Vec<u8> = Vec::new();
        let mut y: u32 = 0;
        while y < ICON_HEIGHT
            invariant
                y <= ICON_HEIGHT,
                rgba@.len() == y * ICON_WIDTH * 4,
                forall|i: int| 0 <= i < rgba@.len() ==> rgba@[i] == icon_byte(i),
            decreases ICON_HEIGHT - y,
        {
            let mut x: u32 = 0;
            while x < ICON_WIDTH
                invariant
                    x <= ICON_WIDTH,
                    y < ICON_HEIGHT,
                    rgba@.len() == (y * ICON_WIDTH + x) * 4,
                    forall|i: int| 0 <= i < rgba@.len() ==> rgba@[i] == icon_byte(i),
                decreases ICON_WIDTH - x,
            {
                let dx: i32 = x as i32 - 16;
                let dy: i32 = y as i32 - 12;
                assert(0 <= dx * dx <= 256 && 0 <= dy * dy <= 400) by (nonlinear_arith)
                    requires
                        -16 <= dx <= 16,
                        -12 <= dy <= 20,
                ;
                let dist_sq: i32 = dx * dx + dy * dy;
                let lit: bool = dist_sq < 64 || (14 <= x && x <= 18 && 16 <= y && y <= 24) || (10
                    <= x && x <= 22 && 24 <= y && y <= 26);
                assert(lit == icon_lit(x as int, y as int));
                let ghost start: int = rgba@.len() as int;
                if lit {
                    rgba.push(50);
                    rgba.push(120);
                    rgba.push(200);
                    rgba.push(255);
                } else {
                    rgba.push(0);
                    rgba.push(0);
                    rgba.push(0);
                    rgba.push(0);
                }
                assert forall|i: int| start <= i < start + 4 implies rgba@[i] == icon_byte(i) by {
                    assert((i / 4) % 32 == x as int);
                    assert((i / 4) / 32 == y as int);
                }
                x = x + 1;
            }
            y = y + 1;
        }
        assert(rgba@ =~= icon_image());
        rgba
    }
}

} // verus!
