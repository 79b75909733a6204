//! The system-tray menu and what its entries ask for.
use vstd::prelude::*;
use crate::text::same_text;

verus! {

/// What a tray menu entry asks the application to do.
#[derive(Debug, Clone, Copy, PartialEq, Eq, Structural)]
pub enum TrayCommand {
    Show,
    Hide,
    BackendStatus,
    RestartBackend,
    Quit,
}

/// One entry of the tray menu.
#[derive(Debug, Clone)]
pub enum MenuEntry {
    Item { id: String, label: String },
    Separator,
}

pub enum EntryView {
    Item { id: Seq<char>, label: Seq<char> },
    Separator,
}

impl View for MenuEntry {
    type V = EntryView;

    open spec fn view(&self) -> EntryView {
        match self {
            MenuEntry::Item { id, label } => EntryView::Item { id: id@, label: label@ },
            MenuEntry::Separator => EntryView::Separator,
        }
    }
}

/// The command behind each menu id; other ids ask for nothing.
pub open spec fn command_of(id: Seq<char>) -> Option<TrayCommand> {
    if id == "show"@ {
        Some(TrayCommand::Show)
    } else if id == "hide"@ {
        Some(TrayCommand::Hide)
    } else if id == "backend_status"@ {
        Some(TrayCommand::BackendStatus)
    } else if id == "restart_backend"@ {
        Some(TrayCommand::RestartBackend)
    } else if id == "quit"@ {
        Some(TrayCommand::Quit)
    } else {
        None
    }
}

/// The menu, top to bottom: window entries, backend entries, quit.
pub open spec fn menu_layout() -> Seq<EntryView> {
    seq![
        EntryView::Item { id: "show"@, label: "WatchHamster 열기"@ },
        EntryView::Item { id: "hide"@, label: "WatchHamster 숨기기"@ },
        EntryView::Separator,
        EntryView::Item { id: "backend_status"@, label: "백엔드 상태 확인"@ },
        EntryView::Item { id: "restart_backend"@, label: "백엔드 재시작"@ },
        EntryView::Separator,
        EntryView::Item { id: "quit"@, label: "종료"@ },
    ]
}

/// The command a menu click with `id` asks for.
pub fn tray_command(id: &str) -> (r: Option<TrayCommand>)
    ensures
        r == command_of(id@),
{
    if same_text(id, "show") {
        Some(TrayCommand::Show)
    } else if same_text(id, "hide") {
        Some(TrayCommand::Hide)
    } else if same_text(id, "backend_status") {
        Some(TrayCommand::BackendStatus)
    } else if same_text(id, "restart_backend") {
        Some(TrayCommand::RestartBackend)
    } else if same_text(id, "quit") {
        Some(TrayCommand::Quit)
    } else {
        None
    }
}

fn item(id: &str, label: &str) -> (r: MenuEntry)
    ensures
        r@ == (EntryView::Item { id: id@, label: label@ }),
{
    MenuEntry::Item { id: String::from_str(id), label: String::from_str(label) }
}

/// The entries of the tray menu, top to bottom.
pub fn create_tray_menu() -> (r: Vec<MenuEntry>)
    ensures
        r@.map_values(|e: MenuEntry| e@) == menu_layout(),
{
    let mut r: Vec<MenuEntry> = Vec::new();
    r.push(item("show", "WatchHamster 열기"));
    r.push(item("hide", "WatchHamster 숨기기"));
    r.push(MenuEntry::Separator);
    r.push(item("backend_status", "백엔드 상태 확인"));
    r.push(item("restart_backend", "백엔드 재시작"));
    r.push(MenuEntry::Separator);
    r.push(item("quit", "종료"));
    assert(r@.map_values(|e: MenuEntry| e@) =~= menu_layout());
    r
}

} // verus!
