use nautilus_extension::menu_provider::{
    menu_provider_get_background_items, menu_provider_get_file_items, native_menu_items,
    NativeMenuItem,
};
use nautilus_extension::slots::SlotBank;
use nautilus_extension::{FileInfo, Menu, MenuItem, MenuProvider};

struct FileMenu;

impl MenuProvider for FileMenu {
    fn get_file_items(&self, _window: usize, files: &[FileInfo]) -> Vec<MenuItem> {
        let mut open = MenuItem::new("open", "Open", "Open the files", Some("document-open"));
        open.set_activate_cb(0x1000);
        let mut count = MenuItem::new("count", "Count", "How many", None);
        count.set_submenu(Menu::new(
            files.iter().map(|f| MenuItem::new("f", "File", &f.get_uri(), None)).collect(),
        ));
        vec![open, count]
    }
}

fn tree() -> Menu {
    let mut leaf_a = MenuItem::new("a", "A", "tip a", None);
    leaf_a.set_activate_cb(0xA);
    let leaf_b = MenuItem::new("b", "B", "tip b", Some("icon-b"));
    let mut deep = MenuItem::new("deep", "Deep", "tip deep", None);
    deep.set_submenu(Menu::new(vec![MenuItem::new("c", "C", "tip c", None)]));
    let mut parent = MenuItem::new("parent", "Parent", "tip parent", None);
    parent.set_submenu(Menu::new(vec![leaf_a, leaf_b, deep]));
    parent.set_activate_cb(0xB);
    Menu::new(vec![parent, MenuItem::new("plain", "Plain", "tip plain", None)])
}

fn count_connections(items: &[NativeMenuItem]) -> usize {
    items
        .iter()
        .map(|i| i.connections.len() + i.submenu.as_ref().map_or(0, |m| count_connections(&m.items)))
        .sum()
}

#[test]
fn submenu_shape_is_mirrored() {
    let list = native_menu_items(&tree(), 77);
    assert_eq!(list.len(), 2);
    let parent = &list[0];
    assert_eq!(parent.name, b"parent\0".to_vec());
    let sub = parent.submenu.as_ref().unwrap();
    assert_eq!(sub.items.len(), 3);
    assert_eq!(sub.items[1].icon, Some(b"icon-b\0".to_vec()));
    let deeper = sub.items[2].submenu.as_ref().unwrap();
    assert_eq!(deeper.items.len(), 1);
    assert_eq!(deeper.items[0].label, b"C\0".to_vec());
    assert!(deeper.items[0].submenu.is_none());
    assert!(list[1].submenu.is_none());
}

#[test]
fn each_callback_gets_one_connection_with_the_payload() {
    let list = native_menu_items(&tree(), 77);
    assert_eq!(count_connections(&list), 2);
    let parent = &list[0];
    assert_eq!(parent.connections.len(), 1);
    assert_eq!(parent.connections[0].signal, "activate");
    assert_eq!(parent.connections[0].callback, 0xB);
    assert_eq!(parent.connections[0].payload, 77);
    let leaf = &parent.submenu.as_ref().unwrap().items[0];
    assert_eq!(leaf.connections.len(), 1);
    assert_eq!(leaf.connections[0].callback, 0xA);
    assert_eq!(leaf.connections[0].payload, 77);
    assert!(list[1].connections.is_empty());
}

#[test]
fn to_raw_wraps_the_same_items() {
    let raw = tree().to_raw(5).unwrap();
    assert_eq!(raw.items.len(), 2);
    assert_eq!(raw.items[1].tip, b"tip plain\0".to_vec());
}

#[test]
fn nul_anywhere_in_the_tree_gives_an_empty_list() {
    let mut parent = MenuItem::new("p", "P", "t", None);
    parent.set_submenu(Menu::new(vec![MenuItem::new("x", "X", "t", Some("ic\0on"))]));
    let menu = Menu::new(vec![MenuItem::new("ok", "Ok", "t", None), parent]);
    assert!(menu.to_raw(1).is_none());
    assert!(native_menu_items(&menu, 1).is_empty());
}

#[test]
fn empty_menu_slot_gives_no_items() {
    let bank: SlotBank<FileMenu> = SlotBank::new();
    let files = vec![FileInfo::new(1, "file:///a", "file")];
    assert!(menu_provider_get_file_items(&bank, 0, 9, &files, 3).is_empty());
    assert!(menu_provider_get_background_items(&bank, 0, 9, &files[0], 3).is_empty());
}

#[test]
fn file_items_come_from_the_provider() {
    let mut bank: SlotBank<FileMenu> = SlotBank::new();
    bank.register(FileMenu).unwrap();
    let files = vec![FileInfo::new(1, "file:///a", "file"), FileInfo::new(2, "file:///b", "file")];
    let items = menu_provider_get_file_items(&bank, 0, 9, &files, 3);
    assert_eq!(items.len(), 2);
    assert_eq!(items[0].icon, Some(b"document-open\0".to_vec()));
    assert_eq!(items[0].connections[0].payload, 3);
    let sub = items[1].submenu.as_ref().unwrap();
    assert_eq!(sub.items.len(), 2);
    assert_eq!(sub.items[1].tip, b"file:///b\0".to_vec());
}

#[test]
fn default_background_items_are_none() {
    let mut bank: SlotBank<FileMenu> = SlotBank::new();
    bank.register(FileMenu).unwrap();
    let folder = FileInfo::new(1, "file:///a", "file");
    assert!(menu_provider_get_background_items(&bank, 0, 9, &folder, 3).is_empty());
}
