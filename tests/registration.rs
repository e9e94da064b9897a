use nautilus_extension::column_provider::{
    column_provider_get_columns, native_columns, rust_column_provider_setters,
    take_next_column_provider_iface_index, NativeColumn,
};
use nautilus_extension::info_provider::{rust_info_provider_setters, take_next_info_provider_iface_index};
use nautilus_extension::menu_provider::{rust_menu_provider_setters, take_next_menu_provider_iface_index};
use nautilus_extension::nautilus_module::{InterfaceBinding, ProviderKind};
use nautilus_extension::property_page_provider::{
    property_page_provider_get_pages, rust_property_page_provider_setters,
    take_next_property_page_provider_iface_index,
};
use nautilus_extension::slots::{RegistrationError, SlotBank, SLOT_CAPACITY};
use nautilus_extension::{
    Column, ColumnProvider, FileInfo, InfoProvider, MenuItem, MenuProvider, NautilusModule,
    PropertyPage, PropertyPageProvider,
};

struct Columns(Vec<(&'static str, &'static str, &'static str, &'static str)>);

impl ColumnProvider for Columns {
    fn get_columns(&self) -> Vec<Column> {
        self.0.iter().map(|c| Column::new(c.0, c.1, c.2, c.3)).collect()
    }
}

struct NoInfo;

impl InfoProvider for NoInfo {
    fn should_update_file_info(&self, _file_info: &FileInfo) -> bool {
        false
    }

    fn update_file_info(&self, _file_info: &mut FileInfo) {}
}

struct NoMenu;

impl MenuProvider for NoMenu {}

struct Pages(Vec<&'static str>);

impl PropertyPageProvider for Pages {
    fn get_pages(&self, _files: &Vec<FileInfo>) -> Vec<PropertyPage> {
        self.0.iter().enumerate().map(|(i, n)| PropertyPage::new(n, 100 + i, 200 + i)).collect()
    }
}

#[test]
fn it_works() {}

#[test]
fn capacity_is_ten() {
    assert_eq!(SLOT_CAPACITY, 10);
}

#[test]
fn column_providers_fill_ten_slots_then_fail() {
    let mut module = NautilusModule::new(7, "RustExtension");
    let mut bank: SlotBank<Columns> = SlotBank::new();
    for i in 0..SLOT_CAPACITY {
        assert_eq!(module.add_column_provider(&mut bank, Columns(vec![])), Ok(i));
    }
    assert_eq!(
        module.add_column_provider(&mut bank, Columns(vec![])),
        Err(RegistrationError::CapacityExceeded)
    );
    assert_eq!(
        module.add_column_provider(&mut bank, Columns(vec![])),
        Err(RegistrationError::CapacityExceeded)
    );
    let plan = module.register().unwrap();
    assert_eq!(plan.interfaces.len(), SLOT_CAPACITY);
    for i in 0..SLOT_CAPACITY {
        assert_eq!(plan.interfaces[i], InterfaceBinding { kind: ProviderKind::Column, slot: i });
    }
}

#[test]
fn every_kind_has_its_own_ten_slots() {
    let mut module = NautilusModule::new(7, "RustExtension");
    let mut infos: SlotBank<NoInfo> = SlotBank::new();
    let mut menus: SlotBank<NoMenu> = SlotBank::new();
    let mut pages: SlotBank<Pages> = SlotBank::new();
    let mut seen = Vec::new();
    for _ in 0..SLOT_CAPACITY {
        let a = module.add_info_provider(&mut infos, NoInfo).unwrap();
        let b = module.add_menu_provider(&mut menus, NoMenu).unwrap();
        let c = module.add_property_page_provider(&mut pages, Pages(vec![])).unwrap();
        assert_eq!(a, b);
        assert_eq!(b, c);
        assert!(!seen.contains(&a));
        seen.push(a);
    }
    assert_eq!(module.add_info_provider(&mut infos, NoInfo), Err(RegistrationError::CapacityExceeded));
    assert_eq!(module.add_menu_provider(&mut menus, NoMenu), Err(RegistrationError::CapacityExceeded));
    assert_eq!(
        module.add_property_page_provider(&mut pages, Pages(vec![])),
        Err(RegistrationError::CapacityExceeded)
    );
    let plan = module.register().unwrap();
    assert_eq!(plan.module, 7);
    assert_eq!(plan.name, b"RustExtension\0".to_vec());
    assert_eq!(plan.interfaces.len(), 3 * SLOT_CAPACITY);
    assert_eq!(plan.interfaces[0], InterfaceBinding { kind: ProviderKind::Info, slot: 0 });
    assert_eq!(plan.interfaces[10], InterfaceBinding { kind: ProviderKind::Menu, slot: 0 });
    assert_eq!(plan.interfaces[29], InterfaceBinding { kind: ProviderKind::PropertyPage, slot: 9 });
}

#[test]
fn register_orders_interfaces_by_kind() {
    let mut module = NautilusModule::new(1, "Ext");
    let mut columns: SlotBank<Columns> = SlotBank::new();
    let mut pages: SlotBank<Pages> = SlotBank::new();
    let mut menus: SlotBank<NoMenu> = SlotBank::new();
    module.add_property_page_provider(&mut pages, Pages(vec![])).unwrap();
    module.add_menu_provider(&mut menus, NoMenu).unwrap();
    module.add_column_provider(&mut columns, Columns(vec![])).unwrap();
    module.add_column_provider(&mut columns, Columns(vec![])).unwrap();
    let plan = module.register().unwrap();
    assert_eq!(
        plan.interfaces,
        vec![
            InterfaceBinding { kind: ProviderKind::Column, slot: 0 },
            InterfaceBinding { kind: ProviderKind::Column, slot: 1 },
            InterfaceBinding { kind: ProviderKind::Menu, slot: 0 },
            InterfaceBinding { kind: ProviderKind::PropertyPage, slot: 0 },
        ]
    );
}

#[test]
fn register_rejects_a_name_with_nul() {
    let module = NautilusModule::new(1, "Bad\0Name");
    assert!(module.register().is_none());
}

#[test]
fn register_without_providers_has_no_interfaces() {
    let module = NautilusModule::new(3, "Empty");
    let plan = module.register().unwrap();
    assert_eq!(plan.name, b"Empty\0".to_vec());
    assert!(plan.interfaces.is_empty());
}

#[test]
fn take_next_index_counts_up_per_bank() {
    let mut columns: SlotBank<Columns> = SlotBank::new();
    let mut infos: SlotBank<NoInfo> = SlotBank::new();
    let mut menus: SlotBank<NoMenu> = SlotBank::new();
    let mut pages: SlotBank<Pages> = SlotBank::new();
    assert_eq!(take_next_column_provider_iface_index(&mut columns), 0);
    assert_eq!(take_next_column_provider_iface_index(&mut columns), 1);
    assert_eq!(take_next_info_provider_iface_index(&mut infos), 0);
    assert_eq!(take_next_menu_provider_iface_index(&mut menus), 0);
    assert_eq!(take_next_menu_provider_iface_index(&mut menus), 1);
    assert_eq!(take_next_menu_provider_iface_index(&mut menus), 2);
    assert_eq!(take_next_property_page_provider_iface_index(&mut pages), 0);
}

#[test]
fn setter_tables_cover_every_slot_in_order() {
    for table in [
        rust_column_provider_setters(),
        rust_info_provider_setters(),
        rust_menu_provider_setters(),
        rust_property_page_provider_setters(),
    ] {
        assert_eq!(table.len(), SLOT_CAPACITY);
        for (i, setter) in table.iter().enumerate() {
            assert_eq!(setter.index, i);
        }
    }
}

#[test]
fn setter_installs_into_an_issued_slot() {
    let mut bank: SlotBank<Columns> = SlotBank::new();
    let index = take_next_column_provider_iface_index(&mut bank);
    assert!(bank.get(index).is_none());
    let setters = rust_column_provider_setters();
    setters[index].set(&mut bank, Columns(vec![("n", "a", "l", "d")]));
    assert_eq!(column_provider_get_columns(&bank, index).len(), 1);
}

#[test]
fn empty_column_slot_gives_no_columns() {
    let mut bank: SlotBank<Columns> = SlotBank::new();
    assert!(column_provider_get_columns(&bank, 0).is_empty());
    assert!(column_provider_get_columns(&bank, 9).is_empty());
    assert!(column_provider_get_columns(&bank, 57).is_empty());
    bank.register(Columns(vec![("n", "a", "l", "d")])).unwrap();
    assert!(column_provider_get_columns(&bank, 1).is_empty());
}

#[test]
fn column_dispatch_marshals_each_column() {
    let mut bank: SlotBank<Columns> = SlotBank::new();
    bank.register(Columns(vec![])).unwrap();
    bank.register(Columns(vec![
        ("rating", "custom:rating", "Rating", "How much you like it"),
        ("tag", "custom:tag", "Tag", "A tag"),
    ]))
    .unwrap();
    assert!(column_provider_get_columns(&bank, 0).is_empty());
    let cols = column_provider_get_columns(&bank, 1);
    assert_eq!(cols.len(), 2);
    assert_eq!(cols[0].name, b"rating\0".to_vec());
    assert_eq!(cols[0].attribute, b"custom:rating\0".to_vec());
    assert_eq!(cols[0].label, b"Rating\0".to_vec());
    assert_eq!(cols[0].description, b"How much you like it\0".to_vec());
    assert_eq!(cols[1].name, b"tag\0".to_vec());
}

#[test]
fn a_column_with_nul_empties_the_list() {
    let columns = vec![Column::new("a", "b", "c", "d"), Column::new("a", "b\0", "c", "d")];
    let native: Vec<NativeColumn> = native_columns(&columns);
    assert!(native.is_empty());
    assert!(Column::new("x", "y", "z\0", "w").to_native().is_none());
    let one = Column::new("é", "b", "c", "d").to_native().unwrap();
    assert_eq!(one.name, vec![0xc3, 0xa9, 0]);
}

#[test]
fn empty_page_slot_gives_no_pages() {
    let bank: SlotBank<Pages> = SlotBank::new();
    let files = vec![FileInfo::new(1, "file:///tmp/a", "file")];
    assert!(property_page_provider_get_pages(&bank, 0, &files).is_empty());
}

#[test]
fn page_dispatch_passes_widgets_through() {
    let mut bank: SlotBank<Pages> = SlotBank::new();
    bank.register(Pages(vec!["General", "Extra"])).unwrap();
    let files = vec![FileInfo::new(1, "file:///tmp/a", "file")];
    let pages = property_page_provider_get_pages(&bank, 0, &files);
    assert_eq!(pages.len(), 2);
    assert_eq!(pages[0].name, b"General\0".to_vec());
    assert_eq!(pages[0].raw_label, 100);
    assert_eq!(pages[0].raw_page, 200);
    assert_eq!(pages[1].name, b"Extra\0".to_vec());
    assert_eq!(pages[1].raw_label, 101);
    assert_eq!(pages[1].raw_page, 201);
}

#[test]
fn page_name_with_nul_gives_no_pages() {
    let mut bank: SlotBank<Pages> = SlotBank::new();
    bank.register(Pages(vec!["Fine", "Bad\0"])).unwrap();
    let files = vec![];
    assert!(property_page_provider_get_pages(&bank, 0, &files).is_empty());
}

#[test]
fn menu_item_starts_bare() {
    let item = MenuItem::new("id", "Label", "Tip", None);
    let list = nautilus_extension::menu_provider::native_menu_items(
        &nautilus_extension::Menu::new(vec![item]),
        0,
    );
    assert_eq!(list.len(), 1);
    assert!(list[0].icon.is_none());
    assert!(list[0].submenu.is_none());
    assert!(list[0].connections.is_empty());
}
