use pixel_game_lib::assets::ResourceMap;

#[test]
fn new_table_is_empty() {
    let table: ResourceMap<u32> = ResourceMap::new();
    assert_eq!(table.len(), 0);
    assert_eq!(table.slot("player"), None);
    assert!(!table.contains_key("player"));
    assert!(table.get("player").is_none());
}

#[test]
fn same_identifier_is_loaded_once() {
    let mut table: ResourceMap<String> = ResourceMap::new();
    let mut loads = 0;
    let first = table.get_or_load("player", |name: &str| -> Result<String, ()> {
        loads += 1;
        Ok(format!("loaded {}", name))
    });
    assert_eq!(first, Ok(0));
    let second = table.get_or_load("player", |name: &str| -> Result<String, ()> {
        loads += 1;
        Ok(format!("loaded {} again", name))
    });
    // The same slot, and the resource of the first request
    assert_eq!(second, Ok(0));
    assert_eq!(loads, 1);
    assert_eq!(table.len(), 1);
    assert_eq!(table.get("player").unwrap(), "loaded player");
    assert!(std::ptr::eq(table.get("player").unwrap(), table.resource(0)));
}

#[test]
fn identifiers_get_slots_in_the_order_of_their_first_request() {
    let mut table: ResourceMap<u32> = ResourceMap::new();
    assert_eq!(table.get_or_load("a", |_: &str| -> Result<u32, ()> { Ok(10) }), Ok(0));
    assert_eq!(table.get_or_load("b", |_: &str| -> Result<u32, ()> { Ok(20) }), Ok(1));
    assert_eq!(table.get_or_load("a", |_: &str| -> Result<u32, ()> { Ok(30) }), Ok(0));
    assert_eq!(table.get_or_load("c.d", |_: &str| -> Result<u32, ()> { Ok(40) }), Ok(2));
    assert_eq!(table.len(), 3);
    assert_eq!(table.slot("a"), Some(0));
    assert_eq!(table.slot("b"), Some(1));
    assert_eq!(table.slot("c.d"), Some(2));
    assert_eq!(table.slot("c"), None);
    assert_eq!(table.get("a"), Some(&10));
    assert_eq!(table.get("b"), Some(&20));
    assert_eq!(*table.resource(2), 40);
    assert!(table.contains_key("b"));
}

#[test]
fn failed_load_changes_nothing() {
    let mut table: ResourceMap<u32> = ResourceMap::new();
    let failed = table.get_or_load("missing", |_: &str| -> Result<u32, &'static str> {
        Err("no such file")
    });
    assert_eq!(failed, Err("no such file"));
    assert_eq!(table.len(), 0);
    assert!(!table.contains_key("missing"));
    // A later request tries again
    let loaded = table.get_or_load("missing", |_: &str| -> Result<u32, &'static str> { Ok(7) });
    assert_eq!(loaded, Ok(0));
    assert_eq!(table.get("missing"), Some(&7));
}

#[test]
fn loader_gets_the_identifier() {
    let mut table: ResourceMap<String> = ResourceMap::new();
    let long = "a.path.that.is.longer.than.what.fits.inline";
    table
        .get_or_load(long, |name: &str| -> Result<String, ()> { Ok(name.to_uppercase()) })
        .unwrap();
    assert_eq!(table.get(long).unwrap(), &long.to_uppercase());
    assert_eq!(table.slot(long), Some(0));
    assert_eq!(table.slot(&long[1..]), None);
}

#[test]
fn each_mut_reaches_every_resource_in_order() {
    let mut table: ResourceMap<u32> = ResourceMap::new();
    table.get_or_load("a", |_: &str| -> Result<u32, ()> { Ok(1) }).unwrap();
    table.get_or_load("b", |_: &str| -> Result<u32, ()> { Ok(2) }).unwrap();
    table.get_or_load("c", |_: &str| -> Result<u32, ()> { Ok(3) }).unwrap();
    let each = table.each_mut();
    assert_eq!(each.len(), 3);
    for (i, resource) in each.into_iter().enumerate() {
        assert_eq!(*resource, i as u32 + 1);
        *resource *= 10;
    }
    assert_eq!(table.get("a"), Some(&10));
    assert_eq!(table.get("b"), Some(&20));
    assert_eq!(table.get("c"), Some(&30));
    assert_eq!(table.slot("c"), Some(2));
}
