use curry_lang::provider::Bar;
use curry_lang::provider::factory;
use curry_lang::symbol_table::SymbolTable;

#[test]
fn test_it() {
    let bar_provider = curry_lang::provider::test("Test");
    let bar = bar_provider.create_bar();
    let bar_ref: &Bar = &bar;
    println!("{:?}", bar_ref);
}

#[test]
fn unsafe_hack_works() {
    let wrapper = factory();
    println!("got bar: {:?}", wrapper.bar);
}

#[test]
fn provider_hands_out_the_owned_text() {
    let provider = curry_lang::provider::test("spices");
    assert_eq!(provider.foo.text, "spices");
    assert_eq!(provider.create_bar().foo.text, "spices");
    let wrapper = factory();
    assert_eq!(wrapper.bar.as_ref().unwrap().foo.text, wrapper.foo.text);
}

#[test]
fn symbol_table_tracks_slots() {
    let mut table = SymbolTable::new();
    assert!(!table.contains("x"));
    assert_eq!(table.get("x"), None);
    table.insert(String::from("x"), 0);
    assert!(table.contains("x"));
    assert_eq!(table.get("x"), Some(0));
    table.insert(String::from("y"), 1);
    assert_eq!(table.get("y"), Some(1));
    assert_eq!(table.get("x"), Some(0));
    assert!(!table.contains("z"));
}
