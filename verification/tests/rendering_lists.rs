use rusty_craft::rendering::main::Cli;
use rusty_craft::rendering::utils::{StatefulList, StatefulTable};

fn names(n: usize) -> Vec<String> {
    let mut v = Vec::new();
    for i in 0..n {
        v.push(format!("item{}", i));
    }
    v
}

#[test]
fn list_stops_at_its_ends() {
    let mut list = StatefulList::with_items(names(3));
    assert_eq!(list.selected, Some(0));
    list.previous();
    assert_eq!(list.selected, Some(0));
    list.next();
    list.next();
    assert_eq!(list.selected, Some(2));
    list.next();
    assert_eq!(list.selected, Some(2));
    assert_eq!(list.selected().unwrap(), "item2");
}

#[test]
fn wrapping_list_goes_round() {
    let mut list = StatefulList::with_items_oob(names(3));
    list.previous();
    assert_eq!(list.selected, Some(2));
    list.next();
    assert_eq!(list.selected, Some(0));
    assert!(list.allow_oob);
}

#[test]
fn wrapping_moves_undo_each_other() {
    for start in 0..4 {
        let mut list = StatefulList::with_items_oob(names(4));
        list.selected = Some(start);
        list.next();
        list.previous();
        assert_eq!(list.selected, Some(start));
        list.previous();
        list.next();
        assert_eq!(list.selected, Some(start));
    }
}

#[test]
fn moves_stay_in_the_list() {
    for wrap in [false, true] {
        for start in [None, Some(0), Some(1), Some(4)] {
            let mut list = if wrap { StatefulList::with_items_oob(names(5)) } else { StatefulList::with_items(names(5)) };
            list.selected = start;
            list.next();
            assert!(list.selected.unwrap() < 5);
            list.selected = start;
            list.previous();
            assert!(list.selected.unwrap() < 5);
        }
    }
}

#[test]
fn nothing_selected_moves_to_first() {
    let mut list: StatefulList<String> = StatefulList::new();
    list.items = names(2);
    list.next();
    assert_eq!(list.selected, Some(0));
    list.unselect();
    assert_eq!(list.selected, None);
    list.previous();
    assert_eq!(list.selected, Some(0));
}

#[test]
fn inverted_lists_start_at_the_last_row() {
    let list = StatefulList::with_items_inverted(names(3));
    assert_eq!(list.selected, Some(2));
    assert!(!list.allow_oob);
    let list = StatefulList::with_items_inverted_oob(names(3));
    assert_eq!(list.selected, Some(2));
    assert!(list.allow_oob);
    let list: StatefulList<String> = StatefulList::new_inverted();
    assert!(list.allow_oob);
    assert_eq!(list.selected, None);
}

#[test]
fn selected_row_of_an_empty_list_is_none() {
    let list: StatefulList<String> = StatefulList::with_items(Vec::new());
    assert!(list.selected().is_none());
    let mut list = StatefulList::with_items(names(2));
    list.unselect();
    assert_eq!(list.selected().unwrap(), "item0");
}

#[test]
fn table_always_wraps() {
    let mut table = StatefulTable::with_items(names(3));
    assert_eq!(table.selected, Some(0));
    table.previous();
    assert_eq!(table.selected, Some(2));
    table.next();
    assert_eq!(table.selected, Some(0));
    table.unselect();
    table.next();
    assert_eq!(table.selected, Some(0));
    let empty: StatefulTable<String> = StatefulTable::new();
    assert_eq!(empty.selected, Some(0));
    assert!(empty.items.is_empty());
}

#[test]
fn interface_ticks_every_quarter_second() {
    let cli = Cli::launcher_default();
    assert_eq!(cli.tick_rate, 250);
    assert!(cli.enhanced_graphics);
}
