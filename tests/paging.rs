use kernel::mem::{Entry, EntryBits, Page, PageBits, Table, aling_value};

#[test]
fn alignment_rounds_up() {
    assert_eq!(aling_value(4097, 12), 8192);
    assert_eq!(aling_value(4096, 12), 4096);
    assert_eq!(aling_value(0, 12), 0);
    assert_eq!(aling_value(5, 0), 5);
}

#[test]
fn page_flags() {
    let mut p = Page { flags: 0 };
    assert!(p.is_free());
    p.set_flags(PageBits::Taken);
    assert!(p.is_taken());
    assert!(!p.is_last());
    p.set_flags(PageBits::Last);
    assert!(p.is_last());
    p.flags = 3;
    p.clear_flags(PageBits::Taken);
    assert_eq!(p.flags, 2);
    p.clear();
    assert_eq!(p.flags, 0);
    assert_eq!(PageBits::Empty.val(), 0);
}

#[test]
fn entry_bits() {
    assert_eq!(EntryBits::Valid.val(), 1);
    assert_eq!(EntryBits::Dirty.val(), 128);
    assert_eq!(EntryBits::ReadWriteExecute.val(), 14);
    assert_eq!(EntryBits::UserReadWriteExecute.val(), 30);
    let mut e = Entry { entry: 0 };
    assert!(e.is_invalid());
    assert!(e.is_branch());
    e.set_entry(EntryBits::ReadWrite.val() | EntryBits::Valid.val());
    assert!(e.is_valid());
    assert!(e.is_leaf());
    assert_eq!(e.get_entry(), 7);
    let t = Table { entries: [Entry { entry: 0 }; 512] };
    assert_eq!(Table::len(), t.entries.len());
}
