use rustic::gdt::{setup_gdt, Gdt, GdtEntry, GdtRegister, GDT_ENTRIES};
use rustic::idt::{IdtTable, Idt, IdtEntry, IdtRegister, TrapCall, IDT_ENTRIES};
use rustic::mem::Heap;

#[test]
fn aligned_allocs() {
    let mut heap = Heap::new();
    assert_eq!(0x200000, heap.direct_alloc(0x100, 0x10));
    assert_eq!(0x200100, heap.direct_alloc(0x123, 0x100));
    assert_eq!(0x200230, heap.direct_alloc(0x100, 0x10));
    assert_eq!(0x200330, heap.direct_alloc(0x3, 0x10));
    assert_eq!(0x200340, heap.direct_alloc(0x3, 0x10));
}

#[test]
fn dealloc_keeps_the_heap() {
    let mut heap = Heap::at(0x1000);
    let p = heap.direct_alloc(8, 8);
    heap.direct_dealloc(p);
    assert_eq!(heap.heap_base, 0x1008);
}

#[test]
fn gdt_new_is_all_null() {
    let gdt = Gdt::new();
    assert_eq!(gdt.table.len(), GDT_ENTRIES);
    for e in gdt.table.iter() {
        assert_eq!(*e, GdtEntry::new());
    }
    let e0 = gdt.table[0];
    assert_eq!((e0.base_low, e0.base_mid, e0.base_high, e0.limit_low, e0.access), (0, 0, 0, 0, 0));
}

#[test]
fn gdt_entry_zero_stays_null_after_rewrites() {
    let mut gdt = Gdt::new();
    gdt.entry(1, 0x1234_5678, 0xFFFF, 0x92, 0xCF);
    gdt.entry(0, 0, 0, 0, 0);
    gdt.entry(15, 0xFFFF_FFFF, 0xFFFF_FFFF, 0xFF, 0xFF);
    assert_eq!(gdt.table[0], GdtEntry::new());
    assert_eq!(gdt.table[1], GdtEntry::create(0x1234_5678, 0xFFFF, 0x92, 0xCF));
    let boot = setup_gdt(0xDEAD_BEEF);
    assert_eq!(boot.table[0], GdtEntry::new());
}

#[test]
fn gdt_entry_encoding() {
    let e = GdtEntry::create(0x1234_5678, 0xABCDE, 0x92, 0xCF);
    assert_eq!(e.base_low, 0x5678);
    assert_eq!(e.base_mid, 0x34);
    assert_eq!(e.base_high, 0x12);
    assert_eq!(e.limit_low, 0xBCDE);
    assert_eq!(e.access, 0x92);
    assert_eq!(e.gran, 0xCF);
    assert_eq!(e.to_bytes(), vec![0xDE, 0xBC, 0x78, 0x56, 0x34, 0x92, 0xCF, 0x12]);
}

#[test]
fn gdt_boot_layout() {
    let gdt = setup_gdt(0x0010_2000);
    assert_eq!(gdt.table[1].to_bytes(), vec![0xFF, 0xFF, 0, 0, 0, 0x98, 0xCF, 0]);
    assert_eq!(gdt.table[2].access, 0x92);
    assert_eq!(gdt.table[3].access, 0xF8);
    assert_eq!(gdt.table[4].access, 0xF2);
    assert_eq!(gdt.table[5].to_bytes(), vec![0xFF, 0xFF, 0x00, 0x20, 0x10, 0x92, 0xCF, 0x00]);
    for i in 6..GDT_ENTRIES {
        assert_eq!(gdt.table[i], GdtEntry::new());
    }
    let image = gdt.image();
    assert_eq!(image.len(), 128);
    assert_eq!(&image[8..16], &[0xFF, 0xFF, 0, 0, 0, 0x98, 0xCF, 0][..]);
    let load = gdt.load(0x9000, 0x08, 0x10, 0x28);
    assert_eq!(load.reg, GdtRegister { limit: 129, addr: 0x9000 });
    assert_eq!((load.code_selector, load.data_selector, load.tls_selector), (0x08, 0x10, 0x28));
    assert_eq!(gdt.load_boot(0x9000), load);
}

#[test]
fn idt_entry_encoding() {
    let e = IdtEntry::create(0x0010_1234, 0x08, 0x8E);
    assert_eq!(e.handler_low, 0x1234);
    assert_eq!(e.handler_high, 0x0010);
    assert_eq!(e.flags, 0xEE);
    assert_eq!(e.to_bytes(), vec![0x34, 0x12, 0x08, 0x00, 0x00, 0xEE, 0x10, 0x00]);
    assert_eq!(IdtRegister::new(0x5000), IdtRegister { limit: 2049, addr: 0x5000 });
}

#[test]
fn idt_entries_point_at_their_stubs() {
    let mut table = IdtTable::new();
    table.init(0x0010_0000);
    assert_eq!(table.table.len(), IDT_ENTRIES);
    assert_eq!(table.table[0], IdtEntry::create(0x0010_0000, 0x08, 0x8E));
    assert_eq!(table.table[1], IdtEntry::create(0x0010_000A, 0x08, 0x8E));
    assert_eq!(table.table[255], IdtEntry::create(0x0010_0000 + 2550, 0x08, 0x8E));
    let image = table.image();
    assert_eq!(image.len(), 2048);
    assert_eq!(&image[8..16], &[0x0A, 0x00, 0x08, 0x00, 0x00, 0xEE, 0x10, 0x00][..]);
    assert_eq!(table.load(0x7000), IdtRegister { limit: 2049, addr: 0x7000 });
}

#[test]
fn unregistered_vectors_do_nothing() {
    let idt: Idt<u32> = Idt::new();
    for v in 0..IDT_ENTRIES {
        assert_eq!(idt.trap(v), None);
    }
}

#[test]
fn registered_handler_runs_once_with_its_vector() {
    let mut idt: Idt<u32> = Idt::new();
    idt.register(0x30, 7);
    assert_eq!(idt.trap(0x30), Some(TrapCall { handler: 7, arg: 0x30 }));
    assert_eq!(idt.trap(0x31), None);
    idt.register(0x30, 9);
    assert_eq!(idt.trap(0x30), Some(TrapCall { handler: 9, arg: 0x30 }));
}
