use lib::x86_64::context::{X86Context, INITIAL_RFLAGS};
use lib::x86_64::idt::{remap_pic, Idt, IdtEntry, IDT_ENTRIES, IDT_LIMIT};
use lib::x86_64::interrupts::PicInterrupts;

#[test]
fn missing_entry_is_all_zero() {
    let e = IdtEntry::missing();
    assert_eq!(e.offset_lo, 0);
    assert_eq!(e.selector, 0);
    assert_eq!(e.ist_and_zero, 0);
    assert_eq!(e.type_attr, 0);
    assert_eq!(e.offset_mid, 0);
    assert_eq!(e.offset_hi, 0);
    assert_eq!(e.reserved, 0);
}

#[test]
fn set_splits_handler_address() {
    let mut e = IdtEntry::missing();
    e.set(0x1234_5678_9abc_def0);
    assert_eq!(e.offset_lo, 0xdef0);
    assert_eq!(e.offset_mid, 0x9abc);
    assert_eq!(e.offset_hi, 0x1234_5678);
    assert_eq!(e.selector, 0x08);
    assert_eq!(e.type_attr, 0x8E);
    assert_eq!(e.ist_and_zero, 0);
    assert_eq!(e.reserved, 0);
    let back = ((e.offset_hi as u64) << 32) | ((e.offset_mid as u64) << 16) | e.offset_lo as u64;
    assert_eq!(back, 0x1234_5678_9abc_def0);
}

#[test]
fn idt_limit_covers_256_sixteen_byte_entries() {
    assert_eq!(IDT_LIMIT as usize, 256 * 16 - 1);
}

#[test]
fn install_irq_stubs_fills_vectors_0x20_to_0x2f() {
    let mut idt = Idt::new();
    let stubs: [u64; 16] = core::array::from_fn(|i| 0xffff_8000_0010_0000 + i as u64 * 0x40);
    idt.install_irq_stubs(&stubs);
    for v in 0..IDT_ENTRIES {
        let e = idt.entry(v);
        if (0x20..0x30).contains(&v) {
            let mut want = IdtEntry::missing();
            want.set(stubs[v - 0x20]);
            assert_eq!(e, want);
        } else {
            assert_eq!(e, IdtEntry::missing());
        }
    }
}

#[test]
fn remap_pic_sequence() {
    let w = remap_pic();
    assert_eq!(
        w,
        [
            (0x20, 0x11),
            (0xA0, 0x11),
            (0x21, 0x20),
            (0xA1, 0x28),
            (0x21, 0x04),
            (0xA1, 0x02),
            (0x21, 0x01),
            (0xA1, 0x01),
            (0x21, 0xFF),
            (0xA1, 0xFF),
        ]
    );
}

#[test]
fn pic_mask_and_unmask_touch_one_bit() {
    assert_eq!(PicInterrupts::<u32>::mask(0b0000_0000, 0), Some(0b0000_0001));
    assert_eq!(PicInterrupts::<u32>::mask(0b1000_0000, 3), Some(0b1000_1000));
    assert_eq!(PicInterrupts::<u32>::unmask(0xFF, 0), Some(0xFE));
    assert_eq!(PicInterrupts::<u32>::unmask(0xFF, 7), Some(0x7F));
    assert_eq!(PicInterrupts::<u32>::unmask(PicInterrupts::<u32>::mask(0x10, 2).unwrap(), 2), Some(0x10));
}

#[test]
fn pic_mask_reaches_slave_lines() {
    assert_eq!(PicInterrupts::<u32>::imr_port(0), Some(0x21));
    assert_eq!(PicInterrupts::<u32>::imr_port(7), Some(0x21));
    assert_eq!(PicInterrupts::<u32>::imr_port(8), Some(0xA1));
    assert_eq!(PicInterrupts::<u32>::imr_port(15), Some(0xA1));
    assert_eq!(PicInterrupts::<u32>::mask(0, 8), Some(0b0000_0001));
    assert_eq!(PicInterrupts::<u32>::mask(0b0000_0100, 12), Some(0b0001_0100));
    assert_eq!(PicInterrupts::<u32>::unmask(0xFF, 15), Some(0x7F));
}

#[test]
fn pic_mask_ignores_lines_past_sixteen() {
    assert_eq!(PicInterrupts::<u32>::imr_port(16), None);
    assert_eq!(PicInterrupts::<u32>::mask(0, 16), None);
    assert_eq!(PicInterrupts::<u32>::unmask(0xFF, 100), None);
}

#[test]
fn pic_handlers_register_dispatch_unregister() {
    let mut pic: PicInterrupts<u32> = PicInterrupts::new();
    assert_eq!(pic.dispatch(0), None);
    pic.register_handler(0, 100);
    pic.register_handler(15, 115);
    assert_eq!(pic.dispatch(0), Some(100));
    assert_eq!(pic.dispatch(15), Some(115));
    assert_eq!(pic.dispatch(1), None);
    pic.register_handler(16, 116);
    assert_eq!(pic.dispatch(16), None);
    pic.unregister_handler(0);
    assert_eq!(pic.dispatch(0), None);
    assert_eq!(pic.dispatch(15), Some(115));
}

#[test]
fn x86_initial_frame_layout() {
    let f = X86Context.initial_frame(0x20_0000, 0xdead_beef);
    assert_eq!(f.sp, 0x20_0000 - 64);
    assert_eq!(f.words, [0, 0, 0, 0, 0, 0, INITIAL_RFLAGS, 0xdead_beef]);
    assert_eq!(INITIAL_RFLAGS, 0x202);
}

#[test]
fn x86_initial_frame_aligns_stack_top() {
    let f = X86Context.initial_frame(0x20_000f, 7);
    assert_eq!(f.sp, 0x20_0000 - 64);
    assert_eq!(f.sp % 16, 0);
    assert_eq!(f.words[7], 7);
}
