use x86_primitives::descriptor::DescriptorTablePointer;
use x86_primitives::halves::{high_half, join, low_half};
use x86_primitives::instructions::{
    disable_interrupts, enable_interrupts, halt, lgdt, lidt, lldt, load_tss, rdmsr, rdtsc, rdtscp,
    software_interrupt, wrmsr, Direction, Instruction, Outputs, StringInstruction, Width,
};
use x86_primitives::port::{
    inb, inl, insb, insl, insw, inw, outb, outl, outsb, outsl, outsw, outw,
};
use x86_primitives::selector::SegmentSelector;

#[test]
fn join_of_zero_halves_is_zero() {
    assert_eq!(join(0, 0), 0);
}

#[test]
fn join_of_full_halves_is_full() {
    assert_eq!(join(0xFFFF_FFFF, 0xFFFF_FFFF), 0xFFFF_FFFF_FFFF_FFFF);
}

#[test]
fn join_puts_high_above_low() {
    assert_eq!(join(0x1234_5678, 0x9ABC_DEF0), 0x1234_5678_9ABC_DEF0);
    assert_eq!(join(1, 0), 0x1_0000_0000);
    assert_eq!(join(0, 1), 1);
    assert_eq!(join(0xDEAD_BEEF, 0), 0xDEAD_BEEF_0000_0000);
}

#[test]
fn halves_of_a_value() {
    assert_eq!(high_half(0x1234_5678_9ABC_DEF0), 0x1234_5678);
    assert_eq!(low_half(0x1234_5678_9ABC_DEF0), 0x9ABC_DEF0);
    assert_eq!(high_half(0xFFFF_FFFF), 0);
    assert_eq!(low_half(0xFFFF_FFFF_0000_0000), 0);
}

#[test]
fn split_then_join_is_identity() {
    let samples: [u64; 6] = [
        0,
        1,
        0xFFFF_FFFF,
        0x1_0000_0000,
        0x8000_0000_0000_0001,
        0xFFFF_FFFF_FFFF_FFFF,
    ];
    for value in samples {
        assert_eq!(join(high_half(value), low_half(value)), value);
    }
}

#[test]
fn edx_eax_assembles_the_pair() {
    let outputs = Outputs { eax: 0x9ABC_DEF0, edx: 0x1234_5678 };
    assert_eq!(outputs.edx_eax(), 0x1234_5678_9ABC_DEF0);
    assert_eq!(Outputs { eax: 0, edx: 0 }.edx_eax(), 0);
    assert_eq!(
        Outputs { eax: 0xFFFF_FFFF, edx: 0xFFFF_FFFF }.edx_eax(),
        0xFFFF_FFFF_FFFF_FFFF
    );
}

#[test]
fn al_and_ax_are_the_low_parts_of_eax() {
    let outputs = Outputs { eax: 0x1234_56AB, edx: 7 };
    assert_eq!(outputs.al(), 0xAB);
    assert_eq!(outputs.ax(), 0x56AB);
}

#[test]
fn width_truncates_to_its_part() {
    assert_eq!(Width::Byte.truncate(0x1234_56AB), 0xAB);
    assert_eq!(Width::Word.truncate(0x1234_56AB), 0x56AB);
    assert_eq!(Width::Dword.truncate(0x1234_56AB), 0x1234_56AB);
}

#[test]
fn descriptor_pointer_is_ten_bytes_limit_first() {
    let pointer = DescriptorTablePointer { limit: 0x1234, base: 0x0807_0605_0403_0201 };
    let image: [u8; 10] = pointer.to_bytes();
    assert_eq!(image.len(), 10);
    assert_eq!(DescriptorTablePointer::SIZE, 10);
    assert_eq!(image, [0x34, 0x12, 0x01, 0x02, 0x03, 0x04, 0x05, 0x06, 0x07, 0x08]);
}

#[test]
fn descriptor_pointer_extremes() {
    let zero = DescriptorTablePointer { limit: 0, base: 0 };
    assert_eq!(zero.to_bytes(), [0u8; 10]);
    let full = DescriptorTablePointer { limit: 0xFFFF, base: 0xFFFF_FFFF_FFFF_FFFF };
    assert_eq!(full.to_bytes(), [0xFFu8; 10]);
    let limit_only = DescriptorTablePointer { limit: 0xFFFF, base: 0 };
    assert_eq!(limit_only.to_bytes(), [0xFF, 0xFF, 0, 0, 0, 0, 0, 0, 0, 0]);
}

#[test]
fn descriptor_pointer_reads_back() {
    let pointer = DescriptorTablePointer { limit: 0x0FFF, base: 0xFFFF_8000_0010_2000 };
    assert_eq!(DescriptorTablePointer::from_bytes(&pointer.to_bytes()), pointer);
    let image: [u8; 10] = [9, 8, 7, 6, 5, 4, 3, 2, 1, 0];
    let parsed = DescriptorTablePointer::from_bytes(&image);
    assert_eq!(parsed.limit, 0x0809);
    assert_eq!(parsed.base, 0x0001_0203_0405_0607);
    assert_eq!(parsed.to_bytes(), image);
}

#[test]
fn selector_keeps_its_bits() {
    assert_eq!(SegmentSelector::from_raw(0x2B).bits(), 0x2B);
    assert_eq!(SegmentSelector::from_raw(0xFFFF).bits(), 0xFFFF);
}

#[test]
fn interrupt_control_requests() {
    assert_eq!(enable_interrupts(), Instruction::Sti);
    assert_eq!(disable_interrupts(), Instruction::Cli);
    assert_eq!(halt(), Instruction::Hlt);
}

#[test]
fn software_interrupt_carries_its_constant() {
    assert_eq!(software_interrupt::<0x80>(), Instruction::Int { vector: 0x80 });
    assert_eq!(software_interrupt::<3>(), Instruction::Int { vector: 3 });
    const BREAKPOINT: u8 = 3;
    assert_eq!(software_interrupt::<BREAKPOINT>(), Instruction::Int { vector: 3 });
}

#[test]
fn table_loads_carry_the_image() {
    let pointer = DescriptorTablePointer { limit: 0x0017, base: 0x0000_0000_0010_0000 };
    let image: [u8; 10] = [0x17, 0x00, 0x00, 0x00, 0x10, 0x00, 0x00, 0x00, 0x00, 0x00];
    assert_eq!(lgdt(&pointer), Instruction::Lgdt { image });
    assert_eq!(lldt(&pointer), Instruction::Lldt { image });
    assert_eq!(lidt(&pointer), Instruction::Lidt { image });
}

#[test]
fn load_tss_carries_the_selector() {
    assert_eq!(load_tss(SegmentSelector::from_raw(0x28)), Instruction::Ltr { selector: 0x28 });
}

#[test]
fn timestamp_requests() {
    assert_eq!(rdtsc(), Instruction::Rdtsc);
    assert_eq!(rdtscp(), Instruction::Rdtscp);
}

#[test]
fn wrmsr_places_the_halves() {
    assert_eq!(
        wrmsr(0xC000_0080, 0x1234_5678_9ABC_DEF0),
        Instruction::Wrmsr { ecx: 0xC000_0080, eax: 0x9ABC_DEF0, edx: 0x1234_5678 }
    );
    assert_eq!(wrmsr(0x10, 0), Instruction::Wrmsr { ecx: 0x10, eax: 0, edx: 0 });
    assert_eq!(
        wrmsr(0x10, 0xFFFF_FFFF_FFFF_FFFF),
        Instruction::Wrmsr { ecx: 0x10, eax: 0xFFFF_FFFF, edx: 0xFFFF_FFFF }
    );
}

#[test]
fn rdmsr_places_the_index() {
    assert_eq!(rdmsr(0xC000_0080), Instruction::Rdmsr { ecx: 0xC000_0080 });
}

#[test]
fn barrier_instructions() {
    let pointer = DescriptorTablePointer { limit: 0, base: 0 };
    assert!(lgdt(&pointer).orders_memory());
    assert!(lldt(&pointer).orders_memory());
    assert!(lidt(&pointer).orders_memory());
    assert!(halt().orders_memory());
    assert!(rdtscp().orders_memory());
    assert!(rdmsr(1).orders_memory());
    assert!(wrmsr(1, 2).orders_memory());
    assert!(!rdtsc().orders_memory());
    assert!(!enable_interrupts().orders_memory());
    assert!(!outb(1, 2).orders_memory());
}

#[test]
fn scalar_port_requests() {
    assert_eq!(outb(0x3F8, 0x41), Instruction::Out { width: Width::Byte, dx: 0x3F8, eax: 0x41 });
    assert_eq!(outw(0x1F0, 0xBEEF), Instruction::Out { width: Width::Word, dx: 0x1F0, eax: 0xBEEF });
    assert_eq!(
        outl(0xCF8, 0x8000_0000),
        Instruction::Out { width: Width::Dword, dx: 0xCF8, eax: 0x8000_0000 }
    );
    assert_eq!(inb(0x3F8), Instruction::In { width: Width::Byte, dx: 0x3F8 });
    assert_eq!(inw(0x1F0), Instruction::In { width: Width::Word, dx: 0x1F0 });
    assert_eq!(inl(0xCFC), Instruction::In { width: Width::Dword, dx: 0xCFC });
}

#[test]
fn string_write_count_is_the_buffer_length() {
    let bytes: [u8; 5] = [1, 2, 3, 4, 5];
    assert_eq!(
        outsb(0x1F0, &bytes),
        StringInstruction { direction: Direction::ToPort, width: Width::Byte, dx: 0x1F0, count: 5 }
    );
    let words: [u16; 256] = [0; 256];
    assert_eq!(
        outsw(0x1F0, &words),
        StringInstruction { direction: Direction::ToPort, width: Width::Word, dx: 0x1F0, count: 256 }
    );
    let dwords: Vec<u32> = vec![7; 3];
    assert_eq!(
        outsl(0x1F0, &dwords),
        StringInstruction { direction: Direction::ToPort, width: Width::Dword, dx: 0x1F0, count: 3 }
    );
}

#[test]
fn string_read_count_is_the_buffer_length() {
    let mut bytes: [u8; 4] = [9, 9, 9, 9];
    assert_eq!(
        insb(0x60, &mut bytes),
        StringInstruction { direction: Direction::FromPort, width: Width::Byte, dx: 0x60, count: 4 }
    );
    assert_eq!(bytes, [9, 9, 9, 9]);
    let mut words: Vec<u16> = vec![1; 256];
    assert_eq!(
        insw(0x1F0, &mut words),
        StringInstruction { direction: Direction::FromPort, width: Width::Word, dx: 0x1F0, count: 256 }
    );
    assert_eq!(words, vec![1u16; 256]);
    let mut dwords: [u32; 2] = [5, 6];
    assert_eq!(
        insl(0xCFC, &mut dwords),
        StringInstruction { direction: Direction::FromPort, width: Width::Dword, dx: 0xCFC, count: 2 }
    );
    assert_eq!(dwords, [5, 6]);
}

#[test]
fn empty_buffer_moves_nothing() {
    let none8: [u8; 0] = [];
    let none16: [u16; 0] = [];
    let none32: [u32; 0] = [];
    assert_eq!(outsb(1, &none8).count, 0);
    assert_eq!(outsw(1, &none16).count, 0);
    assert_eq!(outsl(1, &none32).count, 0);
    let mut in8: [u8; 0] = [];
    let mut in16: [u16; 0] = [];
    let mut in32: [u32; 0] = [];
    assert_eq!(insb(1, &mut in8).count, 0);
    assert_eq!(insw(1, &mut in16).count, 0);
    assert_eq!(insl(1, &mut in32).count, 0);
}
